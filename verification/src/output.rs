use vstd::prelude::*;
use crate::errors::RunError;

verus! {

/// The display prefix put before every output line: four spaces, a bar and a
/// space.
pub open spec fn prefix_spec() -> Seq<u8> {
    seq![32u8, 32u8, 32u8, 32u8, 124u8, 32u8]
}

/// Strip one trailing carriage return: a carriage-return-line-feed ending
/// leaves one behind once the bytes are split at the line feed.
pub open spec fn strip_cr(l: Seq<u8>) -> Seq<u8> {
    if l.len() > 0 && l.last() == 13u8 {
        l.drop_last()
    } else {
        l
    }
}

/// Fold the bytes into the complete lines seen so far and the fragment after
/// the last line feed.
pub open spec fn split_state(s: Seq<u8>) -> (Seq<Seq<u8>>, Seq<u8>)
    decreases s.len(),
{
    if s.len() == 0 {
        (Seq::empty(), Seq::empty())
    } else {
        let st = split_state(s.drop_last());
        if s.last() == 10u8 {
            (st.0.push(strip_cr(st.1)), Seq::empty())
        } else {
            (st.0, st.1.push(s.last()))
        }
    }
}

/// The lines of a byte sequence: split at each line feed, a carriage return
/// stripped before each line feed, the final line ending optional, and a
/// trailing fragment without a line feed kept as it stands.
pub open spec fn lines_spec(s: Seq<u8>) -> Seq<Seq<u8>> {
    let st = split_state(s);
    if st.1.len() == 0 {
        st.0
    } else {
        st.0.push(st.1)
    }
}

/// The views of a sequence of byte vectors.
pub open spec fn views_of(vs: Seq<Vec<u8>>) -> Seq<Seq<u8>> {
    vs.map_values(|v: Vec<u8>| v@)
}

/// Each line prefixed for display, the lines joined by line feeds.
pub open spec fn render_spec(ls: Seq<Seq<u8>>) -> Seq<u8>
    decreases ls.len(),
{
    if ls.len() == 0 {
        Seq::empty()
    } else if ls.len() == 1 {
        prefix_spec() + ls[0]
    } else {
        render_spec(ls.drop_last()) + seq![10u8] + prefix_spec() + ls.last()
    }
}

/// What assessing a collected child outcome must produce: the launch error on
/// a non-success status, otherwise the formatted output.
pub open spec fn assess_spec(success: bool, stdout: Seq<u8>) -> Result<Seq<u8>, RunError> {
    if success {
        Ok(render_spec(lines_spec(stdout)))
    } else {
        Err(RunError::Launch)
    }
}

/// Drop one trailing carriage return from a completed line.
fn strip_cr_exec(l: &mut Vec<u8>)
    ensures
        final(l)@ == strip_cr(old(l)@),
{
    let n = l.len();
    if n > 0 && l[n - 1] == 13u8 {
        l.pop();
        proof {
            assert(final(l)@ =~= strip_cr(old(l)@));
        }
    }
}

/// Split captured output into its lines.
pub fn split_lines(s: &Vec<u8>) -> (r: Vec<Vec<u8>>)
    ensures
        views_of(r@) == lines_spec(s@),
{
    let mut r: Vec<Vec<u8>> = Vec::new();
    let mut cur: Vec<u8> = Vec::new();
    let mut i: usize = 0;
    while i < s.len()
        invariant
            i <= s@.len(),
            views_of(r@) == split_state(s@.take(i as int)).0,
            cur@ == split_state(s@.take(i as int)).1,
        decreases s@.len() - i,
    {
        let ghost pre = s@.take(i as int);
        let b = s[i];
        if b == 10u8 {
            strip_cr_exec(&mut cur);
            let ghost done = cur@;
            r.push(cur);
            cur = Vec::new();
            proof {
                assert(views_of(r@) =~= split_state(pre).0.push(done));
            }
        } else {
            cur.push(b);
        }
        i = i + 1;
        proof {
            assert(s@.take(i as int).drop_last() =~= pre);
            assert(s@.take(i as int).last() == b);
        }
    }
    proof {
        assert(s@.take(i as int) =~= s@);
    }
    if cur.len() > 0 {
        let ghost before = views_of(r@);
        let ghost last = cur@;
        r.push(cur);
        proof {
            assert(views_of(r@) =~= before.push(last));
        }
    }
    r
}

/// Render the lines for display: each behind the prefix, joined by line
/// feeds.
pub fn render_lines(ls: &Vec<Vec<u8>>) -> (out: Vec<u8>)
    ensures
        out@ == render_spec(views_of(ls@)),
{
    let mut out: Vec<u8> = Vec::new();
    let mut k: usize = 0;
    while k < ls.len()
        invariant
            k <= ls@.len(),
            out@ == render_spec(views_of(ls@).take(k as int)),
        decreases ls@.len() - k,
    {
        let ghost all = views_of(ls@);
        let ghost before = out@;
        if k > 0 {
            out.push(10u8);
        }
        out.push(32u8);
        out.push(32u8);
        out.push(32u8);
        out.push(32u8);
        out.push(124u8);
        out.push(32u8);
        let ghost framed = out@;
        let line = &ls[k];
        let mut j: usize = 0;
        while j < line.len()
            invariant
                j <= line@.len(),
                out@ == framed + line@.take(j as int),
            decreases line@.len() - j,
        {
            out.push(line[j]);
            j = j + 1;
            proof {
                assert(out@ =~= framed + line@.take(j as int));
            }
        }
        proof {
            assert(line@.take(j as int) =~= line@);
            assert(all.take(k as int + 1).drop_last() =~= all.take(k as int));
            assert(all.take(k as int + 1).last() == all[k as int]);
            assert(all[k as int] == line@);
            if k > 0 {
                assert(framed =~= before + seq![10u8] + prefix_spec());
                assert(out@ =~= render_spec(all.take(k as int)) + seq![10u8] + prefix_spec()
                    + all[k as int]);
            } else {
                assert(framed =~= prefix_spec());
                assert(out@ =~= prefix_spec() + all[0]);
            }
            assert(out@ == render_spec(all.take(k as int + 1)));
        }
        k = k + 1;
    }
    proof {
        assert(views_of(ls@).take(k as int) =~= views_of(ls@));
    }
    out
}

/// Assess a collected child outcome: a non-success terminal status is the
/// launch error, a success yields the formatted output.
pub fn assess(success: bool, stdout: &Vec<u8>) -> (r: Result<Vec<u8>, RunError>)
    ensures
        r matches Ok(out) ==> success && out@ == render_spec(lines_spec(stdout@)),
        r matches Err(e) ==> !success && e == RunError::Launch,
{
    if !success {
        Err(RunError::Launch)
    } else {
        let ls = split_lines(stdout);
        Ok(render_lines(&ls))
    }
}

} // verus!

use vstd::prelude::*;
use crate::hook::ZoneEntryHook;

verus! {

/// Everything one launch needs: the executable, its arguments in order, an
/// explicitly emptied environment, and the pre-execution hook exactly when a
/// zone target was given. Built once per launch and consumed by it.
#[derive(Clone, Debug, PartialEq, Eq)]
pub struct LaunchSpec {
    pub program: String,
    pub args: Vec<String>,
    /// The child's environment is emptied before any launch.
    pub env_clear: bool,
    pub hook: Option<ZoneEntryHook>,
}

impl LaunchSpec {
    pub open spec fn wf(self) -> bool {
        &&& self.env_clear
        &&& (self.hook matches Some(h) ==> h.wf())
    }
}

/// What the launch specification for a given zone target and template
/// descriptor must hold: the fixed shell command with its arguments in order,
/// the `--` separator before the verbatim trailing words, an emptied
/// environment, and the zone-entry hook exactly when a zone target is given.
pub open spec fn is_launch_spec_for(
    s: LaunchSpec,
    zone: Option<i32>,
    template_fd: Option<i32>,
) -> bool {
    &&& s.env_clear
    &&& s.program@ == "/usr/bin/bash"@
    &&& s.args@.len() == 6
    &&& s.args@[0]@ == "-c"@
    &&& s.args@[1]@ == "echo in zone $(zonename); ptree $$; echo; pargs $$; echo"@
    &&& s.args@[2]@ == "--"@
    &&& s.args@[3]@ == "one"@
    &&& s.args@[4]@ == "two three"@
    &&& s.args@[5]@ == "\" four \""@
    &&& (zone is None ==> s.hook is None)
    &&& (zone matches Some(z) ==> s.hook == Some(ZoneEntryHook { zone_id: z, template_fd }))
}

/// Build the launch this program makes: a shell that reports its zone, its
/// process tree and its arguments. The `--` separator stops option parsing,
/// so the trailing words reach the script verbatim. The environment is always
/// cleared, and the zone-entry hook is installed exactly when a zone target
/// is given, carrying the template descriptor when one was supplied.
pub fn make_launch_spec(zone: Option<i32>, template_fd: Option<i32>) -> (s: LaunchSpec)
    requires
        zone matches Some(z) ==> z >= 1,
        template_fd matches Some(fd) ==> fd >= 0,
    ensures
        s.wf(),
        is_launch_spec_for(s, zone, template_fd),
{
    let mut args: Vec<String> = Vec::new();
    args.push(String::from_str("-c"));
    args.push(String::from_str("echo in zone $(zonename); ptree $$; echo; pargs $$; echo"));
    args.push(String::from_str("--"));
    args.push(String::from_str("one"));
    args.push(String::from_str("two three"));
    args.push(String::from_str("\" four \""));
    let hook = match zone {
        Some(z) => Some(ZoneEntryHook::new(z, template_fd)),
        None => None,
    };
    LaunchSpec { program: String::from_str("/usr/bin/bash"), args, env_clear: true, hook }
}

} // verus!

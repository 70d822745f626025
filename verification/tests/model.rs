use zone_launch::errors::RunError;
use zone_launch::hook::{HookStep, HookVerdict, ZoneEntryHook};
use zone_launch::launch::make_launch_spec;
use zone_launch::output::{assess, render_lines, split_lines};
use zone_launch::template::{op_at, ContractTemplate, TemplateOp, TemplateSetup};

#[test]
fn config_sequence_order() {
    assert_eq!(op_at(0), TemplateOp::SetCritical);
    assert_eq!(op_at(1), TemplateOp::SetInformative);
    assert_eq!(op_at(2), TemplateOp::SetFatal);
    assert_eq!(op_at(3), TemplateOp::SetParam);
    assert_eq!(op_at(4), TemplateOp::Activate);
}

#[test]
fn config_masks() {
    assert_eq!(TemplateOp::SetCritical.mask(), 0);
    assert_eq!(TemplateOp::SetInformative.mask(), 0);
    assert_eq!(TemplateOp::SetFatal.mask(), 0x20);
    assert_eq!(TemplateOp::SetParam.mask(), 0x4 | 0x8);
    assert_eq!(TemplateOp::Activate.mask(), 0);
}

#[test]
fn setup_runs_all_five_steps() {
    let mut s = TemplateSetup::begin(7);
    assert_eq!(s.fd(), 7);
    let mut seen = Vec::new();
    while let Some(op) = s.pending() {
        seen.push(op);
        s.record(true);
    }
    assert_eq!(
        seen,
        vec![
            TemplateOp::SetCritical,
            TemplateOp::SetInformative,
            TemplateOp::SetFatal,
            TemplateOp::SetParam,
            TemplateOp::Activate,
        ]
    );
}

#[test]
fn setup_halts_at_first_failure() {
    for fail_at in 0..5 {
        let mut s = TemplateSetup::begin(3);
        for step in 0..5 {
            match s.pending() {
                Some(_) => s.record(step != fail_at),
                None => break,
            }
            if step == fail_at {
                break;
            }
        }
        assert!(s.pending().is_none(), "a later step was pending after a failure");
    }
}

#[test]
fn template_clear_is_idempotent() {
    let mut s = TemplateSetup::begin(9);
    for _ in 0..5 {
        s.record(true);
    }
    let mut t = ContractTemplate::from_setup(&s);
    assert!(t.is_active());
    assert!(t.is_open());
    assert_eq!(t.clear(), 9);
    assert!(!t.is_active());
    assert!(t.is_open());
    assert_eq!(t.clear(), 9);
    assert!(!t.is_active());
    assert!(t.is_open());
}

#[test]
fn template_release_keeps_descriptor() {
    let mut s = TemplateSetup::begin(4);
    for _ in 0..5 {
        s.record(true);
    }
    let mut t = ContractTemplate::from_setup(&s);
    assert_eq!(t.release(), 4);
    assert!(!t.is_open());
}

#[test]
fn hook_clears_before_entering_zone() {
    let h = ZoneEntryHook::new(1, Some(5));
    assert_eq!(h.plan(), vec![HookStep::ClearTemplate(5), HookStep::EnterZone(1)]);
    assert_eq!(h.first_step(), HookStep::ClearTemplate(5));
    let order = h.plan();
    let clear_at = order.iter().position(|s| matches!(s, HookStep::ClearTemplate(_)));
    let enter_at = order.iter().position(|s| matches!(s, HookStep::EnterZone(_)));
    assert!(clear_at.unwrap() < enter_at.unwrap());
}

#[test]
fn hook_without_template_only_enters() {
    let h = ZoneEntryHook::new(2, None);
    assert_eq!(h.plan(), vec![HookStep::EnterZone(2)]);
    assert_eq!(h.first_step(), HookStep::EnterZone(2));
    assert_eq!(h.after_step(0, true), HookVerdict::Exec);
}

#[test]
fn hook_aborts_on_any_failure() {
    let h = ZoneEntryHook::new(1, Some(5));
    assert_eq!(h.after_step(0, false), HookVerdict::Abort);
    assert_eq!(h.after_step(0, true), HookVerdict::Continue(HookStep::EnterZone(1)));
    assert_eq!(h.after_step(1, false), HookVerdict::Abort);
    assert_eq!(h.after_step(1, true), HookVerdict::Exec);
}

#[test]
fn launch_spec_arguments_are_verbatim() {
    let s = make_launch_spec(None, None);
    assert_eq!(s.program, "/usr/bin/bash");
    assert_eq!(
        s.args,
        vec![
            "-c".to_string(),
            "echo in zone $(zonename); ptree $$; echo; pargs $$; echo".to_string(),
            "--".to_string(),
            "one".to_string(),
            "two three".to_string(),
            "\" four \"".to_string(),
        ]
    );
    assert!(s.env_clear);
    assert!(s.hook.is_none());
}

#[test]
fn launch_spec_with_zone_installs_hook() {
    let s = make_launch_spec(Some(1), Some(6));
    assert!(s.env_clear);
    assert_eq!(s.hook, Some(ZoneEntryHook { zone_id: 1, template_fd: Some(6) }));
}

#[test]
fn assess_failure_is_launch_error() {
    let r = assess(false, &b"ignored".to_vec());
    assert_eq!(r, Err(RunError::Launch));
}

#[test]
fn assess_prefixes_each_line() {
    let r = assess(true, &b"in zone z1\nsecond".to_vec());
    assert_eq!(r, Ok(b"    | in zone z1\n    | second".to_vec()));
}

#[test]
fn assess_final_newline_is_optional() {
    let with_nl = assess(true, &b"a\nb\n".to_vec());
    let without = assess(true, &b"a\nb".to_vec());
    assert_eq!(with_nl, Ok(b"    | a\n    | b".to_vec()));
    assert_eq!(with_nl, without);
}

#[test]
fn assess_empty_output() {
    assert_eq!(assess(true, &Vec::new()), Ok(Vec::new()));
}

#[test]
fn assess_keeps_blank_lines() {
    assert_eq!(assess(true, &b"a\n\nb".to_vec()), Ok(b"    | a\n    | \n    | b".to_vec()));
}

#[test]
fn assess_strips_carriage_return_before_line_feed() {
    assert_eq!(assess(true, &b"a\r\nb\r".to_vec()), Ok(b"    | a\n    | b\r".to_vec()));
}

#[test]
fn split_and_render_compose() {
    let ls = split_lines(&b"x\ny\n".to_vec());
    assert_eq!(ls, vec![b"x".to_vec(), b"y".to_vec()]);
    assert_eq!(render_lines(&ls), b"    | x\n    | y".to_vec());
}

#[test]
fn error_descriptions() {
    assert_eq!(RunError::Resource.describe(), "failed to open contract process template");
    assert_eq!(RunError::Configuration.describe(), "contract template creation failure");
    assert_eq!(RunError::Spawn.describe(), "failed to launch command");
    assert_eq!(RunError::Launch.describe(), "command failed");
}

use zone_launch::errors::RunError;
use zone_launch::hook::ZoneEntryHook;
use zone_launch::runner::{collect_outcome, Action, LaunchOutcome, Runner};
use zone_launch::template::TemplateOp;

#[test]
fn run_without_zone_launches_directly() {
    let r = Runner::new(None);
    let (r, a) = r.start();
    let spec = match a {
        Action::Launch { spec } => spec,
        other => panic!("expected a launch, got {:?}", other),
    };
    assert!(spec.env_clear, "the child's environment must be emptied");
    assert!(spec.hook.is_none(), "no zone target, no hook");
    assert_eq!(spec.args[2], "--", "the separator stops option parsing");
    assert_eq!(&spec.args[3..], &["one", "two three", "\" four \""]);
    assert!(!r.opened, "no zone target, no template resource");
    let stdout = b"one\ntwo three\n\" four \"\n".to_vec();
    let (r, a) = r.on_launch(LaunchOutcome::Completed { success: true, stdout });
    assert_eq!(a, Action::Finish);
    assert!(!r.opened && !r.activated && !r.parent_cleared && !r.close_requested);
    let out = r.into_outcome().unwrap();
    assert_eq!(out, b"    | one\n    | two three\n    | \" four \"".to_vec());
}

#[test]
fn run_with_zone_prepares_clears_and_closes_template() {
    let r = Runner::new(Some(1));
    let (r, a) = r.start();
    assert_eq!(a, Action::OpenTemplate);
    let (mut r, mut a) = r.on_open(Some(4));
    let mut ops = Vec::new();
    loop {
        match a {
            Action::Configure { fd, op } => {
                assert_eq!(fd, 4);
                ops.push(op);
                let n = r.on_config(true);
                r = n.0;
                a = n.1;
            }
            _ => break,
        }
    }
    assert_eq!(
        ops,
        vec![
            TemplateOp::SetCritical,
            TemplateOp::SetInformative,
            TemplateOp::SetFatal,
            TemplateOp::SetParam,
            TemplateOp::Activate,
        ]
    );
    assert!(r.activated, "the template is activated before the fork");
    let spec = match a {
        Action::Launch { spec } => spec,
        other => panic!("expected a launch, got {:?}", other),
    };
    assert_eq!(spec.hook, Some(ZoneEntryHook { zone_id: 1, template_fd: Some(4) }));
    assert!(spec.env_clear);
    let stdout = b"in zone z1\nrest".to_vec();
    let (r, a) = r.on_launch(LaunchOutcome::Completed { success: true, stdout });
    assert_eq!(a, Action::ClearParent { fd: 4 }, "the parent clears right after the fork point");
    let (r, a) = r.on_cleared();
    assert!(r.parent_cleared);
    assert_eq!(a, Action::CloseTemplate { fd: 4 });
    let (r, a) = r.on_closed();
    assert_eq!(a, Action::Finish);
    assert!(r.close_requested);
    let out = r.into_outcome().unwrap();
    assert_eq!(out, b"    | in zone z1\n    | rest".to_vec());
}

#[test]
fn run_with_bad_zone_still_clears_and_closes() {
    let r = Runner::new(Some(9));
    let (r, _) = r.start();
    let (mut r, _) = r.on_open(Some(5));
    for _ in 0..5 {
        let n = r.on_config(true);
        r = n.0;
    }
    // The child's zone entry failed: the spawn reports failure to the parent.
    let (r, a) = r.on_launch(LaunchOutcome::SpawnFailed);
    assert_eq!(a, Action::ClearParent { fd: 5 });
    let (r, a) = r.on_cleared();
    assert_eq!(a, Action::CloseTemplate { fd: 5 });
    let (r, _) = r.on_closed();
    assert!(r.parent_cleared, "the template was cleared despite the child-side failure");
    assert!(r.close_requested, "the descriptor was released despite the child-side failure");
    assert_eq!(r.into_outcome(), Err(RunError::Spawn));
}

#[test]
fn run_with_failed_open_reports_resource_error() {
    let r = Runner::new(Some(1));
    let (r, _) = r.start();
    let (r, a) = r.on_open(None);
    assert_eq!(a, Action::Finish);
    assert!(!r.opened && !r.close_requested, "nothing was opened, nothing to release");
    assert_eq!(r.into_outcome(), Err(RunError::Resource));
}

#[test]
fn config_failure_at_each_step_releases_descriptor() {
    for fail_at in 0..5 {
        let r = Runner::new(Some(1));
        let (r, _) = r.start();
        let (mut r, mut a) = r.on_open(Some(8));
        for step in 0..=fail_at {
            match a {
                Action::Configure { .. } => {}
                other => panic!("expected a configuration call, got {:?}", other),
            }
            let n = r.on_config(step != fail_at);
            r = n.0;
            a = n.1;
        }
        assert_eq!(a, Action::CloseTemplate { fd: 8 }, "the open descriptor is still released");
        assert!(!r.activated, "nothing is left activated on failure");
        let (r, a) = r.on_closed();
        assert_eq!(a, Action::Finish);
        assert_eq!(r.into_outcome(), Err(RunError::Configuration));
    }
}

#[test]
fn child_exit_failure_is_a_launch_error() {
    let r = Runner::new(None);
    let (r, _) = r.start();
    let out = LaunchOutcome::Completed { success: false, stdout: b"partial".to_vec() };
    let (r, _) = r.on_launch(out);
    assert_eq!(r.into_outcome(), Err(RunError::Launch));
}

#[test]
fn zoned_child_exit_failure_still_clears_and_closes() {
    let r = Runner::new(Some(1));
    let (r, _) = r.start();
    let (mut r, _) = r.on_open(Some(6));
    for _ in 0..5 {
        let n = r.on_config(true);
        r = n.0;
    }
    let out = LaunchOutcome::Completed { success: false, stdout: Vec::new() };
    let (r, a) = r.on_launch(out);
    assert_eq!(a, Action::ClearParent { fd: 6 });
    let (r, a) = r.on_cleared();
    assert_eq!(a, Action::CloseTemplate { fd: 6 });
    let (r, _) = r.on_closed();
    assert!(r.parent_cleared && r.close_requested);
    assert_eq!(r.into_outcome(), Err(RunError::Launch));
}

#[test]
fn collect_outcome_maps_spawn_failure() {
    assert_eq!(collect_outcome(LaunchOutcome::SpawnFailed), Err(RunError::Spawn));
}

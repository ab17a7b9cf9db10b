use panel_control::host::{ActivationPolicy, HostCall};
use panel_control::icon::set_app_icon_visibility;
use panel_control::platform::Platform;
use panel_control::procedure::{Next, OnFailure, Procedure, Step};

/// A stand-in for the host that keeps what the icon calls set.
struct Shelf {
    activation: ActivationPolicy,
    skip_taskbar: bool,
    refuse: bool,
    calls: Vec<HostCall>,
    log: Vec<String>,
}

impl Shelf {
    fn new() -> Shelf {
        Shelf {
            activation: ActivationPolicy::Regular,
            skip_taskbar: false,
            refuse: false,
            calls: vec![],
            log: vec![],
        }
    }

    fn carry_out(&mut self, mut procedure: Procedure) -> Result<(), String> {
        loop {
            match procedure.next() {
                Next::Perform(call) => {
                    self.calls.push(call);
                    let reply = if self.refuse {
                        Err("not permitted".to_string())
                    } else {
                        match call {
                            HostCall::SetActivationPolicy(policy) => self.activation = policy,
                            HostCall::SetSkipTaskbar(skip) => self.skip_taskbar = skip,
                            other => panic!("an icon request asked for {:?}", other),
                        }
                        Ok(())
                    };
                    procedure.record(reply);
                }
                Next::Log(line) => self.log.push(line),
                Next::Finished(result) => return result,
            }
        }
    }
}

fn must_succeed(call: HostCall, context: &str) -> Step {
    Step::Call { call, context: context.to_string(), on_failure: OnFailure::LogAndFail }
}

#[test]
fn dock_icon_follows_the_activation_policy() {
    let shown = set_app_icon_visibility(Platform::Dock, true, true);
    assert_eq!(
        shown.steps(),
        &vec![must_succeed(
            HostCall::SetActivationPolicy(ActivationPolicy::Regular),
            "Failed to set activation policy",
        )]
    );
    let hidden = set_app_icon_visibility(Platform::Dock, true, false);
    assert_eq!(
        hidden.steps(),
        &vec![must_succeed(
            HostCall::SetActivationPolicy(ActivationPolicy::Accessory),
            "Failed to set activation policy",
        )]
    );
}

#[test]
fn dock_icon_needs_no_window() {
    let mut shelf = Shelf::new();
    let result = shelf.carry_out(set_app_icon_visibility(Platform::Dock, false, false));
    assert_eq!(result, Ok(()));
    assert_eq!(shelf.activation, ActivationPolicy::Accessory);
    assert!(shelf.log.is_empty());
}

#[test]
fn taskbar_icon_follows_the_negated_skip_flag() {
    let shown = set_app_icon_visibility(Platform::Taskbar, true, true);
    assert_eq!(
        shown.steps(),
        &vec![must_succeed(HostCall::SetSkipTaskbar(false), "Failed to set taskbar visibility")]
    );
    let hidden = set_app_icon_visibility(Platform::Taskbar, true, false);
    assert_eq!(
        hidden.steps(),
        &vec![must_succeed(HostCall::SetSkipTaskbar(true), "Failed to set taskbar visibility")]
    );
}

#[test]
fn panel_icon_follows_the_negated_skip_flag() {
    let shown = set_app_icon_visibility(Platform::Panel, true, true);
    assert_eq!(
        shown.steps(),
        &vec![must_succeed(HostCall::SetSkipTaskbar(false), "Failed to set panel visibility")]
    );
    let hidden = set_app_icon_visibility(Platform::Panel, true, false);
    assert_eq!(
        hidden.steps(),
        &vec![must_succeed(HostCall::SetSkipTaskbar(true), "Failed to set panel visibility")]
    );
}

#[test]
fn icon_request_without_window_is_a_logged_no_op() {
    let mut shelf = Shelf::new();
    let result = shelf.carry_out(set_app_icon_visibility(Platform::Taskbar, false, false));
    assert_eq!(result, Ok(()));
    assert!(shelf.calls.is_empty());
    assert_eq!(shelf.log, vec!["Main window not found on Windows".to_string()]);
    assert!(!shelf.skip_taskbar);

    let mut shelf = Shelf::new();
    let result = shelf.carry_out(set_app_icon_visibility(Platform::Panel, false, true));
    assert_eq!(result, Ok(()));
    assert!(shelf.calls.is_empty());
    assert_eq!(shelf.log, vec!["Main window not found on Linux".to_string()]);
}

#[test]
fn refused_icon_call_is_logged_and_returned() {
    let mut shelf = Shelf::new();
    shelf.refuse = true;
    let result = shelf.carry_out(set_app_icon_visibility(Platform::Dock, true, false));
    assert_eq!(result, Err("Failed to set activation policy: not permitted".to_string()));
    assert_eq!(shelf.log, vec!["Failed to set activation policy: not permitted".to_string()]);
    assert_eq!(shelf.activation, ActivationPolicy::Regular);

    let mut shelf = Shelf::new();
    shelf.refuse = true;
    let result = shelf.carry_out(set_app_icon_visibility(Platform::Taskbar, true, false));
    assert_eq!(result, Err("Failed to set taskbar visibility: not permitted".to_string()));

    let mut shelf = Shelf::new();
    shelf.refuse = true;
    let result = shelf.carry_out(set_app_icon_visibility(Platform::Panel, true, false));
    assert_eq!(result, Err("Failed to set panel visibility: not permitted".to_string()));
    assert_eq!(shelf.log, vec!["Failed to set panel visibility: not permitted".to_string()]);
}

#[test]
fn asking_twice_is_asking_once() {
    for platform in [Platform::Dock, Platform::Taskbar, Platform::Panel] {
        for visible in [true, false] {
            let mut once = Shelf::new();
            once.carry_out(set_app_icon_visibility(platform, true, visible)).unwrap();
            let mut twice = Shelf::new();
            twice.carry_out(set_app_icon_visibility(platform, true, visible)).unwrap();
            twice.carry_out(set_app_icon_visibility(platform, true, visible)).unwrap();
            assert_eq!(once.activation, twice.activation);
            assert_eq!(once.skip_taskbar, twice.skip_taskbar);
        }
    }
}

#[test]
fn showing_the_icon_twice_leaves_it_shown() {
    let mut shelf = Shelf::new();
    shelf.skip_taskbar = true;
    shelf.carry_out(set_app_icon_visibility(Platform::Panel, true, true)).unwrap();
    assert!(!shelf.skip_taskbar);
    shelf.carry_out(set_app_icon_visibility(Platform::Panel, true, true)).unwrap();
    assert!(!shelf.skip_taskbar);
    assert_eq!(shelf.activation, ActivationPolicy::Regular);
}

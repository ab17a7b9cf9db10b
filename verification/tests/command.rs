use panel_control::command::{set_always_on_top, set_window_height, PANEL_WIDTH, TOP_MARGIN};
use panel_control::host::HostCall;
use panel_control::position::WorkArea;
use panel_control::procedure::{Next, OnFailure, Procedure, Step};

/// A stand-in for the host that keeps the window's geometry.
struct Frame {
    width: u32,
    height: u32,
    x: i64,
    y: i64,
    on_top: bool,
    refused: Vec<HostCall>,
    calls: Vec<HostCall>,
    log: Vec<String>,
}

impl Frame {
    fn new() -> Frame {
        Frame {
            width: 700,
            height: 54,
            x: 0,
            y: 0,
            on_top: false,
            refused: vec![],
            calls: vec![],
            log: vec![],
        }
    }

    fn carry_out(&mut self, mut procedure: Procedure) -> Result<(), String> {
        loop {
            match procedure.next() {
                Next::Perform(call) => {
                    self.calls.push(call);
                    let reply = if self.refused.contains(&call) {
                        Err("os error 5".to_string())
                    } else {
                        match call {
                            HostCall::SetSize { width, height } => {
                                self.width = width;
                                self.height = height;
                            }
                            HostCall::SetPosition { x, y } => {
                                self.x = x;
                                self.y = y;
                            }
                            HostCall::SetAlwaysOnTop(enabled) => self.on_top = enabled,
                            other => panic!("a window command asked for {:?}", other),
                        }
                        Ok(())
                    };
                    procedure.record(reply);
                }
                Next::Log(line) => self.log.push(line),
                Next::Finished(result) => return result,
            }
        }
    }
}

fn full_hd() -> WorkArea {
    WorkArea { x: 0, y: 0, width: 1920, height: 1080 }
}

#[test]
fn fixed_width_and_margin() {
    assert_eq!(PANEL_WIDTH, 700);
    assert_eq!(TOP_MARGIN, 54);
}

#[test]
fn set_window_height_500() {
    let mut frame = Frame::new();
    let result = frame.carry_out(set_window_height(true, 500, Some(full_hd()), None));
    assert_eq!(result, Ok(()));
    assert_eq!(frame.height, 500);
    assert_eq!(frame.width, 700);
    assert_eq!(frame.x, 610);
    assert_eq!(frame.y, 54);
    assert_eq!(2 * frame.x + 700, 1920);
    assert!(frame.log.is_empty());
}

#[test]
fn set_window_height_steps() {
    let procedure = set_window_height(true, 320, Some(full_hd()), None);
    assert_eq!(
        procedure.steps(),
        &vec![
            Step::Call {
                call: HostCall::SetSize { width: 700, height: 320 },
                context: "Failed to resize window".to_string(),
                on_failure: OnFailure::Fail,
            },
            Step::Call {
                call: HostCall::SetPosition { x: 610, y: 54 },
                context: "Failed to reposition window".to_string(),
                on_failure: OnFailure::LogAndContinue,
            },
        ]
    );
}

#[test]
fn set_window_height_uses_the_primary_monitor_as_a_fallback() {
    let primary = WorkArea { x: 100, y: 30, width: 1000, height: 800 };
    let mut frame = Frame::new();
    frame.carry_out(set_window_height(true, 200, None, Some(primary))).unwrap();
    assert_eq!((frame.x, frame.y), (250, 84));

    let current = WorkArea { x: -1280, y: 0, width: 1280, height: 1024 };
    let mut frame = Frame::new();
    frame.carry_out(set_window_height(true, 200, Some(current), Some(primary))).unwrap();
    assert_eq!((frame.x, frame.y), (-990, 54));
}

#[test]
fn failed_resize_fails_the_command_and_skips_the_rest() {
    let mut frame = Frame::new();
    frame.refused = vec![HostCall::SetSize { width: 700, height: 500 }];
    let result = frame.carry_out(set_window_height(true, 500, Some(full_hd()), None));
    assert_eq!(result, Err("Failed to resize window: os error 5".to_string()));
    assert_eq!(frame.calls, vec![HostCall::SetSize { width: 700, height: 500 }]);
    assert!(frame.log.is_empty());
    assert_eq!(frame.height, 54);
}

#[test]
fn failed_reposition_is_logged_only() {
    let mut frame = Frame::new();
    frame.refused = vec![HostCall::SetPosition { x: 610, y: 54 }];
    let result = frame.carry_out(set_window_height(true, 500, Some(full_hd()), None));
    assert_eq!(result, Ok(()));
    assert_eq!(frame.height, 500);
    assert_eq!(frame.log, vec!["Failed to reposition window: os error 5".to_string()]);
    assert_eq!((frame.x, frame.y), (0, 0));
}

#[test]
fn missing_monitor_is_logged_only() {
    let mut frame = Frame::new();
    let result = frame.carry_out(set_window_height(true, 500, None, None));
    assert_eq!(result, Ok(()));
    assert_eq!(frame.height, 500);
    assert_eq!(frame.calls, vec![HostCall::SetSize { width: 700, height: 500 }]);
    assert_eq!(frame.log, vec!["Failed to reposition window: No monitor found".to_string()]);
}

#[test]
fn missing_monitor_is_not_logged_when_the_resize_failed() {
    let mut frame = Frame::new();
    frame.refused = vec![HostCall::SetSize { width: 700, height: 500 }];
    let result = frame.carry_out(set_window_height(true, 500, None, None));
    assert_eq!(result, Err("Failed to resize window: os error 5".to_string()));
    assert!(frame.log.is_empty());
}

#[test]
fn extreme_heights_are_passed_on() {
    for height in [0, 1, u32::MAX] {
        let mut frame = Frame::new();
        frame.carry_out(set_window_height(true, height, Some(full_hd()), None)).unwrap();
        assert_eq!(frame.height, height);
        assert_eq!(frame.width, 700);
    }
}

#[test]
fn set_always_on_top_sets_the_flag() {
    let mut frame = Frame::new();
    assert_eq!(frame.carry_out(set_always_on_top(true, true)), Ok(()));
    assert!(frame.on_top);
    assert_eq!(frame.carry_out(set_always_on_top(true, false)), Ok(()));
    assert!(!frame.on_top);
    assert!(frame.log.is_empty());
}

#[test]
fn refused_always_on_top_is_logged_and_returned() {
    let mut frame = Frame::new();
    frame.refused = vec![HostCall::SetAlwaysOnTop(true)];
    let result = frame.carry_out(set_always_on_top(true, true));
    assert_eq!(result, Err("Failed to set always on top: os error 5".to_string()));
    assert_eq!(frame.log, vec!["Failed to set always on top: os error 5".to_string()]);
    assert!(!frame.on_top);
}

#[test]
fn window_commands_fail_without_a_window() {
    let mut frame = Frame::new();
    let result = frame.carry_out(set_always_on_top(false, true));
    assert_eq!(result, Err("Main window not found".to_string()));
    assert!(frame.calls.is_empty());
    assert_eq!(frame.log, vec!["Main window not found".to_string()]);

    let mut frame = Frame::new();
    let result = frame.carry_out(set_window_height(false, 500, Some(full_hd()), None));
    assert_eq!(result, Err("Main window not found".to_string()));
    assert!(frame.calls.is_empty());
    assert_eq!(frame.height, 54);
}

use panel_control::host::HostCall;
use panel_control::position::{
    position_window_top_center, resolve_work_area, setup_main_window, top_center, WorkArea,
};
use panel_control::procedure::{Next, OnFailure, Step};

fn area(x: i32, y: i32, width: u32, height: u32) -> WorkArea {
    WorkArea { x, y, width, height }
}

#[test]
fn current_monitor_is_preferred() {
    let current = area(0, 0, 800, 600);
    let primary = area(800, 0, 1920, 1080);
    assert_eq!(resolve_work_area(Some(current), Some(primary)), Some(current));
    assert_eq!(resolve_work_area(None, Some(primary)), Some(primary));
    assert_eq!(resolve_work_area(Some(current), None), Some(current));
    assert_eq!(resolve_work_area(None, None), None);
}

#[test]
fn window_is_centred_below_the_margin() {
    assert_eq!(
        top_center(area(0, 0, 1920, 1080), 700, 54),
        HostCall::SetPosition { x: 610, y: 54 }
    );
    assert_eq!(
        top_center(area(1920, 25, 2560, 1415), 700, 54),
        HostCall::SetPosition { x: 2850, y: 79 }
    );
    assert_eq!(
        top_center(area(-1280, -200, 1280, 1024), 700, 10),
        HostCall::SetPosition { x: -990, y: -190 }
    );
}

#[test]
fn odd_gap_leaves_the_smaller_half_on_the_left() {
    assert_eq!(top_center(area(0, 0, 1001, 500), 700, 0), HostCall::SetPosition { x: 150, y: 0 });
    assert_eq!(top_center(area(0, 0, 700, 500), 1001, 0), HostCall::SetPosition { x: -150, y: 0 });
}

#[test]
fn window_wider_than_the_area_overhangs_on_both_sides() {
    assert_eq!(top_center(area(0, 0, 500, 500), 700, 54), HostCall::SetPosition { x: -100, y: 54 });
    assert_eq!(top_center(area(0, 0, 700, 500), 700, 54), HostCall::SetPosition { x: 0, y: 54 });
}

#[test]
fn extreme_geometry_does_not_overflow() {
    assert_eq!(
        top_center(area(i32::MAX, i32::MAX, u32::MAX, 0), 0, i32::MAX),
        HostCall::SetPosition { x: 2147483647 + 2147483647, y: 2147483647 + 2147483647 }
    );
    assert_eq!(
        top_center(area(i32::MIN, i32::MIN, 0, 0), u32::MAX, i32::MIN),
        HostCall::SetPosition { x: -2147483648 - 2147483647, y: -2147483648 - 2147483648 }
    );
}

#[test]
fn standalone_placement_fails_on_refusal() {
    let mut procedure = position_window_top_center(Some(area(0, 0, 1920, 1080)), None, 700, 54);
    assert_eq!(
        procedure.steps(),
        &vec![Step::Call {
            call: HostCall::SetPosition { x: 610, y: 54 },
            context: "Failed to set window position".to_string(),
            on_failure: OnFailure::Fail,
        }]
    );
    assert_eq!(procedure.next(), Next::Perform(HostCall::SetPosition { x: 610, y: 54 }));
    procedure.record(Err("rejected".to_string()));
    assert_eq!(
        procedure.next(),
        Next::Finished(Err("Failed to set window position: rejected".to_string()))
    );
}

#[test]
fn standalone_placement_fails_without_a_monitor() {
    let mut procedure = position_window_top_center(None, None, 700, 54);
    assert!(procedure.steps().is_empty());
    assert_eq!(procedure.next(), Next::Finished(Err("No monitor found".to_string())));
}

#[test]
fn startup_places_the_window() {
    let mut procedure = setup_main_window(true, None, Some(area(0, 0, 1440, 900)), 700, 54);
    assert_eq!(procedure.next(), Next::Perform(HostCall::SetPosition { x: 370, y: 54 }));
    procedure.record(Ok(()));
    assert_eq!(procedure.next(), Next::Finished(Ok(())));
}

#[test]
fn startup_fails_without_window_or_monitor() {
    let mut procedure = setup_main_window(false, Some(area(0, 0, 1440, 900)), None, 700, 54);
    assert_eq!(procedure.next(), Next::Finished(Err("Main window not found".to_string())));
    let mut procedure = setup_main_window(true, None, None, 700, 54);
    assert_eq!(procedure.next(), Next::Finished(Err("No monitor found".to_string())));
}

use crate::host::HostCall;
use crate::procedure::{steps_view, OnFailure, Procedure, ProcedureView, Step, StepView};
use vstd::prelude::*;

verus! {

/// The part of a monitor that windows may cover, in logical pixels.
#[derive(Clone, Copy, Debug, PartialEq, Eq, Structural)]
pub struct WorkArea {
    pub x: i32,
    pub y: i32,
    pub width: u32,
    pub height: u32,
}

/// The work area to place the window in: that of the monitor the window is
/// on, or else that of the primary monitor.
pub open spec fn resolved_area(current: Option<WorkArea>, primary: Option<WorkArea>) -> Option<
    WorkArea,
> {
    if current is Some {
        current
    } else {
        primary
    }
}

/// The left edge of a window of the given width that is centred in `area`.
/// Half the difference of the two widths lies on either side; where the
/// difference is odd, the left side gets the smaller half. A window wider
/// than the area hangs over on both sides.
pub open spec fn centered_left(area: WorkArea, window_width: u32) -> int {
    if area.width >= window_width {
        area.x + (area.width - window_width) / 2
    } else {
        area.x - (window_width - area.width) / 2
    }
}

/// The top edge of a window that keeps `margin_top` below the top of `area`.
pub open spec fn margin_top_edge(area: WorkArea, margin_top: i32) -> int {
    area.y + margin_top
}

/// The call that puts a window of the given width at the top centre of `area`.
pub open spec fn top_center_call(area: WorkArea, window_width: u32, margin_top: i32) -> HostCall {
    HostCall::SetPosition {
        x: centered_left(area, window_width) as i64,
        y: margin_top_edge(area, margin_top) as i64,
    }
}

/// A window placed by `centered_left` has its centre within half a pixel of
/// the work area's, and exactly on it where the two widths differ by an even
/// number.
pub proof fn lemma_centered(area: WorkArea, window_width: u32)
    ensures
        -1 <= (2 * centered_left(area, window_width) + window_width) - (2 * area.x + area.width)
            <= 1,
        (area.width - window_width) % 2 == 0 ==> 2 * centered_left(area, window_width)
            + window_width == 2 * area.x + area.width,
        i64::MIN <= centered_left(area, window_width) <= i64::MAX,
{
}

pub fn resolve_work_area(current: Option<WorkArea>, primary: Option<WorkArea>) -> (area: Option<
    WorkArea,
>)
    ensures
        area == resolved_area(current, primary),
{
    match current {
        Some(area) => Some(area),
        None => primary,
    }
}

/// Computes where a window of the given width goes in `area`.
pub fn top_center(area: WorkArea, window_width: u32, margin_top: i32) -> (call: HostCall)
    ensures
        call == top_center_call(area, window_width, margin_top),
        call matches HostCall::SetPosition { x, y } && x == centered_left(area, window_width) && y
            == margin_top_edge(area, margin_top),
{
    let x: i64 = if area.width >= window_width {
        area.x as i64 + ((area.width - window_width) / 2) as i64
    } else {
        area.x as i64 - ((window_width - area.width) / 2) as i64
    };
    let y: i64 = area.y as i64 + margin_top as i64;
    HostCall::SetPosition { x, y }
}

/// The steps that place a window on its own account: a refused call is the
/// procedure's failure, and so is a work area that cannot be had.
pub open spec fn position_plan(
    current: Option<WorkArea>,
    primary: Option<WorkArea>,
    window_width: u32,
    margin_top: i32,
) -> ProcedureView {
    match resolved_area(current, primary) {
        Some(area) => ProcedureView::start(
            seq![
                StepView::Call {
                    call: top_center_call(area, window_width, margin_top),
                    context: "Failed to set window position"@,
                    on_failure: OnFailure::Fail,
                },
            ],
        ),
        None => ProcedureView::rejected("No monitor found"@, false),
    }
}

/// Places a window of the given width at the top centre of the monitor it is
/// on, or of the primary monitor, `margin_top` logical pixels below the top
/// of the work area. `current` and `primary` are the work areas of these two
/// monitors, as far as the host could tell them.
pub fn position_window_top_center(
    current: Option<WorkArea>,
    primary: Option<WorkArea>,
    window_width: u32,
    margin_top: i32,
) -> (procedure: Procedure)
    ensures
        procedure@ == position_plan(current, primary, window_width, margin_top),
{
    match resolve_work_area(current, primary) {
        Some(area) => {
            let mut steps: Vec<Step> = Vec::new();
            steps.push(
                Step::call(
                    top_center(area, window_width, margin_top),
                    "Failed to set window position",
                    OnFailure::Fail,
                ),
            );
            assert(steps_view(steps@) =~= position_plan(
                current,
                primary,
                window_width,
                margin_top,
            ).steps);
            Procedure::new(steps)
        },
        None => Procedure::rejected("No monitor found".to_owned(), false),
    }
}

/// How the main window is placed when the application starts. Nothing here
/// is done on a best effort: without a window, without a work area, or with
/// a host that refuses the call, the procedure fails.
pub open spec fn main_window_plan(
    window_found: bool,
    current: Option<WorkArea>,
    primary: Option<WorkArea>,
    window_width: u32,
    margin_top: i32,
) -> ProcedureView {
    if window_found {
        position_plan(current, primary, window_width, margin_top)
    } else {
        ProcedureView::rejected("Main window not found"@, false)
    }
}

/// Places the main window at the top centre of its monitor when the
/// application starts. `window_width` is the window's width as the host
/// reports it, in logical pixels.
pub fn setup_main_window(
    window_found: bool,
    current: Option<WorkArea>,
    primary: Option<WorkArea>,
    window_width: u32,
    margin_top: i32,
) -> (procedure: Procedure)
    ensures
        procedure@ == main_window_plan(window_found, current, primary, window_width, margin_top),
{
    if window_found {
        position_window_top_center(current, primary, window_width, margin_top)
    } else {
        Procedure::rejected("Main window not found".to_owned(), false)
    }
}

} // verus!

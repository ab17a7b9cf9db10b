use crate::host::HostCall;
use crate::model::HostModel;
use crate::position::{
    centered_left, lemma_centered, resolve_work_area, resolved_area, top_center, top_center_call,
    WorkArea,
};
use crate::procedure::{
    lemma_play_rejected, steps_view, unhindered, Effect, OnFailure, Procedure, ProcedureView,
    ReplyView, Step, StepView,
};
use vstd::prelude::*;

verus! {

/// The main window's width in logical pixels. Only its height ever changes.
pub const PANEL_WIDTH: u32 = 700;

/// How far below the top of the work area the main window sits, in logical pixels.
pub const TOP_MARGIN: i32 = 54;

/// How the main window is pinned above all others, or released: without a
/// window the command fails at once; a host that refuses the call fails it too.
pub open spec fn always_on_top_plan(window_found: bool, enabled: bool) -> ProcedureView {
    if window_found {
        ProcedureView::start(
            seq![
                StepView::Call {
                    call: HostCall::SetAlwaysOnTop(enabled),
                    context: "Failed to set always on top"@,
                    on_failure: OnFailure::LogAndFail,
                },
            ],
        )
    } else {
        ProcedureView::rejected("Main window not found"@, true)
    }
}

/// Keeps the main window above all others, or stops doing so.
pub fn set_always_on_top(window_found: bool, enabled: bool) -> (procedure: Procedure)
    ensures
        procedure@ == always_on_top_plan(window_found, enabled),
{
    if !window_found {
        return Procedure::rejected("Main window not found".to_owned(), true);
    }
    let mut steps: Vec<Step> = Vec::new();
    steps.push(
        Step::call(
            HostCall::SetAlwaysOnTop(enabled),
            "Failed to set always on top",
            OnFailure::LogAndFail,
        ),
    );
    assert(steps_view(steps@) =~= always_on_top_plan(window_found, enabled).steps);
    Procedure::new(steps)
}

/// The step that puts the resized window back at the top centre. It is done
/// on a best effort: a refusal is logged, and so is a work area that cannot
/// be had.
pub open spec fn reposition_step(current: Option<WorkArea>, primary: Option<WorkArea>) -> StepView {
    match resolved_area(current, primary) {
        Some(area) => StepView::Call {
            call: top_center_call(area, PANEL_WIDTH, TOP_MARGIN),
            context: "Failed to reposition window"@,
            on_failure: OnFailure::LogAndContinue,
        },
        None => StepView::Log("Failed to reposition window: No monitor found"@),
    }
}

/// How the main window is given a new height: it is resized to the fixed
/// width and the given height, and then centred again. Only the resize can
/// fail the command. Without a window the command fails at once.
pub open spec fn window_height_plan(
    window_found: bool,
    height: u32,
    current: Option<WorkArea>,
    primary: Option<WorkArea>,
) -> ProcedureView {
    if window_found {
        ProcedureView::start(
            seq![
                StepView::Call {
                    call: HostCall::SetSize { width: PANEL_WIDTH, height },
                    context: "Failed to resize window"@,
                    on_failure: OnFailure::Fail,
                },
                reposition_step(current, primary),
            ],
        )
    } else {
        ProcedureView::rejected("Main window not found"@, true)
    }
}

/// Gives the main window the height asked for, in logical pixels, and puts
/// it back at the top centre of its monitor. `current` and `primary` are the
/// work areas of the monitor that the window is on and of the primary
/// monitor, as far as the host could tell them.
pub fn set_window_height(
    window_found: bool,
    height: u32,
    current: Option<WorkArea>,
    primary: Option<WorkArea>,
) -> (procedure: Procedure)
    ensures
        procedure@ == window_height_plan(window_found, height, current, primary),
{
    if !window_found {
        return Procedure::rejected("Main window not found".to_owned(), true);
    }
    let mut steps: Vec<Step> = Vec::new();
    steps.push(
        Step::call(
            HostCall::SetSize { width: PANEL_WIDTH, height },
            "Failed to resize window",
            OnFailure::Fail,
        ),
    );
    match resolve_work_area(current, primary) {
        Some(area) => {
            steps.push(
                Step::call(
                    top_center(area, PANEL_WIDTH, TOP_MARGIN),
                    "Failed to reposition window",
                    OnFailure::LogAndContinue,
                ),
            );
        },
        None => {
            steps.push(Step::log("Failed to reposition window: No monitor found".to_owned()));
        },
    }
    assert(steps_view(steps@) =~= window_height_plan(window_found, height, current, primary).steps);
    Procedure::new(steps)
}

/// A window whose height was set, on a host that carried the request out,
/// has that height and the fixed width, sits `TOP_MARGIN` below the top of
/// the work area, and has its centre within half a pixel of the work area's:
/// exactly on it where the area's width and the window's differ by an even
/// number.
pub proof fn lemma_window_height(
    height: u32,
    current: Option<WorkArea>,
    primary: Option<WorkArea>,
    model: HostModel,
)
    requires
        resolved_area(current, primary) is Some,
    ensures
        ({
            let area = resolved_area(current, primary)->0;
            let after = model.after(
                unhindered(window_height_plan(true, height, current, primary).steps),
            );
            &&& after.height == height
            &&& after.width == PANEL_WIDTH
            &&& after.y == area.y + TOP_MARGIN
            &&& after.x == centered_left(area, PANEL_WIDTH)
            &&& -1 <= (2 * after.x + after.width) - (2 * area.x + area.width) <= 1
            &&& (area.width - PANEL_WIDTH) % 2 == 0 ==> 2 * after.x + after.width == 2 * area.x
                + area.width
        }),
{
    let area = resolved_area(current, primary)->0;
    let effects = unhindered(window_height_plan(true, height, current, primary).steps);
    reveal_with_fuel(HostModel::after, 3);
    assert(effects.drop_first().drop_first() =~= Seq::empty());
    lemma_centered(area, PANEL_WIDTH);
}

/// The commands that act on the main window fail when there is none, with a
/// message, whatever the host would answer, and ask nothing of the host.
pub proof fn lemma_commands_need_window(
    enabled: bool,
    height: u32,
    current: Option<WorkArea>,
    primary: Option<WorkArea>,
    replies: Seq<ReplyView>,
)
    ensures
        always_on_top_plan(false, enabled).play(replies).result is Err,
        always_on_top_plan(false, enabled).play(replies).effects == seq![
            Effect::Log("Main window not found"@),
        ],
        window_height_plan(false, height, current, primary).play(replies).result is Err,
        window_height_plan(false, height, current, primary).play(replies).effects == seq![
            Effect::Log("Main window not found"@),
        ],
{
    lemma_play_rejected("Main window not found"@, true, replies);
}

} // verus!

use crate::host::{ActivationPolicy, HostCall};
use crate::model::HostModel;
use crate::platform::Platform;
use crate::procedure::{
    carry_out, steps_view, unhindered, OnFailure, Procedure, ProcedureView, ReplyView, Step,
    StepView,
};
use vstd::prelude::*;

verus! {

/// The activation policy under which the application's icon is, or is not, in the dock.
pub open spec fn policy_for(visible: bool) -> ActivationPolicy {
    if visible {
        ActivationPolicy::Regular
    } else {
        ActivationPolicy::Accessory
    }
}

/// A call whose failure is logged and fails the request.
pub open spec fn must_succeed(call: HostCall, context: Seq<char>) -> StepView {
    StepView::Call { call, context, on_failure: OnFailure::LogAndFail }
}

/// How the wish to see the application's icon, or not to, is carried out.
///
/// Exactly one of three policies applies, by platform. In a dock the icon
/// follows the activation policy. In a taskbar or panel it follows the main
/// window's skip flag, which is the negation of `visible`; without a main
/// window there is nothing to set, which is worth an error line and no more.
pub open spec fn icon_steps(platform: Platform, window_found: bool, visible: bool) -> Seq<
    StepView,
> {
    match platform {
        Platform::Dock => seq![
            must_succeed(
                HostCall::SetActivationPolicy(policy_for(visible)),
                "Failed to set activation policy"@,
            ),
        ],
        Platform::Taskbar => if window_found {
            seq![
                must_succeed(HostCall::SetSkipTaskbar(!visible), "Failed to set taskbar visibility"@),
            ]
        } else {
            seq![StepView::Log("Main window not found on Windows"@)]
        },
        Platform::Panel => if window_found {
            seq![
                must_succeed(HostCall::SetSkipTaskbar(!visible), "Failed to set panel visibility"@),
            ]
        } else {
            seq![StepView::Log("Main window not found on Linux"@)]
        },
    }
}

/// Shows or hides the application's icon in the dock, taskbar or panel.
pub fn set_app_icon_visibility(platform: Platform, window_found: bool, visible: bool) -> (procedure:
    Procedure)
    ensures
        procedure@ == ProcedureView::start(icon_steps(platform, window_found, visible)),
{
    let mut steps: Vec<Step> = Vec::new();
    match platform {
        Platform::Dock => {
            let policy = if visible {
                ActivationPolicy::Regular
            } else {
                ActivationPolicy::Accessory
            };
            steps.push(
                Step::call(
                    HostCall::SetActivationPolicy(policy),
                    "Failed to set activation policy",
                    OnFailure::LogAndFail,
                ),
            );
        },
        Platform::Taskbar => {
            if window_found {
                steps.push(
                    Step::call(
                        HostCall::SetSkipTaskbar(!visible),
                        "Failed to set taskbar visibility",
                        OnFailure::LogAndFail,
                    ),
                );
            } else {
                steps.push(Step::log("Main window not found on Windows".to_owned()));
            }
        },
        Platform::Panel => {
            if window_found {
                steps.push(
                    Step::call(
                        HostCall::SetSkipTaskbar(!visible),
                        "Failed to set panel visibility",
                        OnFailure::LogAndFail,
                    ),
                );
            } else {
                steps.push(Step::log("Main window not found on Linux".to_owned()));
            }
        },
    }
    assert(steps_view(steps@) =~= icon_steps(platform, window_found, visible));
    Procedure::new(steps)
}

/// The host after a request to show or hide the icon that it carried out.
pub open spec fn after_icon_request(
    platform: Platform,
    window_found: bool,
    visible: bool,
    model: HostModel,
) -> HostModel {
    model.after(unhindered(icon_steps(platform, window_found, visible)))
}

/// What a request that the host carries out leaves behind: in a dock the
/// policy that goes with `visible`; in a taskbar or panel a skip flag that is
/// its negation, if there is a main window, and no change if there is none.
/// Nothing else about the host changes.
pub proof fn lemma_icon_request(
    platform: Platform,
    window_found: bool,
    visible: bool,
    model: HostModel,
)
    ensures
        after_icon_request(platform, window_found, visible, model) == match platform {
            Platform::Dock => HostModel { activation: policy_for(visible), ..model },
            _ => if window_found {
                HostModel { skip_taskbar: !visible, ..model }
            } else {
                model
            },
        },
{
    reveal_with_fuel(HostModel::after, 2);
    let effects = unhindered(icon_steps(platform, window_found, visible));
    assert(effects.drop_first() =~= Seq::empty());
}

/// Asking for the same icon visibility twice in a row leaves the host as
/// asking once does.
pub proof fn lemma_icon_request_idempotent(
    platform: Platform,
    window_found: bool,
    visible: bool,
    model: HostModel,
)
    ensures
        after_icon_request(
            platform,
            window_found,
            visible,
            after_icon_request(platform, window_found, visible, model),
        ) == after_icon_request(platform, window_found, visible, model),
{
    let once = after_icon_request(platform, window_found, visible, model);
    lemma_icon_request(platform, window_found, visible, model);
    lemma_icon_request(platform, window_found, visible, once);
}

/// In a taskbar or panel, a request made while there is no main window
/// succeeds whatever the host would answer: it asks nothing of the host and
/// writes one error line.
pub proof fn lemma_icon_request_without_window(
    platform: Platform,
    visible: bool,
    replies: Seq<ReplyView>,
)
    requires
        platform != Platform::Dock,
    ensures
        carry_out(icon_steps(platform, false, visible), replies).result == Ok::<(), Seq<char>>(()),
        carry_out(icon_steps(platform, false, visible), replies).effects.len() == 1,
        carry_out(icon_steps(platform, false, visible), replies).effects[0] is Log,
{
    reveal_with_fuel(carry_out, 2);
    let steps = icon_steps(platform, false, visible);
    assert(steps.drop_first() =~= Seq::empty());
}

} // verus!

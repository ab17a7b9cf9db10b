use crate::host::{Event, HostCall};
use crate::model::HostModel;
use crate::platform::Platform;
use crate::procedure::{
    attempted, carry_out, lemma_best_effort, planned, steps_view, unhindered, Effect, OnFailure,
    Procedure, ProcedureView, ReplyView, Step, StepView,
};
use crate::visibility::WindowVisibility;
use vstd::prelude::*;
use vstd::string::*;

verus! {

/// What the host said of the main window when a toggle was requested.
#[derive(Debug, PartialEq, Eq)]
pub enum WindowProbe {
    /// There is no main window.
    Missing,
    /// The window is there, and visible.
    Visible,
    /// The window is there, and not visible.
    Hidden,
    /// The window is there; whether it is visible the host could not say, or
    /// was not asked. Holds the host's error.
    Unknown(String),
}

/// A probe with the host's error as a sequence of characters.
pub enum ProbeView {
    Missing,
    Visible,
    Hidden,
    Unknown(Seq<char>),
}

impl View for WindowProbe {
    type V = ProbeView;

    open spec fn view(&self) -> ProbeView {
        match self {
            WindowProbe::Missing => ProbeView::Missing,
            WindowProbe::Visible => ProbeView::Visible,
            WindowProbe::Hidden => ProbeView::Hidden,
            WindowProbe::Unknown(error) => ProbeView::Unknown(error@),
        }
    }
}

/// A call that is made on a best effort: its failure is logged and holds
/// nothing up.
pub open spec fn attempt(call: HostCall, context: Seq<char>) -> StepView {
    StepView::Call { call, context, on_failure: OnFailure::LogAndContinue }
}

/// Whether a toggle request flips the visibility flag: it does where the
/// flag stands in for the host's report, if there is a window to toggle.
pub open spec fn flips_flag(platform: Platform, probe: ProbeView) -> bool {
    !platform.has_live_visibility() && probe !is Missing
}

/// The visibility flag after a toggle request.
pub open spec fn flag_after_toggle(platform: Platform, probe: ProbeView, hidden: bool) -> bool {
    if flips_flag(platform, probe) {
        !hidden
    } else {
        hidden
    }
}

/// What a toggle request sets in motion, given what the host said of the
/// window and the value of the visibility flag at that moment.
///
/// Without a window the request is dropped with an error line. Where the
/// host's report cannot be trusted the interface is told the flag's new value
/// and shows or hides the window itself. Elsewhere a visible window is
/// hidden; a hidden one is shown, focused and its input field reset, each of
/// the three whether or not the one before went well; and a window of which
/// the host could not say either is left alone, with an error line.
pub open spec fn toggle_steps(platform: Platform, probe: ProbeView, hidden: bool) -> Seq<StepView> {
    if probe is Missing {
        seq![StepView::Log("Main window not found"@)]
    } else if !platform.has_live_visibility() {
        seq![
            attempt(
                HostCall::Emit(Event::ToggleWindowVisibility(!hidden)),
                "Failed to emit toggle-window-visibility event"@,
            ),
        ]
    } else if probe is Visible {
        seq![attempt(HostCall::Hide, "Failed to hide window"@)]
    } else if probe is Hidden {
        seq![
            attempt(HostCall::Show, "Failed to show window"@),
            attempt(HostCall::SetFocus, "Failed to focus window"@),
            attempt(HostCall::Emit(Event::FocusTextInput), "Failed to emit focus event"@),
        ]
    } else {
        seq![StepView::Log("Failed to check window visibility: "@ + probe->Unknown_0)]
    }
}

/// Decides what a press of the toggle shortcut leads to.
///
/// `probe` is what the host just said of the main window. On a platform
/// whose host reports visibility reliably the flag is neither read nor
/// written.
pub fn handle_toggle_window(
    platform: Platform,
    probe: WindowProbe,
    flag: &mut WindowVisibility,
) -> (procedure: Procedure)
    ensures
        procedure@ == ProcedureView::start(toggle_steps(platform, probe@, old(flag).is_hidden())),
        final(flag).is_hidden() == flag_after_toggle(platform, probe@, old(flag).is_hidden()),
{
    let ghost wanted = toggle_steps(platform, probe@, old(flag).is_hidden());
    let mut steps: Vec<Step> = Vec::new();
    match (probe, platform.reports_live_visibility()) {
        (WindowProbe::Missing, _) => {
            steps.push(Step::log("Main window not found".to_owned()));
        },
        (_, false) => {
            let hidden = flag.toggle();
            steps.push(
                Step::call(
                    HostCall::Emit(Event::ToggleWindowVisibility(hidden)),
                    "Failed to emit toggle-window-visibility event",
                    OnFailure::LogAndContinue,
                ),
            );
        },
        (WindowProbe::Visible, true) => {
            steps.push(Step::call(HostCall::Hide, "Failed to hide window", OnFailure::LogAndContinue));
        },
        (WindowProbe::Hidden, true) => {
            steps.push(Step::call(HostCall::Show, "Failed to show window", OnFailure::LogAndContinue));
            steps.push(
                Step::call(HostCall::SetFocus, "Failed to focus window", OnFailure::LogAndContinue),
            );
            steps.push(
                Step::call(
                    HostCall::Emit(Event::FocusTextInput),
                    "Failed to emit focus event",
                    OnFailure::LogAndContinue,
                ),
            );
        },
        (WindowProbe::Unknown(error), true) => {
            let mut line = "Failed to check window visibility: ".to_owned();
            line.append(error.as_str());
            steps.push(Step::log(line));
        },
    }
    assert(steps_view(steps@) =~= wanted);
    Procedure::new(steps)
}

/// The calls that a toggle request asks of the host.
pub open spec fn toggle_calls(platform: Platform, probe: ProbeView, hidden: bool) -> Seq<HostCall> {
    if probe is Missing {
        Seq::empty()
    } else if !platform.has_live_visibility() {
        seq![HostCall::Emit(Event::ToggleWindowVisibility(!hidden))]
    } else if probe is Visible {
        seq![HostCall::Hide]
    } else if probe is Hidden {
        seq![HostCall::Show, HostCall::SetFocus, HostCall::Emit(Event::FocusTextInput)]
    } else {
        Seq::empty()
    }
}

/// Whatever the host answers, a toggle request never fails, and the host is
/// asked for each of the request's calls, in order, whether or not the one
/// before was refused. So `focus-text-input` is sent whenever a hidden window
/// is to be shown, and at no other time.
pub proof fn lemma_toggle_attempts(
    platform: Platform,
    probe: ProbeView,
    hidden: bool,
    replies: Seq<ReplyView>,
)
    ensures
        carry_out(toggle_steps(platform, probe, hidden), replies).result == Ok::<(), Seq<char>>(()),
        attempted(carry_out(toggle_steps(platform, probe, hidden), replies).effects)
            == toggle_calls(platform, probe, hidden),
        toggle_calls(platform, probe, hidden).contains(HostCall::Emit(Event::FocusTextInput)) <==> (
        platform.has_live_visibility() && probe is Hidden),
{
    let steps = toggle_steps(platform, probe, hidden);
    let calls = toggle_calls(platform, probe, hidden);
    lemma_best_effort(steps, replies);
    reveal_with_fuel(planned, 4);
    if steps.len() == 1 {
        assert(steps.drop_first() =~= Seq::empty());
    } else {
        assert(steps.drop_first().drop_first().drop_first() =~= Seq::empty());
    }
    assert(planned(steps) =~= calls);
    if platform.has_live_visibility() && probe is Hidden {
        assert(calls[2] == HostCall::Emit(Event::FocusTextInput));
    }
}

/// What a host that reports truthfully says of its window.
pub open spec fn probe_of(model: HostModel) -> ProbeView {
    if model.visible {
        ProbeView::Visible
    } else {
        ProbeView::Hidden
    }
}

/// The host after one toggle request, if it reports truthfully and accepts
/// every call.
pub open spec fn after_toggle(platform: Platform, model: HostModel, hidden: bool) -> HostModel {
    model.after(unhindered(toggle_steps(platform, probe_of(model), hidden)))
}

/// The host after `count` toggle requests in a row, with nothing else
/// touching the window in between.
pub open spec fn after_toggles(
    platform: Platform,
    model: HostModel,
    hidden: bool,
    count: nat,
) -> HostModel
    decreases count,
{
    if count == 0 {
        model
    } else {
        after_toggle(platform, after_toggles(platform, model, hidden, (count - 1) as nat), hidden)
    }
}

/// Where the host reports visibility, a toggle request that the host carries
/// out hides a shown window without sending any event, and shows a hidden
/// one, focuses it and sends `focus-text-input`, once.
pub proof fn lemma_toggle(platform: Platform, model: HostModel, hidden: bool)
    requires
        platform.has_live_visibility(),
    ensures
        after_toggle(platform, model, hidden).state() == model.state().toggled(),
        model.state() is Shown ==> after_toggle(platform, model, hidden).events == model.events,
        model.state() is Hidden ==> after_toggle(platform, model, hidden).events
            == model.events.push(Event::FocusTextInput),
        model.state() is Hidden ==> after_toggle(platform, model, hidden).focused,
{
    let effects = unhindered(toggle_steps(platform, probe_of(model), hidden));
    reveal_with_fuel(HostModel::after, 4);
    if model.visible {
        assert(effects.drop_first() =~= Seq::empty());
    } else {
        let second = effects.drop_first();
        let third = second.drop_first();
        assert(third.drop_first() =~= Seq::empty());
    }
}

/// Where the host reports visibility, the window's state alternates with
/// each toggle request: no two requests in a row leave it in the same state,
/// and it is in the state it started from after every even number of them.
pub proof fn lemma_toggles_alternate(platform: Platform, model: HostModel, hidden: bool, count: nat)
    requires
        platform.has_live_visibility(),
    ensures
        after_toggles(platform, model, hidden, count + 1).state() != after_toggles(
            platform,
            model,
            hidden,
            count,
        ).state(),
        after_toggles(platform, model, hidden, count).state() == if count % 2 == 0 {
            model.state()
        } else {
            model.state().toggled()
        },
    decreases count,
{
    if count > 0 {
        lemma_toggles_alternate(platform, model, hidden, (count - 1) as nat);
    }
    let now = after_toggles(platform, model, hidden, count);
    assert(after_toggles(platform, model, hidden, count + 1) == after_toggle(platform, now, hidden));
    lemma_toggle(platform, now, hidden);
}

/// Where the host reports visibility, the flag has no say in what a toggle
/// request leads to, and the request leaves it as it was.
pub proof fn lemma_flag_not_consulted(
    platform: Platform,
    probe: ProbeView,
    hidden: bool,
    other: bool,
)
    requires
        platform.has_live_visibility(),
    ensures
        toggle_steps(platform, probe, hidden) == toggle_steps(platform, probe, other),
        flag_after_toggle(platform, probe, hidden) == hidden,
{
}

/// Where the flag stands in for the host's report, a toggle request for a
/// window that exists sends `toggle-window-visibility` with the negation of
/// the flag's value, which is the flag's value from then on, and asks
/// nothing else of the host.
pub proof fn lemma_relayed_toggle(platform: Platform, probe: ProbeView, hidden: bool)
    requires
        !platform.has_live_visibility(),
        probe !is Missing,
    ensures
        flag_after_toggle(platform, probe, hidden) == !hidden,
        unhindered(toggle_steps(platform, probe, hidden)) == seq![
            Effect::Call(HostCall::Emit(Event::ToggleWindowVisibility(!hidden))),
        ],
{
    assert(unhindered(toggle_steps(platform, probe, hidden)) =~= seq![
        Effect::Call(HostCall::Emit(Event::ToggleWindowVisibility(!hidden))),
    ]);
}

/// The visibility flag after `count` toggle requests in a row for a window
/// that exists.
pub open spec fn flag_after_toggles(platform: Platform, hidden: bool, count: nat) -> bool
    decreases count,
{
    if count == 0 {
        hidden
    } else {
        flag_after_toggle(
            platform,
            ProbeView::Unknown(Seq::empty()),
            flag_after_toggles(platform, hidden, (count - 1) as nat),
        )
    }
}

/// Where the flag stands in for the host's report, it alternates with each
/// toggle request: `true` after an odd number of them if it was `false`
/// before, and the other way round.
pub proof fn lemma_flag_alternates(platform: Platform, hidden: bool, count: nat)
    requires
        !platform.has_live_visibility(),
    ensures
        flag_after_toggles(platform, hidden, count + 1) != flag_after_toggles(
            platform,
            hidden,
            count,
        ),
        flag_after_toggles(platform, hidden, count) == if count % 2 == 0 {
            hidden
        } else {
            !hidden
        },
    decreases count,
{
    if count > 0 {
        lemma_flag_alternates(platform, hidden, (count - 1) as nat);
    }
    assert(flag_after_toggles(platform, hidden, count + 1) == !flag_after_toggles(
        platform,
        hidden,
        count,
    ));
}

} // verus!

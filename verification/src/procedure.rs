use crate::host::HostCall;
use vstd::prelude::*;

verus! {

/// What becomes of a procedure when the host refuses one of its calls.
#[derive(Clone, Copy, Debug, PartialEq, Eq, Structural)]
pub enum OnFailure {
    /// The failure is logged and the next step is attempted all the same.
    LogAndContinue,
    /// The failure is logged and becomes the procedure's result.
    LogAndFail,
    /// The failure becomes the procedure's result without a log line.
    Fail,
}

/// One entry of a procedure.
#[derive(Debug, PartialEq, Eq)]
pub enum Step {
    /// A request to the host. Should the host refuse it with some error, the
    /// failure's message is `context`, a colon, a space and the error.
    Call { call: HostCall, context: String, on_failure: OnFailure },
    /// An error line for the log.
    Log(String),
}

/// A step with its texts as sequences of characters.
pub enum StepView {
    Call { call: HostCall, context: Seq<char>, on_failure: OnFailure },
    Log(Seq<char>),
}

impl View for Step {
    type V = StepView;

    open spec fn view(&self) -> StepView {
        match self {
            Step::Call { call, context, on_failure } => StepView::Call {
                call: *call,
                context: context@,
                on_failure: *on_failure,
            },
            Step::Log(line) => StepView::Log(line@),
        }
    }
}

impl Step {
    /// A call whose failure, if any, is reported as `context`, a colon, a
    /// space and the host's error.
    pub fn call(call: HostCall, context: &str, on_failure: OnFailure) -> (step: Step)
        ensures
            step@ == (StepView::Call { call, context: context@, on_failure }),
    {
        Step::Call { call, context: context.to_owned(), on_failure }
    }

    /// A line for the error log.
    pub fn log(line: String) -> (step: Step)
        ensures
            step@ == StepView::Log(line@),
    {
        Step::Log(line)
    }
}

/// The host's answer to a call, with the error as a sequence of characters.
pub type ReplyView = Result<(), Seq<char>>;

/// A host's answer with its error as a sequence of characters.
pub open spec fn reply_view(reply: Result<(), String>) -> ReplyView {
    match reply {
        Ok(_) => Ok(()),
        Err(error) => Err(error@),
    }
}

/// A text that may be absent, as a sequence of characters.
pub open spec fn text_view(text: Option<String>) -> Option<Seq<char>> {
    match text {
        Some(t) => Some(t@),
        None => None,
    }
}

/// A list of steps, each by its view.
pub open spec fn steps_view(steps: Seq<Step>) -> Seq<StepView> {
    Seq::new(steps.len(), |i: int| steps[i]@)
}

/// The message of a failed call: what was attempted, then what the host said.
pub open spec fn failure_text(context: Seq<char>, error: Seq<char>) -> Seq<char> {
    context + ": "@ + error
}

/// What the caller of a procedure has to do next.
#[derive(Debug, PartialEq, Eq)]
pub enum Next {
    /// Make this call and hand its result to `record`.
    Perform(HostCall),
    /// Write this error line to the log.
    Log(String),
    /// Nothing is left to do; this is the procedure's result.
    Finished(Result<(), String>),
}

/// What is due next, with its texts as sequences of characters.
pub enum NextView {
    Perform(HostCall),
    Log(Seq<char>),
    Finished(ReplyView),
}

impl View for Next {
    type V = NextView;

    open spec fn view(&self) -> NextView {
        match self {
            Next::Perform(call) => NextView::Perform(*call),
            Next::Log(line) => NextView::Log(line@),
            Next::Finished(result) => NextView::Finished(reply_view(*result)),
        }
    }
}

/// The state of a procedure as contracts see it.
pub struct ProcedureView {
    /// All steps, done or not.
    pub steps: Seq<StepView>,
    /// How many steps are done.
    pub cursor: nat,
    /// A log line that is due before anything else happens.
    pub notice: Option<Seq<char>>,
    /// The message with which the procedure failed, once it has.
    pub failure: Option<Seq<char>>,
}

impl ProcedureView {
    /// A procedure that has not begun.
    pub open spec fn start(steps: Seq<StepView>) -> ProcedureView {
        ProcedureView { steps, cursor: 0, notice: None, failure: None }
    }

    /// A procedure that failed before its first step.
    pub open spec fn rejected(message: Seq<char>, logged: bool) -> ProcedureView {
        ProcedureView {
            steps: Seq::empty(),
            cursor: 0,
            notice: if logged { Some(message) } else { None },
            failure: Some(message),
        }
    }

    /// What the caller has to do next.
    pub open spec fn upcoming(self) -> NextView {
        if self.notice is Some {
            NextView::Log(self.notice->0)
        } else if self.failure is Some {
            NextView::Finished(Err(self.failure->0))
        } else if self.cursor >= self.steps.len() {
            NextView::Finished(Ok(()))
        } else {
            match self.steps[self.cursor as int] {
                StepView::Log(line) => NextView::Log(line),
                StepView::Call { call, .. } => NextView::Perform(call),
            }
        }
    }

    /// The state once the caller has taken note of `upcoming`.
    pub open spec fn after_next(self) -> ProcedureView {
        if self.notice is Some {
            ProcedureView { notice: None, ..self }
        } else if self.upcoming() is Log {
            ProcedureView { cursor: self.cursor + 1, ..self }
        } else {
            self
        }
    }

    /// The state once the host has answered the call that is due. An answer
    /// that no call is waiting for changes nothing.
    pub open spec fn after_reply(self, reply: ReplyView) -> ProcedureView {
        if self.upcoming() is Perform {
            match reply {
                Ok(_) => ProcedureView { cursor: self.cursor + 1, ..self },
                Err(error) => {
                    let message = failure_text(self.steps[self.cursor as int]->context, error);
                    match self.steps[self.cursor as int]->on_failure {
                        OnFailure::LogAndContinue => ProcedureView {
                            cursor: self.cursor + 1,
                            notice: Some(message),
                            ..self
                        },
                        OnFailure::LogAndFail => ProcedureView {
                            notice: Some(message),
                            failure: Some(message),
                            ..self
                        },
                        OnFailure::Fail => ProcedureView { failure: Some(message), ..self },
                    }
                },
            }
        } else {
            self
        }
    }
}

/// Something that a procedure made happen outside the library.
pub enum Effect {
    /// The host was asked to do this.
    Call(HostCall),
    /// This error line was written to the log.
    Log(Seq<char>),
}

/// What a procedure came to: everything it made happen, in order, and its result.
pub struct Outcome {
    pub effects: Seq<Effect>,
    pub result: ReplyView,
}

impl Outcome {
    /// The outcome of something that happens first and `self` after it.
    pub open spec fn after(self, effect: Effect) -> Outcome {
        Outcome { effects: seq![effect] + self.effects, result: self.result }
    }
}

/// The first of `replies`; a host that was not asked to fail a call accepts it.
pub open spec fn first_reply(replies: Seq<ReplyView>) -> ReplyView {
    if replies.len() > 0 {
        replies[0]
    } else {
        Ok(())
    }
}

/// The replies that are left once the first has been given.
pub open spec fn later_replies(replies: Seq<ReplyView>) -> Seq<ReplyView> {
    if replies.len() > 0 {
        replies.drop_first()
    } else {
        replies
    }
}

/// What carrying out `steps` comes to when the host answers the calls it
/// gets, in order, with `replies`, and accepts every call beyond them.
///
/// Steps are attempted in order. A log step writes its line. A call that the
/// host accepts has no further effect here. A call that it refuses is dealt
/// with as the step's `on_failure` says; once a failure has become the
/// result, nothing more is attempted.
pub open spec fn carry_out(steps: Seq<StepView>, replies: Seq<ReplyView>) -> Outcome
    decreases steps.len(),
{
    if steps.len() == 0 {
        Outcome { effects: Seq::empty(), result: Ok(()) }
    } else {
        match steps[0] {
            StepView::Log(line) => carry_out(steps.drop_first(), replies).after(Effect::Log(line)),
            StepView::Call { call, context, on_failure } => match first_reply(replies) {
                Ok(_) => carry_out(steps.drop_first(), later_replies(replies)).after(
                    Effect::Call(call),
                ),
                Err(error) => {
                    let message = failure_text(context, error);
                    let failed = Outcome { effects: Seq::empty(), result: Err(message) };
                    match on_failure {
                        OnFailure::LogAndContinue => carry_out(
                            steps.drop_first(),
                            later_replies(replies),
                        ).after(Effect::Log(message)).after(Effect::Call(call)),
                        OnFailure::LogAndFail => failed.after(Effect::Log(message)).after(
                            Effect::Call(call),
                        ),
                        OnFailure::Fail => failed.after(Effect::Call(call)),
                    }
                },
            },
        }
    }
}

/// What a step brings about when the host accepts it.
pub open spec fn planned_effect(step: StepView) -> Effect {
    match step {
        StepView::Call { call, .. } => Effect::Call(call),
        StepView::Log(line) => Effect::Log(line),
    }
}

/// What `steps` bring about with a host that accepts every call.
pub open spec fn unhindered(steps: Seq<StepView>) -> Seq<Effect> {
    Seq::new(steps.len(), |i: int| planned_effect(steps[i]))
}

/// With a host that accepts every call, a procedure succeeds and brings
/// about each of its steps, in order.
pub proof fn lemma_unhindered(steps: Seq<StepView>)
    ensures
        carry_out(steps, Seq::empty()).result == Ok::<(), Seq<char>>(()),
        carry_out(steps, Seq::empty()).effects == unhindered(steps),
    decreases steps.len(),
{
    if steps.len() > 0 {
        lemma_unhindered(steps.drop_first());
        assert(carry_out(steps, Seq::empty()).effects =~= unhindered(steps));
    } else {
        assert(carry_out(steps, Seq::empty()).effects =~= unhindered(steps));
    }
}

/// The calls that the host was asked to make, in order.
pub open spec fn attempted(effects: Seq<Effect>) -> Seq<HostCall>
    decreases effects.len(),
{
    if effects.len() == 0 {
        Seq::empty()
    } else {
        match effects[0] {
            Effect::Call(call) => seq![call] + attempted(effects.drop_first()),
            Effect::Log(_) => attempted(effects.drop_first()),
        }
    }
}

/// The calls that `steps` hold, in order.
pub open spec fn planned(steps: Seq<StepView>) -> Seq<HostCall>
    decreases steps.len(),
{
    if steps.len() == 0 {
        Seq::empty()
    } else {
        match steps[0] {
            StepView::Call { call, .. } => seq![call] + planned(steps.drop_first()),
            StepView::Log(_) => planned(steps.drop_first()),
        }
    }
}

/// Whether no call among `steps` can fail the procedure or keep a later
/// step from being attempted.
pub open spec fn best_effort(steps: Seq<StepView>) -> bool {
    forall|i: int|
        0 <= i < steps.len() && (#[trigger] steps[i]) is Call ==> steps[i]->on_failure
            == OnFailure::LogAndContinue
}

/// What happens first is attempted first.
pub proof fn lemma_attempted_after(outcome: Outcome, effect: Effect)
    ensures
        attempted(outcome.after(effect).effects) == match effect {
            Effect::Call(call) => seq![call] + attempted(outcome.effects),
            Effect::Log(_) => attempted(outcome.effects),
        },
{
    let all = outcome.after(effect).effects;
    assert(all[0] == effect);
    assert(all.drop_first() =~= outcome.effects);
}

/// A procedure made of best-effort steps succeeds whatever the host
/// answers, and asks the host for every one of its calls, in order.
pub proof fn lemma_best_effort(steps: Seq<StepView>, replies: Seq<ReplyView>)
    requires
        best_effort(steps),
    ensures
        carry_out(steps, replies).result == Ok::<(), Seq<char>>(()),
        attempted(carry_out(steps, replies).effects) == planned(steps),
    decreases steps.len(),
{
    if steps.len() > 0 {
        let rest = steps.drop_first();
        assert(best_effort(rest)) by {
            assert forall|i: int| 0 <= i < rest.len() && (#[trigger] rest[i]) is Call implies rest[i]->on_failure
                == OnFailure::LogAndContinue by {
                assert(rest[i] == steps[i + 1]);
            }
        }
        assert(steps[0] is Call ==> steps[0]->on_failure == OnFailure::LogAndContinue);
        match steps[0] {
            StepView::Log(line) => {
                lemma_best_effort(rest, replies);
                lemma_attempted_after(carry_out(rest, replies), Effect::Log(line));
            },
            StepView::Call { call, context, on_failure } => {
                let later = later_replies(replies);
                lemma_best_effort(rest, later);
                match first_reply(replies) {
                    Ok(_) => {
                        lemma_attempted_after(carry_out(rest, later), Effect::Call(call));
                    },
                    Err(error) => {
                        let message = failure_text(context, error);
                        let logged = carry_out(rest, later).after(Effect::Log(message));
                        lemma_attempted_after(carry_out(rest, later), Effect::Log(message));
                        lemma_attempted_after(logged, Effect::Call(call));
                    },
                }
            },
        }
    }
}

impl ProcedureView {
    /// A bound on how many more times `upcoming` can name something to do.
    pub open spec fn budget(self) -> nat {
        let steps_left: nat = if self.cursor < self.steps.len() {
            (self.steps.len() - self.cursor) as nat
        } else {
            0
        };
        let notice_due: nat = if self.notice is Some { 1 } else { 0 };
        let may_fail: nat = if self.failure is None { 2 } else { 0 };
        3 * steps_left + notice_due + may_fail
    }

    /// What a caller brings about who does what `upcoming` names, each time,
    /// until the procedure has finished, with a host that answers as `replies` say.
    pub open spec fn play(self, replies: Seq<ReplyView>) -> Outcome
        decreases self.budget(),
    {
        match self.upcoming() {
            NextView::Finished(result) => Outcome { effects: Seq::empty(), result },
            NextView::Log(line) => self.after_next().play(replies).after(Effect::Log(line)),
            NextView::Perform(call) => self.after_reply(first_reply(replies)).play(
                later_replies(replies),
            ).after(Effect::Call(call)),
        }
    }

    /// The steps that have not been attempted.
    pub open spec fn rest(self) -> Seq<StepView> {
        self.steps.skip(self.cursor as int)
    }
}

/// Following `next` and `record` from any step onwards brings about what
/// `carry_out` says of the steps that are left.
pub proof fn lemma_play_from(state: ProcedureView, replies: Seq<ReplyView>)
    requires
        state.notice is None,
        state.failure is None,
        state.cursor <= state.steps.len(),
    ensures
        state.play(replies) == carry_out(state.rest(), replies),
    decreases state.steps.len() - state.cursor,
{
    reveal_with_fuel(ProcedureView::play, 4);
    if state.cursor < state.steps.len() {
        let rest = state.rest();
        assert(rest[0] == state.steps[state.cursor as int]);
        let onward = ProcedureView { cursor: state.cursor + 1, ..state };
        assert(onward.rest() =~= rest.drop_first());
        match state.steps[state.cursor as int] {
            StepView::Log(_) => {
                lemma_play_from(onward, replies);
            },
            StepView::Call { .. } => {
                lemma_play_from(onward, later_replies(replies));
            },
        }
    }
}

/// A caller who follows `next` and `record` from the start carries the steps
/// out: same calls, same log lines, same order, same result.
pub proof fn lemma_play_carries_out(steps: Seq<StepView>, replies: Seq<ReplyView>)
    ensures
        ProcedureView::start(steps).play(replies) == carry_out(steps, replies),
{
    let state = ProcedureView::start(steps);
    assert(state.rest() =~= steps);
    lemma_play_from(state, replies);
}

/// A procedure that was rejected asks nothing of the host: it writes its
/// message to the log if it was to be logged, and fails with it.
pub proof fn lemma_play_rejected(message: Seq<char>, logged: bool, replies: Seq<ReplyView>)
    ensures
        ProcedureView::rejected(message, logged).play(replies).result == Err::<(), Seq<char>>(
            message,
        ),
        ProcedureView::rejected(message, logged).play(replies).effects == if logged {
            seq![Effect::Log(message)]
        } else {
            Seq::empty()
        },
{
    reveal_with_fuel(ProcedureView::play, 3);
    let state = ProcedureView::rejected(message, logged);
    if logged {
        assert(seq![Effect::Log(message)] + Seq::<Effect>::empty() =~= seq![Effect::Log(message)]);
    }
}

/// A list of host calls and log lines, carried out one at a time by whoever
/// can reach the host: ask `next` what is due, do it, and `record` how a
/// call went.
pub struct Procedure {
    steps: Vec<Step>,
    cursor: usize,
    notice: Option<String>,
    failure: Option<String>,
}

impl View for Procedure {
    type V = ProcedureView;

    closed spec fn view(&self) -> ProcedureView {
        ProcedureView {
            steps: steps_view(self.steps@),
            cursor: self.cursor as nat,
            notice: text_view(self.notice),
            failure: text_view(self.failure),
        }
    }
}

impl Procedure {
    /// A procedure of the given steps that has not begun.
    pub fn new(steps: Vec<Step>) -> (procedure: Procedure)
        ensures
            procedure@ == ProcedureView::start(steps_view(steps@)),
    {
        Procedure { steps, cursor: 0, notice: None, failure: None }
    }

    /// A procedure that asks nothing of the host and fails with `message`,
    /// which is also written to the log if `logged` says so.
    pub fn rejected(message: String, logged: bool) -> (procedure: Procedure)
        ensures
            procedure@ == ProcedureView::rejected(message@, logged),
    {
        let notice = if logged { Some(message.clone()) } else { None };
        let procedure = Procedure { steps: Vec::new(), cursor: 0, notice, failure: Some(message) };
        assert(steps_view(procedure.steps@) =~= Seq::empty());
        procedure
    }

    /// All steps of the procedure, in the order in which they are attempted.
    pub fn steps(&self) -> (steps: &Vec<Step>)
        ensures
            steps_view(steps@) == self@.steps,
    {
        &self.steps
    }

    /// What is due now. A log line is handed out once; a call is handed out
    /// until its result has been recorded.
    pub fn next(&mut self) -> (next: Next)
        ensures
            next@ == old(self)@.upcoming(),
            final(self)@ == old(self)@.after_next(),
    {
        if self.notice.is_some() {
            let line = self.notice.take().unwrap();
            return Next::Log(line);
        }
        match &self.failure {
            Some(message) => {
                return Next::Finished(Err(message.clone()));
            },
            None => {},
        }
        if self.cursor >= self.steps.len() {
            return Next::Finished(Ok(()));
        }
        match &self.steps[self.cursor] {
            Step::Call { call, .. } => Next::Perform(*call),
            Step::Log(line) => {
                let line = line.clone();
                self.cursor = self.cursor + 1;
                Next::Log(line)
            },
        }
    }

    /// Takes the host's answer to the call that `next` handed out.
    pub fn record(&mut self, reply: Result<(), String>)
        ensures
            final(self)@ == old(self)@.after_reply(reply_view(reply)),
    {
        if self.notice.is_some() || self.failure.is_some() || self.cursor >= self.steps.len() {
            return ;
        }
        match &self.steps[self.cursor] {
            Step::Log(_) => {},
            Step::Call { context, on_failure, .. } => {
                match reply {
                    Ok(_) => {
                        self.cursor = self.cursor + 1;
                    },
                    Err(error) => {
                        let mut message = context.clone();
                        message.append(": ");
                        message.append(error.as_str());
                        match on_failure {
                            OnFailure::LogAndContinue => {
                                self.cursor = self.cursor + 1;
                                self.notice = Some(message);
                            },
                            OnFailure::LogAndFail => {
                                self.notice = Some(message.clone());
                                self.failure = Some(message);
                            },
                            OnFailure::Fail => {
                                self.failure = Some(message);
                            },
                        }
                    },
                }
            },
        }
    }
}

} // verus!

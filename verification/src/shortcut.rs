use crate::host::HostCall;
use crate::platform::Platform;
use crate::procedure::{
    carry_out, first_reply, later_replies, steps_view, Effect, OnFailure, Procedure,
    ProcedureView, ReplyView, Step, StepView,
};
use global_hotkey::hotkey::HotKey;
use vstd::prelude::*;
use vstd::string::*;

verus! {

/// A key combination as `global_hotkey` holds it. The library hands it on
/// and never looks inside.
#[verifier::external_type_specification]
#[verifier::external_body]
pub struct ExHotKey(global_hotkey::hotkey::HotKey);

/// Why `global_hotkey` will not read `text` as a key combination: the
/// message of the error that `HotKey::from_str` returns for it, as the
/// error's `Display` impl renders it, or `None` where the text is a key
/// combination. Both are decided by the text alone.
pub uninterp spec fn hotkey_parse_failure(text: Seq<char>) -> Option<Seq<char>>;

/// Whether `message` opens as one of the three messages of the parser does.
pub open spec fn has_parser_wording(message: Seq<char>) -> bool {
    ||| "Couldn't recognize \""@.is_prefix_of(message)
    ||| "Found empty token while parsing hotkey: "@.is_prefix_of(message)
    ||| "Invalid hotkey format: \""@.is_prefix_of(message)
}

/// Reads `text` as a key combination with `HotKey::from_str` of
/// `global_hotkey`, and renders the error, if there is one, with the
/// `Display` impl of its `HotKeyParseError`.
///
/// Claimed of it: whether the text is read, and the message if it is not,
/// are what `hotkey_parse_failure` names; and the message opens with one of
/// the three wordings that the error's variants have. Nothing is claimed of
/// the combination that a text is read as.
#[verifier::external_body]
fn parse_hotkey(text: &str) -> (parsed: Result<HotKey, String>)
    ensures
        parsed is Ok <==> hotkey_parse_failure(text@) is None,
        parsed matches Err(message) ==> hotkey_parse_failure(text@) == Some(message@)
            && has_parser_wording(message@),
{
    match text.parse::<HotKey>() {
        Ok(hotkey) => Ok(hotkey),
        Err(error) => Err(error.to_string()),
    }
}

/// Why the toggle shortcut could not be set up.
#[derive(Debug, PartialEq, Eq)]
pub enum ShortcutSetupError {
    /// The shortcut's text is not a key combination. Holds the parser's message.
    Parse(String),
    /// The host would not attach the listener, or the operating system would
    /// not have the combination. Holds the failure's message.
    Registration(String),
}

impl ShortcutSetupError {
    /// The message that the error holds.
    pub open spec fn message_text(&self) -> Seq<char> {
        match self {
            ShortcutSetupError::Parse(message) => message@,
            ShortcutSetupError::Registration(message) => message@,
        }
    }

    /// The error as a line of text.
    pub fn message(&self) -> (message: String)
        ensures
            message@ == self.message_text(),
    {
        match self {
            ShortcutSetupError::Parse(message) => message.clone(),
            ShortcutSetupError::Registration(message) => message.clone(),
        }
    }
}

/// A key combination together with the text it was read from. It is made
/// once, when the application starts, and never changed.
pub struct ShortcutBinding {
    text: String,
    hotkey: HotKey,
}

impl ShortcutBinding {
    /// The text that the combination was read from.
    pub closed spec fn spec_text(&self) -> Seq<char> {
        self.text@
    }

    /// The combination that the parser made of the text.
    pub closed spec fn spec_hotkey(&self) -> HotKey {
        self.hotkey
    }

    /// The text that the combination was read from.
    pub fn text(&self) -> (text: &str)
        ensures
            text@ == self.spec_text(),
    {
        self.text.as_str()
    }

    /// The combination, for the host to register.
    pub fn hotkey(&self) -> (hotkey: &HotKey)
        ensures
            *hotkey == self.spec_hotkey(),
    {
        &self.hotkey
    }
}

/// Makes a binding, or a setup error, of what the parser said of `text`. The
/// parser's message is kept as it is.
pub fn binding_from(text: &str, parsed: Result<HotKey, String>) -> (bound: Result<
    ShortcutBinding,
    ShortcutSetupError,
>)
    ensures
        parsed matches Ok(hotkey) ==> bound matches Ok(binding) && binding.spec_hotkey() == hotkey
            && binding.spec_text() == text@,
        parsed matches Err(message) ==> bound matches Err(ShortcutSetupError::Parse(kept))
            && kept@ == message@,
{
    match parsed {
        Ok(hotkey) => Ok(ShortcutBinding { text: text.to_owned(), hotkey }),
        Err(message) => Err(ShortcutSetupError::Parse(message)),
    }
}

/// What becomes of a text that is to be a shortcut: a binding if the parser
/// reads it as a key combination, and else a `Parse` error with the parser's
/// message.
pub open spec fn bound_as(
    text: Seq<char>,
    bound: Result<ShortcutBinding, ShortcutSetupError>,
) -> bool {
    match hotkey_parse_failure(text) {
        None => bound matches Ok(binding) && binding.spec_text() == text,
        Some(message) => bound matches Err(ShortcutSetupError::Parse(kept)) && kept@ == message
            && has_parser_wording(message),
    }
}

/// Reads `text` as a key combination.
pub fn bind_shortcut(text: &str) -> (bound: Result<ShortcutBinding, ShortcutSetupError>)
    ensures
        bound is Ok <==> hotkey_parse_failure(text@) is None,
        bound_as(text@, bound),
{
    binding_from(text, parse_hotkey(text))
}

/// A step of the registration. Its refusal ends the setup without a log
/// line of its own: whoever started the setup logs the failure.
pub open spec fn registration_step(call: HostCall) -> StepView {
    StepView::Call {
        call,
        context: "Failed to register toggle shortcut"@,
        on_failure: OnFailure::Fail,
    }
}

/// How a shortcut goes live: the listener is attached first, and only then
/// is the combination registered with the operating system, so that no press
/// arrives without a handler. A refusal of either ends the procedure.
pub open spec fn registration_steps() -> Seq<StepView> {
    seq![
        registration_step(HostCall::AttachShortcutListener),
        registration_step(HostCall::RegisterShortcut),
    ]
}

/// The procedure that makes a bound shortcut live.
pub fn registration() -> (procedure: Procedure)
    ensures
        procedure@ == ProcedureView::start(registration_steps()),
{
    let mut steps: Vec<Step> = Vec::new();
    steps.push(
        Step::call(
            HostCall::AttachShortcutListener,
            "Failed to register toggle shortcut",
            OnFailure::Fail,
        ),
    );
    steps.push(
        Step::call(HostCall::RegisterShortcut, "Failed to register toggle shortcut", OnFailure::Fail),
    );
    assert(steps_view(steps@) =~= registration_steps());
    Procedure::new(steps)
}

/// Prepares the toggle shortcut: reads the platform's default combination
/// and, if the parser has it, hands back the binding with the procedure that
/// makes it live. If the parser will not have it, the error is a `Parse`
/// error with the parser's message, and there is no procedure: nothing is
/// attached and nothing registered.
pub fn setup_global_shortcuts(platform: Platform) -> (setup: Result<
    (ShortcutBinding, Procedure),
    ShortcutSetupError,
>)
    ensures
        setup is Ok <==> hotkey_parse_failure(platform.default_shortcut_text()) is None,
        setup matches Ok(ready) ==> ready.0.spec_text() == platform.default_shortcut_text()
            && ready.1@ == ProcedureView::start(registration_steps()),
        setup matches Err(error) ==> error matches ShortcutSetupError::Parse(message) && Some(
            message@,
        ) == hotkey_parse_failure(platform.default_shortcut_text()) && has_parser_wording(
            message@,
        ),
{
    match bind_shortcut(platform.default_toggle_shortcut()) {
        Ok(binding) => Ok((binding, registration())),
        Err(error) => Err(error),
    }
}

/// The setup's result, given how the registration procedure ended: its
/// failure is a `Registration` error with the same message.
pub fn conclude_setup(registration: Result<(), String>) -> (concluded: Result<
    (),
    ShortcutSetupError,
>)
    ensures
        registration is Ok ==> concluded is Ok,
        registration matches Err(message) ==> concluded matches Err(
            ShortcutSetupError::Registration(text),
        ) && text@ == message@,
{
    match registration {
        Ok(_) => Ok(()),
        Err(message) => Err(ShortcutSetupError::Registration(message)),
    }
}

/// The error line for a shortcut that could not be set up. The application
/// goes on without the shortcut.
pub fn setup_failure_line(error: &ShortcutSetupError) -> (line: String)
    ensures
        line@ == "Failed to setup global shortcuts: "@ + error.message_text(),
{
    let mut line = "Failed to setup global shortcuts: ".to_owned();
    let message = error.message();
    line.append(message.as_str());
    line
}

/// What a key of the shortcut just did.
#[derive(Clone, Copy, Debug, PartialEq, Eq, Structural)]
pub enum KeyState {
    Pressed,
    Released,
}

/// Whether a key event of the shortcut is a toggle request: a press is, a
/// release is not.
pub fn requests_toggle(state: KeyState) -> (toggle: bool)
    ensures
        toggle == (state is Pressed),
{
    match state {
        KeyState::Pressed => true,
        KeyState::Released => false,
    }
}

/// The opening of every message with which the registration fails.
pub open spec fn registration_opening() -> Seq<char> {
    "Failed to register toggle shortcut: "@
}

/// A text that the parser would not have and a refusal by the host or the
/// operating system never give the same error.
pub proof fn lemma_failures_differ(parse: ShortcutSetupError, registration: ShortcutSetupError)
    requires
        parse is Parse,
        registration is Registration,
    ensures
        parse != registration,
{
}

/// Whatever the host answers, a registration that fails says so in a
/// message that opens with `registration_opening`.
pub proof fn lemma_registration_message(replies: Seq<ReplyView>)
    ensures
        carry_out(registration_steps(), replies).result matches Err(message)
            ==> registration_opening().is_prefix_of(message),
{
    reveal_with_fuel(carry_out, 3);
    reveal_strlit("Failed to register toggle shortcut: ");
    reveal_strlit("Failed to register toggle shortcut");
    reveal_strlit(": ");
    let steps = registration_steps();
    assert(steps.drop_first().drop_first() =~= Seq::empty());
    let opening = registration_opening();
    assert(opening =~= "Failed to register toggle shortcut"@ + ": "@);
    let result = carry_out(steps, replies).result;
    if let Err(message) = result {
        assert(opening =~= message.subrange(0, opening.len() as int));
    }
}

/// No message of the parser opens as the messages of a failed registration
/// do, so the two failures can be told apart by their messages alone.
pub proof fn lemma_failure_messages_differ(parse: Seq<char>, registration: Seq<char>)
    requires
        has_parser_wording(parse),
        registration_opening().is_prefix_of(registration),
    ensures
        !registration_opening().is_prefix_of(parse),
        parse != registration,
{
    reveal_strlit("Failed to register toggle shortcut: ");
    reveal_strlit("Couldn't recognize \"");
    reveal_strlit("Found empty token while parsing hotkey: ");
    reveal_strlit("Invalid hotkey format: \"");
    let opening = registration_opening();
    if opening.is_prefix_of(parse) {
        assert(parse.subrange(0, opening.len() as int)[0] == parse[0]);
        assert(parse.subrange(0, opening.len() as int)[1] == parse[1]);
        assert(opening[0] == 'F' && opening[1] == 'a');
        if "Couldn't recognize \""@.is_prefix_of(parse) {
            let own = "Couldn't recognize \""@;
            assert(parse.subrange(0, own.len() as int)[0] == parse[0]);
            assert(own[0] == 'C');
        } else if "Found empty token while parsing hotkey: "@.is_prefix_of(parse) {
            let own = "Found empty token while parsing hotkey: "@;
            assert(parse.subrange(0, own.len() as int)[1] == parse[1]);
            assert(own[1] == 'o');
        } else {
            let own = "Invalid hotkey format: \""@;
            assert(parse.subrange(0, own.len() as int)[0] == parse[0]);
            assert(own[0] == 'I');
        }
    }
}

/// Whatever the host answers, the combination is registered only after the
/// listener was attached, and the setup fails with the message of the first
/// refusal.
pub proof fn lemma_listener_first(replies: Seq<ReplyView>)
    ensures
        ({
            let outcome = carry_out(registration_steps(), replies);
            let first = first_reply(replies);
            let second = first_reply(later_replies(replies));
            &&& outcome.effects[0] == Effect::Call(HostCall::AttachShortcutListener)
            &&& first is Err ==> outcome.effects.len() == 1 && outcome.result is Err
            &&& first is Ok ==> outcome.effects.len() == 2 && outcome.effects[1] == Effect::Call(
                HostCall::RegisterShortcut,
            ) && (outcome.result is Ok <==> second is Ok)
        }),
{
    reveal_with_fuel(carry_out, 3);
    let steps = registration_steps();
    assert(steps.drop_first().drop_first() =~= Seq::empty());
}

} // verus!

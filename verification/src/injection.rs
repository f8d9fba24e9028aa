//! The text injector: how a text becomes synthetic input.
//!
//! The injector plans and its caller acts.  An [`Injection`] always has one
//! command pending; the caller carries it out and reports what happened, and
//! the injection moves on until the pending command is `Finish`.  A batch of
//! input steps is carried out in order and ends at the first step that fails.

use vstd::prelude::*;
use vstd::string::StringExecFns;
use crate::text::chars_of;
use crate::text::joined;

verus! {

/// Wait before the first keystroke, so that the target window is in front.
pub const SETTLE_DELAY_MS: u64 = 200;

/// Wait before the paste chord.
pub const PASTE_FOCUS_DELAY_MS: u64 = 300;

/// Wait between the keys of the paste chord.
pub const CHORD_DELAY_MS: u64 = 50;

/// Wait after the paste chord, while the target takes the text in.
pub const PASTE_COMPLETION_DELAY_MS: u64 = 100;

/// Wait after each character typed on its own.
pub const TYPING_DELAY_MS: u64 = 6;

/// Wait after each character typed when the paste chord failed.
pub const FALLBACK_TYPING_DELAY_MS: u64 = 10;

/// Wait before and after a text typed in one go.
pub const WHOLE_TEXT_DELAY_MS: u64 = 50;

/// Why a text was not injected.
#[derive(Debug, PartialEq, Eq)]
pub enum InjectionError {
    /// `inject_text` was called before `init_text_injector` succeeded.
    NotInitialized,
    /// There was nothing to inject.
    EmptyInput,
    /// The clipboard or the synthetic-input backend failed.
    InjectionFailed(String),
}

/// An injection error, as plain values.
pub enum InjectionFailure {
    NotInitialized,
    EmptyInput,
    InjectionFailed(Seq<char>),
}

impl View for InjectionError {
    type V = InjectionFailure;

    open spec fn view(&self) -> InjectionFailure {
        match self {
            InjectionError::NotInitialized => InjectionFailure::NotInitialized,
            InjectionError::EmptyInput => InjectionFailure::EmptyInput,
            InjectionError::InjectionFailed(reason) => InjectionFailure::InjectionFailed(reason@),
        }
    }
}

/// The text shown for an injection error.
pub open spec fn failure_message(failure: InjectionFailure) -> Seq<char> {
    match failure {
        InjectionFailure::NotInitialized =>
            "Text injector not initialized. Please restart the application."@,
        InjectionFailure::EmptyInput => "Cannot inject empty text"@,
        InjectionFailure::InjectionFailed(reason) => reason,
    }
}

impl InjectionError {
    /// The text shown for this error.
    pub fn message(&self) -> (text: String)
        ensures
            text@ == failure_message(self@),
    {
        match self {
            InjectionError::NotInitialized => String::from_str(
                "Text injector not initialized. Please restart the application.",
            ),
            InjectionError::EmptyInput => String::from_str("Cannot inject empty text"),
            InjectionError::InjectionFailed(reason) => reason.clone(),
        }
    }

    /// A copy of this error.
    pub fn duplicate(&self) -> (copy: Self)
        ensures
            copy@ == self@,
    {
        match self {
            InjectionError::NotInitialized => InjectionError::NotInitialized,
            InjectionError::EmptyInput => InjectionError::EmptyInput,
            InjectionError::InjectionFailed(reason) => InjectionError::InjectionFailed(
                reason.clone(),
            ),
        }
    }
}

/// A key of the synthetic keyboard.
#[derive(Clone, Copy, Debug, PartialEq, Eq)]
pub enum Key {
    Return,
    Tab,
    Control,
    Meta,
    Unicode(char),
}

/// What happens to a key.
#[derive(Clone, Copy, Debug, PartialEq, Eq)]
pub enum Direction {
    Press,
    Release,
    Click,
}

/// One step of synthetic input.
#[derive(Clone, Copy, Debug, PartialEq, Eq)]
pub enum InputStep {
    /// Wait.
    Sleep { ms: u64 },
    /// Press, release or click a key.
    Key { key: Key, direction: Direction },
    /// Type one character as text.
    Char(char),
}

/// The key that, held down, turns `v` into "paste".
#[derive(Clone, Copy, Debug, PartialEq, Eq)]
pub enum PasteModifier {
    Control,
    Meta,
}

/// How a text reaches the focused window.
#[derive(Clone, Copy, Debug, PartialEq, Eq)]
pub enum Strategy {
    /// Put the text on the clipboard, send the paste chord, put back what
    /// the clipboard held; type character by character if the chord fails.
    ClipboardPaste { modifier: PasteModifier },
    /// Type character by character, without touching the clipboard.
    CharByChar,
    /// Hand the whole text to the backend in one call.
    WholeText,
}

/// The key of a paste modifier.
pub open spec fn modifier_key(modifier: PasteModifier) -> Key {
    match modifier {
        PasteModifier::Control => Key::Control,
        PasteModifier::Meta => Key::Meta,
    }
}

/// How one character is typed: a line feed as Return, a tab as Tab, anything
/// else as itself.
pub open spec fn typed_char(c: char) -> InputStep {
    if c == '\n' {
        InputStep::Key { key: Key::Return, direction: Direction::Click }
    } else if c == '\t' {
        InputStep::Key { key: Key::Tab, direction: Direction::Click }
    } else {
        InputStep::Char(c)
    }
}

/// Typing a text character by character: each character, then a wait.
pub open spec fn typing_steps(text: Seq<char>, delay_ms: u64) -> Seq<InputStep> {
    Seq::new(
        2 * text.len(),
        |i: int|
            if i % 2 == 0 {
                typed_char(text[i / 2])
            } else {
                InputStep::Sleep { ms: delay_ms }
            },
    )
}

/// The paste chord: wait for the focus, hold the modifier, click `v`, let
/// the modifier go, wait for the paste to land.
pub open spec fn chord_steps(modifier: PasteModifier) -> Seq<InputStep> {
    seq![
        InputStep::Sleep { ms: PASTE_FOCUS_DELAY_MS },
        InputStep::Key { key: modifier_key(modifier), direction: Direction::Press },
        InputStep::Sleep { ms: CHORD_DELAY_MS },
        InputStep::Key { key: Key::Unicode('v'), direction: Direction::Click },
        InputStep::Sleep { ms: CHORD_DELAY_MS },
        InputStep::Key { key: modifier_key(modifier), direction: Direction::Release },
        InputStep::Sleep { ms: PASTE_COMPLETION_DELAY_MS },
    ]
}

/// The waits before anything else happens.
pub open spec fn settle_steps(strategy: Strategy) -> Seq<InputStep> {
    if strategy is WholeText {
        seq![
            InputStep::Sleep { ms: SETTLE_DELAY_MS },
            InputStep::Sleep { ms: WHOLE_TEXT_DELAY_MS },
        ]
    } else {
        seq![InputStep::Sleep { ms: SETTLE_DELAY_MS }]
    }
}

/// The wait after each character, by strategy.
pub open spec fn typing_delay(strategy: Strategy) -> u64 {
    if strategy is ClipboardPaste {
        FALLBACK_TYPING_DELAY_MS
    } else {
        TYPING_DELAY_MS
    }
}

/// The text of the error for a typing batch that failed at `step`.
pub open spec fn typing_failure(
    strategy: Strategy,
    text: Seq<char>,
    step: int,
    reason: Seq<char>,
) -> Seq<char> {
    if 0 <= step / 2 < text.len() {
        let c = text[step / 2];
        if c == '\n' {
            "Failed to inject newline: "@ + reason
        } else if c == '\t' {
            "Failed to inject tab: "@ + reason
        } else if strategy is ClipboardPaste {
            "Failed to inject character '"@.push(c) + "': "@ + reason
        } else {
            "Failed to inject char '"@.push(c) + "': "@ + reason
        }
    } else {
        "Failed to inject text: "@ + reason
    }
}

/// What the caller is to do next.
#[derive(Debug, PartialEq, Eq)]
pub enum InjectionCommand {
    /// Carry out these steps in order, up to the first that fails.
    Input(Vec<InputStep>),
    /// Hand this text to the backend in one call.
    TypeText(String),
    /// Open the clipboard and read its text.
    ReadClipboard,
    /// Put this text on the clipboard.
    WriteClipboard(String),
    /// The injection is over, with this result.
    Finish(Result<(), InjectionError>),
}

/// A command, as plain values.
pub enum Command {
    Input(Seq<InputStep>),
    TypeText(Seq<char>),
    ReadClipboard,
    WriteClipboard(Seq<char>),
    Finish(Option<InjectionFailure>),
}

impl View for InjectionCommand {
    type V = Command;

    open spec fn view(&self) -> Command {
        match self {
            InjectionCommand::Input(steps) => Command::Input(steps@),
            InjectionCommand::TypeText(text) => Command::TypeText(text@),
            InjectionCommand::ReadClipboard => Command::ReadClipboard,
            InjectionCommand::WriteClipboard(text) => Command::WriteClipboard(text@),
            InjectionCommand::Finish(result) => Command::Finish(
                match result {
                    Ok(_) => None,
                    Err(error) => Some(error@),
                },
            ),
        }
    }
}

/// What came of the pending command.
#[derive(Debug, PartialEq, Eq)]
pub enum InjectionEvent {
    /// It was carried out in full.
    Done,
    /// It failed, a batch at the step with this index, for this reason.
    Failed { step: usize, reason: String },
    /// The clipboard was opened; it held this text, or nothing that reads
    /// as text.
    Clipboard(Option<String>),
    /// The clipboard could not be opened.
    ClipboardUnavailable(String),
}

/// An event, as plain values.
pub enum Event {
    Done,
    Failed { step: int, reason: Seq<char> },
    Clipboard(Option<Seq<char>>),
    ClipboardUnavailable(Seq<char>),
}

impl View for InjectionEvent {
    type V = Event;

    open spec fn view(&self) -> Event {
        match self {
            InjectionEvent::Done => Event::Done,
            InjectionEvent::Failed { step, reason } => Event::Failed {
                step: *step as int,
                reason: reason@,
            },
            InjectionEvent::Clipboard(contents) => Event::Clipboard(
                match contents {
                    Some(text) => Some(text@),
                    None => None,
                },
            ),
            InjectionEvent::ClipboardUnavailable(reason) => Event::ClipboardUnavailable(reason@),
        }
    }
}

/// How far an injection has come.
#[derive(Clone, Copy, Debug, PartialEq, Eq, Structural)]
pub enum Phase {
    /// Waiting for the target window to settle.
    Settling,
    /// Reading the clipboard, to save what it holds.
    Reading,
    /// Putting the text on the clipboard.
    Placing,
    /// Sending the paste chord.
    Pasting,
    /// Typing character by character.
    Typing,
    /// Typing the whole text in one call.
    TypingWhole,
    /// Waiting after the whole text was typed.
    Trailing,
    /// Putting back what the clipboard held.
    Restoring,
    /// Over.
    Done,
}

/// What an injection holds, as plain values.
pub struct InjectionModel {
    pub strategy: Strategy,
    pub phase: Phase,
    /// The text to inject.
    pub text: Seq<char>,
    /// What the clipboard held before the text was placed on it.
    pub saved: Option<Seq<char>>,
    /// Why the injection failed, if it did.
    pub failure: Option<InjectionFailure>,
    /// The clipboard's contents could not be put back.
    pub restore_failed: bool,
}

/// An injection that has not begun.
pub open spec fn starting(text: Seq<char>, strategy: Strategy) -> InjectionModel {
    InjectionModel {
        strategy,
        phase: Phase::Settling,
        text,
        saved: None,
        failure: None,
        restore_failed: false,
    }
}

/// The command that an injection has pending.
pub open spec fn pending(m: InjectionModel) -> Command {
    match m.phase {
        Phase::Settling => Command::Input(settle_steps(m.strategy)),
        Phase::Reading => Command::ReadClipboard,
        Phase::Placing => Command::WriteClipboard(m.text),
        Phase::Pasting => Command::Input(
            chord_steps(
                match m.strategy {
                    Strategy::ClipboardPaste { modifier } => modifier,
                    _ => PasteModifier::Control,
                },
            ),
        ),
        Phase::Typing => Command::Input(typing_steps(m.text, typing_delay(m.strategy))),
        Phase::TypingWhole => Command::TypeText(m.text),
        Phase::Trailing => Command::Input(seq![InputStep::Sleep { ms: WHOLE_TEXT_DELAY_MS }]),
        Phase::Restoring => Command::WriteClipboard(
            match m.saved {
                Some(contents) => contents,
                None => Seq::empty(),
            },
        ),
        Phase::Done => Command::Finish(m.failure),
    }
}

/// Whether an event is an answer to a command: clipboard contents answer a
/// read, done or failed answer anything else that is carried out, and
/// nothing answers `Finish`.
pub open spec fn answers(command: Command, event: Event) -> bool {
    match command {
        Command::ReadClipboard => event is Clipboard || event is ClipboardUnavailable,
        Command::Finish(_) => false,
        _ => event is Done || event is Failed,
    }
}

/// Where an injection goes once the text has been dealt with: to putting the
/// clipboard back if its contents were saved, to the end otherwise.
pub open spec fn wind_down(m: InjectionModel) -> Phase {
    if m.saved is Some {
        Phase::Restoring
    } else {
        Phase::Done
    }
}

/// An injection that failed for `reason` and goes on to `phase`.
pub open spec fn failed(m: InjectionModel, reason: Seq<char>, phase: Phase) -> InjectionModel {
    InjectionModel { failure: Some(InjectionFailure::InjectionFailed(reason)), phase, ..m }
}

/// The injection after an event.  An event that does not answer the pending
/// command changes nothing.
pub open spec fn after(m: InjectionModel, event: Event) -> InjectionModel {
    if !answers(pending(m), event) {
        m
    } else {
        match m.phase {
            Phase::Settling => match event {
                Event::Failed { reason, .. } => failed(m, reason, Phase::Done),
                _ => InjectionModel {
                    phase: match m.strategy {
                        Strategy::ClipboardPaste { .. } => Phase::Reading,
                        Strategy::CharByChar => Phase::Typing,
                        Strategy::WholeText => Phase::TypingWhole,
                    },
                    ..m
                },
            },
            Phase::Reading => match event {
                Event::Clipboard(contents) => InjectionModel {
                    saved: contents,
                    phase: Phase::Placing,
                    ..m
                },
                Event::ClipboardUnavailable(reason) => failed(
                    m,
                    "Failed to initialize clipboard: "@ + reason,
                    Phase::Done,
                ),
                _ => m,
            },
            Phase::Placing => match event {
                Event::Failed { reason, .. } => failed(
                    m,
                    "Failed to set clipboard content: "@ + reason,
                    wind_down(m),
                ),
                _ => InjectionModel { phase: Phase::Pasting, ..m },
            },
            Phase::Pasting => match event {
                Event::Failed { .. } => InjectionModel { phase: Phase::Typing, ..m },
                _ => InjectionModel { phase: wind_down(m), ..m },
            },
            Phase::Typing => match event {
                Event::Failed { step, reason } => failed(
                    m,
                    typing_failure(m.strategy, m.text, step, reason),
                    wind_down(m),
                ),
                _ => InjectionModel { phase: wind_down(m), ..m },
            },
            Phase::TypingWhole => match event {
                Event::Failed { reason, .. } => failed(
                    m,
                    "Failed to inject text: "@ + reason,
                    Phase::Done,
                ),
                _ => InjectionModel { phase: Phase::Trailing, ..m },
            },
            Phase::Trailing => InjectionModel { phase: Phase::Done, ..m },
            Phase::Restoring => InjectionModel {
                phase: Phase::Done,
                restore_failed: event is Failed,
                ..m
            },
            Phase::Done => m,
        }
    }
}

/// The synthetic-input backend, as far as the core knows it: whether it has
/// been set up.
pub struct TextInjector {
    initialized: bool,
}

impl TextInjector {
    /// Whether the backend has been set up.
    pub closed spec fn ready(&self) -> bool {
        self.initialized
    }

    /// An injector whose backend has not been set up.
    pub fn new() -> (injector: Self)
        ensures
            !injector.ready(),
    {
        TextInjector { initialized: false }
    }
}

/// Takes in the outcome of setting up the backend.  After a success the
/// injector is ready; a failure leaves it as it was and is handed back.
pub fn init_text_injector(
    injector: &mut TextInjector,
    backend: Result<(), String>,
) -> (done: Result<(), InjectionError>)
    ensures
        backend is Ok ==> done is Ok && final(injector).ready(),
        backend is Err ==> final(injector).ready() == old(injector).ready() && done is Err
            && done->Err_0@ == InjectionFailure::InjectionFailed(
            "Failed to create Enigo instance: "@ + backend->Err_0@,
        ),
{
    match backend {
        Ok(()) => {
            injector.initialized = true;
            Ok(())
        },
        Err(reason) => Err(
            InjectionError::InjectionFailed(
                joined("Failed to create Enigo instance: ", reason.as_str()),
            ),
        ),
    }
}

/// Whether the backend has been set up.
pub fn is_text_injector_initialized(injector: &TextInjector) -> (ready: bool)
    ensures
        ready == injector.ready(),
{
    injector.initialized
}

/// An injection under way.
pub struct Injection {
    strategy: Strategy,
    phase: Phase,
    text: String,
    chars: Vec<char>,
    saved: Option<String>,
    failure: Option<InjectionError>,
    restore_failed: bool,
}

impl View for Injection {
    type V = InjectionModel;

    closed spec fn view(&self) -> InjectionModel {
        InjectionModel {
            strategy: self.strategy,
            phase: self.phase,
            text: self.text@,
            saved: match self.saved {
                Some(contents) => Some(contents@),
                None => None,
            },
            failure: match self.failure {
                Some(error) => Some(error@),
                None => None,
            },
            restore_failed: self.restore_failed,
        }
    }
}

/// Begins the injection of `text`.  Fails with `NotInitialized` if the
/// backend has not been set up, with `EmptyInput` if it has and there is
/// nothing to inject; in both cases no command is ever issued.
pub fn inject_text(
    injector: &TextInjector,
    text: &str,
    strategy: Strategy,
) -> (begun: Result<Injection, InjectionError>)
    ensures
        !injector.ready() ==> begun is Err && begun->Err_0@ == InjectionFailure::NotInitialized,
        injector.ready() && text@.len() == 0 ==> begun is Err && begun->Err_0@
            == InjectionFailure::EmptyInput,
        injector.ready() && text@.len() > 0 ==> begun is Ok && begun->Ok_0@ == starting(
            text@,
            strategy,
        ),
{
    if !injector.initialized {
        return Err(InjectionError::NotInitialized);
    }
    if text.is_empty() {
        return Err(InjectionError::EmptyInput);
    }
    Ok(
        Injection {
            strategy,
            phase: Phase::Settling,
            text: String::from_str(text),
            chars: chars_of(text),
            saved: None,
            failure: None,
            restore_failed: false,
        },
    )
}

/// Begins the injection of a fixed sample text, to try the backend out.
pub fn test_text_injection(
    injector: &TextInjector,
    strategy: Strategy,
) -> (begun: Result<Injection, InjectionError>)
    ensures
        !injector.ready() ==> begun is Err && begun->Err_0@ == InjectionFailure::NotInitialized,
        injector.ready() ==> begun is Ok && begun->Ok_0@ == starting("VWisper test"@, strategy),
{
    proof {
        reveal_strlit("VWisper test");
    }
    inject_text(injector, "VWisper test", strategy)
}

/// The steps that type `text` character by character.
pub fn typing_plan(text: &Vec<char>, delay_ms: u64) -> (steps: Vec<InputStep>)
    ensures
        steps@ == typing_steps(text@, delay_ms),
{
    let mut steps: Vec<InputStep> = Vec::new();
    let mut i: usize = 0;
    while i < text.len()
        invariant
            0 <= i <= text@.len(),
            steps@.len() == 2 * i,
            forall|j: int|
                0 <= j < steps@.len() ==> #[trigger] steps@[j] == typing_steps(text@, delay_ms)[j],
        decreases text@.len() - i,
    {
        let c = text[i];
        let step = if c == '\n' {
            InputStep::Key { key: Key::Return, direction: Direction::Click }
        } else if c == '\t' {
            InputStep::Key { key: Key::Tab, direction: Direction::Click }
        } else {
            InputStep::Char(c)
        };
        steps.push(step);
        steps.push(InputStep::Sleep { ms: delay_ms });
        assert(typing_steps(text@, delay_ms)[2 * i] == step);
        assert(typing_steps(text@, delay_ms)[2 * i + 1] == InputStep::Sleep { ms: delay_ms });
        i = i + 1;
    }
    assert(steps@ =~= typing_steps(text@, delay_ms));
    steps
}

/// The steps of the paste chord.
pub fn chord_plan(modifier: PasteModifier) -> (steps: Vec<InputStep>)
    ensures
        steps@ == chord_steps(modifier),
{
    let key = match modifier {
        PasteModifier::Control => Key::Control,
        PasteModifier::Meta => Key::Meta,
    };
    let mut steps: Vec<InputStep> = Vec::new();
    steps.push(InputStep::Sleep { ms: PASTE_FOCUS_DELAY_MS });
    steps.push(InputStep::Key { key, direction: Direction::Press });
    steps.push(InputStep::Sleep { ms: CHORD_DELAY_MS });
    steps.push(InputStep::Key { key: Key::Unicode('v'), direction: Direction::Click });
    steps.push(InputStep::Sleep { ms: CHORD_DELAY_MS });
    steps.push(InputStep::Key { key, direction: Direction::Release });
    steps.push(InputStep::Sleep { ms: PASTE_COMPLETION_DELAY_MS });
    assert(steps@ =~= chord_steps(modifier));
    steps
}

/// The text of the error for a typing batch that failed at `step`.
pub fn typing_failure_message(
    strategy: Strategy,
    text: &Vec<char>,
    step: usize,
    reason: &str,
) -> (message: String)
    ensures
        message@ == typing_failure(strategy, text@, step as int, reason@),
{
    let at: usize = step / 2;
    if at < text.len() {
        let c = text[at];
        if c == '\n' {
            joined("Failed to inject newline: ", reason)
        } else if c == '\t' {
            joined("Failed to inject tab: ", reason)
        } else {
            let mut message = match strategy {
                Strategy::ClipboardPaste { .. } => String::from_str("Failed to inject character '"),
                _ => String::from_str("Failed to inject char '"),
            };
            message.push(c);
            message.append("': ");
            message.append(reason);
            message
        }
    } else {
        joined("Failed to inject text: ", reason)
    }
}

impl Injection {
    #[verifier::type_invariant]
    spec fn chars_are_the_text(&self) -> bool {
        self.chars@ == self.text@
    }

    /// How far the injection has come.
    pub fn phase(&self) -> (phase: Phase)
        ensures
            phase == self@.phase,
    {
        self.phase
    }

    /// Whether the injection is over.
    pub fn is_done(&self) -> (done: bool)
        ensures
            done == (self@.phase == Phase::Done),
    {
        self.phase == Phase::Done
    }

    /// Whether the clipboard's contents could not be put back.
    pub fn restore_failed(&self) -> (failed: bool)
        ensures
            failed == self@.restore_failed,
    {
        self.restore_failed
    }

    /// The command that is pending.
    pub fn command(&self) -> (command: InjectionCommand)
        ensures
            command@ == pending(self@),
    {
        proof {
            use_type_invariant(self);
        }
        match self.phase {
            Phase::Settling => {
                let mut steps: Vec<InputStep> = Vec::new();
                steps.push(InputStep::Sleep { ms: SETTLE_DELAY_MS });
                match self.strategy {
                    Strategy::WholeText => {
                        steps.push(InputStep::Sleep { ms: WHOLE_TEXT_DELAY_MS });
                    },
                    _ => {},
                }
                assert(steps@ =~= settle_steps(self.strategy));
                InjectionCommand::Input(steps)
            },
            Phase::Reading => InjectionCommand::ReadClipboard,
            Phase::Placing => InjectionCommand::WriteClipboard(self.text.clone()),
            Phase::Pasting => {
                let modifier = match self.strategy {
                    Strategy::ClipboardPaste { modifier } => modifier,
                    _ => PasteModifier::Control,
                };
                InjectionCommand::Input(chord_plan(modifier))
            },
            Phase::Typing => {
                let delay_ms = match self.strategy {
                    Strategy::ClipboardPaste { .. } => FALLBACK_TYPING_DELAY_MS,
                    _ => TYPING_DELAY_MS,
                };
                InjectionCommand::Input(typing_plan(&self.chars, delay_ms))
            },
            Phase::TypingWhole => InjectionCommand::TypeText(self.text.clone()),
            Phase::Trailing => {
                let mut steps: Vec<InputStep> = Vec::new();
                steps.push(InputStep::Sleep { ms: WHOLE_TEXT_DELAY_MS });
                assert(steps@ =~= seq![InputStep::Sleep { ms: WHOLE_TEXT_DELAY_MS }]);
                InjectionCommand::Input(steps)
            },
            Phase::Restoring => match &self.saved {
                Some(contents) => InjectionCommand::WriteClipboard(contents.clone()),
                None => InjectionCommand::WriteClipboard(String::new()),
            },
            Phase::Done => match &self.failure {
                Some(error) => InjectionCommand::Finish(Err(error.duplicate())),
                None => InjectionCommand::Finish(Ok(())),
            },
        }
    }

    /// Takes in what came of the pending command.
    pub fn advance(&mut self, event: InjectionEvent)
        ensures
            final(self)@ == after(old(self)@, event@),
    {
        proof {
            use_type_invariant(&*self);
        }
        let wind_down = if self.saved.is_some() {
            Phase::Restoring
        } else {
            Phase::Done
        };
        match self.phase {
            Phase::Settling => match event {
                InjectionEvent::Done => {
                    self.phase = match self.strategy {
                        Strategy::ClipboardPaste { .. } => Phase::Reading,
                        Strategy::CharByChar => Phase::Typing,
                        Strategy::WholeText => Phase::TypingWhole,
                    };
                },
                InjectionEvent::Failed { step: _, reason } => {
                    self.failure = Some(InjectionError::InjectionFailed(reason));
                    self.phase = Phase::Done;
                },
                _ => {},
            },
            Phase::Reading => match event {
                InjectionEvent::Clipboard(contents) => {
                    self.saved = contents;
                    self.phase = Phase::Placing;
                },
                InjectionEvent::ClipboardUnavailable(reason) => {
                    self.failure = Some(
                        InjectionError::InjectionFailed(
                            joined("Failed to initialize clipboard: ", reason.as_str()),
                        ),
                    );
                    self.phase = Phase::Done;
                },
                _ => {},
            },
            Phase::Placing => match event {
                InjectionEvent::Done => {
                    self.phase = Phase::Pasting;
                },
                InjectionEvent::Failed { step: _, reason } => {
                    self.failure = Some(
                        InjectionError::InjectionFailed(
                            joined("Failed to set clipboard content: ", reason.as_str()),
                        ),
                    );
                    self.phase = wind_down;
                },
                _ => {},
            },
            Phase::Pasting => match event {
                InjectionEvent::Done => {
                    self.phase = wind_down;
                },
                InjectionEvent::Failed { .. } => {
                    self.phase = Phase::Typing;
                },
                _ => {},
            },
            Phase::Typing => match event {
                InjectionEvent::Done => {
                    self.phase = wind_down;
                },
                InjectionEvent::Failed { step, reason } => {
                    self.failure = Some(
                        InjectionError::InjectionFailed(
                            typing_failure_message(
                                self.strategy,
                                &self.chars,
                                step,
                                reason.as_str(),
                            ),
                        ),
                    );
                    self.phase = wind_down;
                },
                _ => {},
            },
            Phase::TypingWhole => match event {
                InjectionEvent::Done => {
                    self.phase = Phase::Trailing;
                },
                InjectionEvent::Failed { step: _, reason } => {
                    self.failure = Some(
                        InjectionError::InjectionFailed(
                            joined("Failed to inject text: ", reason.as_str()),
                        ),
                    );
                    self.phase = Phase::Done;
                },
                _ => {},
            },
            Phase::Trailing => match event {
                InjectionEvent::Done => {
                    self.phase = Phase::Done;
                },
                InjectionEvent::Failed { .. } => {
                    self.phase = Phase::Done;
                },
                _ => {},
            },
            Phase::Restoring => match event {
                InjectionEvent::Done => {
                    self.restore_failed = false;
                    self.phase = Phase::Done;
                },
                InjectionEvent::Failed { .. } => {
                    self.restore_failed = true;
                    self.phase = Phase::Done;
                },
                _ => {},
            },
            Phase::Done => {},
        }
    }
}

} // verus!

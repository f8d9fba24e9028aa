//! What holds of every injection, whatever its caller reports.

use vstd::prelude::*;
use crate::injection::after;
use crate::injection::answers;
use crate::injection::pending;
use crate::injection::settle_steps;
use crate::injection::starting;
use crate::injection::typed_char;
use crate::injection::typing_steps;
use crate::injection::Command;
use crate::injection::Event;
use crate::injection::InjectionModel;
use crate::injection::InputStep;
use crate::injection::Phase;
use crate::injection::Strategy;
use crate::injection::SETTLE_DELAY_MS;

verus! {

/// The phases that an injection of a given strategy can be in, and what it
/// can hold there: only the clipboard strategy touches the clipboard, and it
/// never types the whole text in one call.
pub open spec fn on_course(m: InjectionModel) -> bool {
    &&& m.phase == Phase::Restoring ==> m.saved is Some
    &&& match m.strategy {
        Strategy::ClipboardPaste { .. } => m.phase != Phase::TypingWhole && m.phase
            != Phase::Trailing,
        Strategy::CharByChar => m.saved is None && (m.phase == Phase::Settling || m.phase
            == Phase::Typing || m.phase == Phase::Done),
        Strategy::WholeText => m.saved is None && (m.phase == Phase::Settling || m.phase
            == Phase::TypingWhole || m.phase == Phase::Trailing || m.phase == Phase::Done),
    }
}

/// An upper bound on the commands that are still to come.
pub open spec fn commands_left(phase: Phase) -> nat {
    match phase {
        Phase::Settling => 8,
        Phase::Reading => 7,
        Phase::Placing => 6,
        Phase::Pasting => 5,
        Phase::Typing => 4,
        Phase::TypingWhole => 3,
        Phase::Trailing => 2,
        Phase::Restoring => 1,
        Phase::Done => 0,
    }
}

/// What the clipboard holds once `command` has been carried out with the
/// outcome `event`, when it held `clip` before: a write that was done puts
/// its text there, and nothing else changes it.
pub open spec fn clipboard_after(command: Command, event: Event, clip: Seq<char>) -> Seq<char> {
    match command {
        Command::WriteClipboard(text) => if event is Done {
            text
        } else {
            clip
        },
        _ => clip,
    }
}

/// The event says of the clipboard what is the case: contents reported for a
/// read are the contents.
pub open spec fn truthful(command: Command, event: Event, clip: Seq<char>) -> bool {
    command is ReadClipboard ==> match event {
        Event::Clipboard(Some(contents)) => contents == clip,
        _ => true,
    }
}

/// The clipboard is in hand: either it still holds `initial`, or `initial`
/// is saved and will be put back.
pub open spec fn clipboard_in_hand(m: InjectionModel, clip: Seq<char>, initial: Seq<char>) -> bool {
    &&& on_course(m)
    &&& match m.saved {
        Some(contents) => contents == initial,
        None => true,
    }
    &&& !(m.strategy is ClipboardPaste) ==> clip == initial
    &&& match m.phase {
        Phase::Settling | Phase::Reading | Phase::Placing => clip == initial,
        Phase::Done => m.saved is Some && !m.restore_failed ==> clip == initial,
        _ => true,
    }
}

/// The injection and the clipboard after a run of events.
pub open spec fn replay(m: InjectionModel, clip: Seq<char>, events: Seq<Event>) -> (
    InjectionModel,
    Seq<char>,
)
    decreases events.len(),
{
    if events.len() == 0 {
        (m, clip)
    } else {
        replay(
            after(m, events[0]),
            clipboard_after(pending(m), events[0], clip),
            events.drop_first(),
        )
    }
}

/// Every event of a run tells the truth about the clipboard.
pub open spec fn all_truthful(m: InjectionModel, clip: Seq<char>, events: Seq<Event>) -> bool
    decreases events.len(),
{
    events.len() > 0 ==> truthful(pending(m), events[0], clip) && all_truthful(
        after(m, events[0]),
        clipboard_after(pending(m), events[0], clip),
        events.drop_first(),
    )
}

/// An injection begins with the settle delay: the first command is a batch
/// of waits, and the first of them is the settle delay.
pub proof fn lemma_settle_comes_first(text: Seq<char>, strategy: Strategy)
    ensures
        pending(starting(text, strategy)) == Command::Input(settle_steps(strategy)),
        settle_steps(strategy)[0] == (InputStep::Sleep { ms: SETTLE_DELAY_MS }),
        forall|i: int|
            0 <= i < settle_steps(strategy).len() ==> (#[trigger] settle_steps(strategy)[i])
                is Sleep,
{
}

/// Typing character by character takes two steps for each character, the
/// character and a wait, in the order of the text.
pub proof fn lemma_typing_spells_the_text(text: Seq<char>, delay_ms: u64, i: int)
    requires
        0 <= i < text.len(),
    ensures
        typing_steps(text, delay_ms).len() == 2 * text.len(),
        typing_steps(text, delay_ms)[2 * i] == typed_char(text[i]),
        typing_steps(text, delay_ms)[2 * i + 1] == (InputStep::Sleep { ms: delay_ms }),
{
}

/// An event that does not answer the pending command changes nothing; one
/// that does brings the injection strictly nearer its end.  `Finish` is
/// pending exactly when the injection is over, and nothing answers it.
pub proof fn lemma_every_answer_is_progress(m: InjectionModel, event: Event)
    ensures
        !answers(pending(m), event) ==> after(m, event) == m,
        answers(pending(m), event) ==> commands_left(after(m, event).phase) < commands_left(
            m.phase,
        ),
        pending(m) is Finish <==> m.phase == Phase::Done,
{
}

/// An injection stays on its strategy's course.
pub proof fn lemma_stays_on_course(m: InjectionModel, event: Event)
    requires
        on_course(m),
    ensures
        on_course(after(m, event)),
        on_course(starting(m.text, m.strategy)),
{
}

/// One step keeps the clipboard in hand.
pub proof fn lemma_step_keeps_clipboard_in_hand(
    m: InjectionModel,
    event: Event,
    clip: Seq<char>,
    initial: Seq<char>,
)
    requires
        clipboard_in_hand(m, clip, initial),
        truthful(pending(m), event, clip),
    ensures
        clipboard_in_hand(
            after(m, event),
            clipboard_after(pending(m), event, clip),
            initial,
        ),
{
}

/// Whatever happens in between, an injection that has ended has left the
/// clipboard as it found it: after any run of truthful events from the
/// start, an injection that is over, had the clipboard's contents saved and
/// did not fail to put them back leaves on the clipboard what was there
/// before.  A strategy other than the clipboard's never changes it at all.
pub proof fn lemma_clipboard_restored(
    text: Seq<char>,
    strategy: Strategy,
    initial: Seq<char>,
    events: Seq<Event>,
)
    requires
        all_truthful(starting(text, strategy), initial, events),
    ensures
        ({
            let (end, clip) = replay(starting(text, strategy), initial, events);
            &&& end.phase == Phase::Done && end.saved is Some && !end.restore_failed ==> clip
                == initial
            &&& !(strategy is ClipboardPaste) ==> clip == initial
        }),
{
    lemma_replay_keeps_clipboard_in_hand(starting(text, strategy), initial, initial, events);
    lemma_replay_keeps_strategy(starting(text, strategy), initial, events);
}

proof fn lemma_replay_keeps_clipboard_in_hand(
    m: InjectionModel,
    clip: Seq<char>,
    initial: Seq<char>,
    events: Seq<Event>,
)
    requires
        clipboard_in_hand(m, clip, initial),
        all_truthful(m, clip, events),
    ensures
        clipboard_in_hand(replay(m, clip, events).0, replay(m, clip, events).1, initial),
    decreases events.len(),
{
    if events.len() > 0 {
        lemma_step_keeps_clipboard_in_hand(m, events[0], clip, initial);
        lemma_replay_keeps_clipboard_in_hand(
            after(m, events[0]),
            clipboard_after(pending(m), events[0], clip),
            initial,
            events.drop_first(),
        );
    }
}

proof fn lemma_replay_keeps_strategy(m: InjectionModel, clip: Seq<char>, events: Seq<Event>)
    ensures
        replay(m, clip, events).0.strategy == m.strategy,
    decreases events.len(),
{
    if events.len() > 0 {
        lemma_replay_keeps_strategy(
            after(m, events[0]),
            clipboard_after(pending(m), events[0], clip),
            events.drop_first(),
        );
    }
}

} // verus!

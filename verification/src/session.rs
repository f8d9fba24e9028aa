//! The session state machine: `Idle -> Listening -> Stopping -> Success or
//! Error -> Idle`.
//!
//! The machine decides; its caller acts.  The poll loop reads the trigger key
//! and the clock and hands both to `poll`, the workflow task reports its
//! outcome through `workflow_finished`, and whoever waited out the dwell
//! calls `dwell_elapsed`.  Each call returns the actions to perform, in order.

use vstd::prelude::*;
use crate::events::PillState;
use crate::focus::FocusHandle;

verus! {

/// Least time between two accepted changes of the trigger, in milliseconds.
pub const DEBOUNCE_MS: u64 = 25;

/// Time between two reads of the trigger key, in milliseconds.
pub const POLL_INTERVAL_MS: u64 = 15;

/// How long the indicator shows a success, in milliseconds.
pub const SUCCESS_DWELL_MS: u64 = 500;

/// How long the indicator shows a failure, in milliseconds.
pub const ERROR_DWELL_MS: u64 = 3000;

/// Where a session stands.
#[derive(Clone, Copy, Debug, PartialEq, Eq, Structural)]
pub enum SessionState {
    Idle,
    Listening,
    Stopping,
    Success,
    Error,
}

/// One thing for the caller to do.
#[derive(Clone, Copy, Debug, PartialEq, Eq)]
pub enum SessionAction {
    /// Read the focused window and report it through `focus_captured`.
    CaptureFocus,
    /// Show the indicator window.
    ShowIndicator,
    /// Hide the indicator window.
    HideIndicator,
    /// Send `pill-state` with the given state.
    EmitPillState(PillState),
    /// Send `start-recording`.
    EmitStartRecording,
    /// Send `stop-recording`.
    EmitStopRecording,
    /// Start the audio engine.
    StartCapture,
    /// Stop the audio engine.
    StopCapture,
    /// Run the stop workflow on a task of its own, with the focus handle of
    /// the session and the time the trigger was held.
    RunWorkflow { focus: Option<FocusHandle>, hold_time_ms: Option<u64> },
    /// Wait this many milliseconds, then call `dwell_elapsed`.
    Dwell { ms: u64 },
}

/// What a machine holds, as plain values.
pub struct SessionModel {
    pub state: SessionState,
    /// The trigger as the last poll saw it.
    pub last_trigger_state: bool,
    /// When the trigger last changed the state.
    pub last_action_time: u64,
    /// When the trigger went down for the session under way.
    pub hold_start: Option<u64>,
    /// The window that had focus when the session began.
    pub focus: Option<FocusHandle>,
}

/// Milliseconds from `earlier` to `now`; zero when the clock reads less.
pub open spec fn elapsed_ms(earlier: u64, now: u64) -> u64 {
    if now >= earlier {
        (now - earlier) as u64
    } else {
        0
    }
}

/// Enough time has passed since the trigger last changed the state.
pub open spec fn debounced(m: SessionModel, now: u64) -> bool {
    elapsed_ms(m.last_action_time, now) >= DEBOUNCE_MS
}

/// This poll begins a session: the trigger went down, debounced, and the
/// machine is idle.
pub open spec fn press_accepted(m: SessionModel, pressed: bool, now: u64) -> bool {
    pressed && !m.last_trigger_state && debounced(m, now) && m.state == SessionState::Idle
}

/// This poll ends the capture: the trigger went up, debounced, and the
/// machine is listening.
pub open spec fn release_accepted(m: SessionModel, pressed: bool, now: u64) -> bool {
    !pressed && m.last_trigger_state && debounced(m, now) && m.state == SessionState::Listening
}

/// How long the trigger has been held at `now`.
pub open spec fn hold_time(m: SessionModel, now: u64) -> Option<u64> {
    match m.hold_start {
        Some(start) => Some(elapsed_ms(start, now)),
        None => None,
    }
}

/// A machine at rest, made at time `now`.
pub open spec fn initial(now: u64) -> SessionModel {
    SessionModel {
        state: SessionState::Idle,
        last_trigger_state: false,
        last_action_time: now,
        hold_start: None,
        focus: None,
    }
}

/// The machine after a poll.  Every poll records the trigger as it saw it,
/// so an edge that was not accepted is spent.
pub open spec fn after_poll(m: SessionModel, pressed: bool, now: u64) -> SessionModel {
    if press_accepted(m, pressed, now) {
        SessionModel {
            state: SessionState::Listening,
            last_trigger_state: true,
            last_action_time: now,
            hold_start: Some(now),
            focus: None,
        }
    } else if release_accepted(m, pressed, now) {
        SessionModel {
            state: SessionState::Stopping,
            last_trigger_state: false,
            last_action_time: now,
            hold_start: None,
            focus: None,
        }
    } else {
        SessionModel { last_trigger_state: pressed, ..m }
    }
}

/// What a poll asks of the caller.
pub open spec fn poll_actions(m: SessionModel, pressed: bool, now: u64) -> Seq<SessionAction> {
    if press_accepted(m, pressed, now) {
        seq![
            SessionAction::CaptureFocus,
            SessionAction::ShowIndicator,
            SessionAction::EmitPillState(PillState::Listening),
            SessionAction::EmitStartRecording,
            SessionAction::StartCapture,
        ]
    } else if release_accepted(m, pressed, now) {
        seq![
            SessionAction::EmitPillState(PillState::Loading),
            SessionAction::EmitStopRecording,
            SessionAction::StopCapture,
            SessionAction::RunWorkflow { focus: m.focus, hold_time_ms: hold_time(m, now) },
        ]
    } else {
        seq![]
    }
}

/// The machine after the focus tracker reported a handle: a listening
/// session without a handle takes it, anything else drops it.
pub open spec fn after_focus_captured(m: SessionModel, handle: FocusHandle) -> SessionModel {
    if m.state == SessionState::Listening && m.focus is None {
        SessionModel { focus: Some(handle), ..m }
    } else {
        m
    }
}

/// A stop asked for by the user interface is taken while capture runs and no
/// workflow is under way.
pub open spec fn manual_stop_accepted(m: SessionModel, recording: bool) -> bool {
    recording && (m.state == SessionState::Idle || m.state == SessionState::Listening)
}

/// The machine after a stop asked for by the user interface.
pub open spec fn after_manual_stop(m: SessionModel, recording: bool) -> SessionModel {
    if manual_stop_accepted(m, recording) {
        SessionModel { state: SessionState::Stopping, hold_start: None, focus: None, ..m }
    } else {
        m
    }
}

/// What a stop asked for by the user interface asks of the caller.
pub open spec fn manual_stop_actions(m: SessionModel, recording: bool) -> Seq<SessionAction> {
    if manual_stop_accepted(m, recording) {
        seq![
            SessionAction::StopCapture,
            SessionAction::EmitPillState(PillState::Loading),
            SessionAction::RunWorkflow { focus: None, hold_time_ms: None },
        ]
    } else {
        seq![]
    }
}

/// The machine after the workflow reported its outcome.
pub open spec fn after_workflow(m: SessionModel, succeeded: bool) -> SessionModel {
    if m.state == SessionState::Stopping {
        SessionModel {
            state: if succeeded {
                SessionState::Success
            } else {
                SessionState::Error
            },
            ..m
        }
    } else {
        m
    }
}

/// What the workflow's outcome asks of the caller: show it, and let it be
/// seen for the dwell that goes with it.
pub open spec fn workflow_actions(m: SessionModel, succeeded: bool) -> Seq<SessionAction> {
    if m.state == SessionState::Stopping {
        if succeeded {
            seq![
                SessionAction::EmitPillState(PillState::Success),
                SessionAction::Dwell { ms: SUCCESS_DWELL_MS },
            ]
        } else {
            seq![
                SessionAction::EmitPillState(PillState::Error),
                SessionAction::Dwell { ms: ERROR_DWELL_MS },
            ]
        }
    } else {
        seq![]
    }
}

/// The machine shows an outcome.
pub open spec fn showing_outcome(m: SessionModel) -> bool {
    m.state == SessionState::Success || m.state == SessionState::Error
}

/// The machine after the dwell.
pub open spec fn after_dwell(m: SessionModel) -> SessionModel {
    if showing_outcome(m) {
        SessionModel { state: SessionState::Idle, ..m }
    } else {
        m
    }
}

/// What the end of the dwell asks of the caller.
pub open spec fn dwell_actions(m: SessionModel) -> Seq<SessionAction> {
    if showing_outcome(m) {
        seq![SessionAction::EmitPillState(PillState::Idle), SessionAction::HideIndicator]
    } else {
        seq![]
    }
}

/// What holds of every machine: the trigger's start time and the focus
/// handle belong to a listening session and to nothing else.
pub open spec fn consistent(m: SessionModel) -> bool {
    &&& m.state == SessionState::Listening ==> m.hold_start is Some
    &&& m.state != SessionState::Listening ==> m.hold_start is None && m.focus is None
}

/// The session state machine.
pub struct SessionMachine {
    state: SessionState,
    last_trigger_state: bool,
    last_action_time: u64,
    hold_start: Option<u64>,
    focus: Option<FocusHandle>,
}

impl View for SessionMachine {
    type V = SessionModel;

    closed spec fn view(&self) -> SessionModel {
        SessionModel {
            state: self.state,
            last_trigger_state: self.last_trigger_state,
            last_action_time: self.last_action_time,
            hold_start: self.hold_start,
            focus: self.focus,
        }
    }
}

/// Milliseconds from `earlier` to `now`; zero when the clock reads less.
pub fn elapsed(earlier: u64, now: u64) -> (ms: u64)
    ensures
        ms == elapsed_ms(earlier, now),
{
    if now >= earlier {
        now - earlier
    } else {
        0
    }
}

impl SessionMachine {
    /// A machine at rest.  `now` is the clock's reading, in milliseconds.
    pub fn new(now: u64) -> (machine: Self)
        ensures
            machine@ == initial(now),
    {
        SessionMachine {
            state: SessionState::Idle,
            last_trigger_state: false,
            last_action_time: now,
            hold_start: None,
            focus: None,
        }
    }

    /// Where the session stands.
    pub fn state(&self) -> (state: SessionState)
        ensures
            state == self@.state,
    {
        self.state
    }

    /// One read of the trigger key: `pressed` is the key, `now` the clock in
    /// milliseconds.
    pub fn poll(&mut self, pressed: bool, now: u64) -> (actions: Vec<SessionAction>)
        ensures
            final(self)@ == after_poll(old(self)@, pressed, now),
            actions@ == poll_actions(old(self)@, pressed, now),
    {
        let settled = elapsed(self.last_action_time, now) >= DEBOUNCE_MS;
        let mut actions: Vec<SessionAction> = Vec::new();
        if pressed && !self.last_trigger_state && settled && self.state == SessionState::Idle {
            self.state = SessionState::Listening;
            self.last_action_time = now;
            self.hold_start = Some(now);
            self.focus = None;
            actions.push(SessionAction::CaptureFocus);
            actions.push(SessionAction::ShowIndicator);
            actions.push(SessionAction::EmitPillState(PillState::Listening));
            actions.push(SessionAction::EmitStartRecording);
            actions.push(SessionAction::StartCapture);
        } else if !pressed && self.last_trigger_state && settled && self.state
            == SessionState::Listening {
            let hold_time_ms = match self.hold_start {
                Some(start) => Some(elapsed(start, now)),
                None => None,
            };
            actions.push(SessionAction::EmitPillState(PillState::Loading));
            actions.push(SessionAction::EmitStopRecording);
            actions.push(SessionAction::StopCapture);
            actions.push(SessionAction::RunWorkflow { focus: self.focus, hold_time_ms });
            self.state = SessionState::Stopping;
            self.last_action_time = now;
            self.hold_start = None;
            self.focus = None;
        }
        self.last_trigger_state = pressed;
        assert(actions@ =~= poll_actions(old(self)@, pressed, now));
        actions
    }

    /// Takes the handle that the focus tracker read for this session.
    pub fn focus_captured(&mut self, handle: FocusHandle)
        ensures
            final(self)@ == after_focus_captured(old(self)@, handle),
    {
        if self.state == SessionState::Listening && self.focus.is_none() {
            self.focus = Some(handle);
        }
    }

    /// A stop asked for by the user interface.  `recording` says whether the
    /// audio engine records.
    pub fn manual_stop(&mut self, recording: bool) -> (actions: Vec<SessionAction>)
        ensures
            final(self)@ == after_manual_stop(old(self)@, recording),
            actions@ == manual_stop_actions(old(self)@, recording),
    {
        let mut actions: Vec<SessionAction> = Vec::new();
        if recording && (self.state == SessionState::Idle || self.state
            == SessionState::Listening) {
            self.state = SessionState::Stopping;
            self.hold_start = None;
            self.focus = None;
            actions.push(SessionAction::StopCapture);
            actions.push(SessionAction::EmitPillState(PillState::Loading));
            actions.push(SessionAction::RunWorkflow { focus: None, hold_time_ms: None });
        }
        assert(actions@ =~= manual_stop_actions(old(self)@, recording));
        actions
    }

    /// The workflow is done; `succeeded` is its outcome.
    pub fn workflow_finished(&mut self, succeeded: bool) -> (actions: Vec<SessionAction>)
        ensures
            final(self)@ == after_workflow(old(self)@, succeeded),
            actions@ == workflow_actions(old(self)@, succeeded),
    {
        let mut actions: Vec<SessionAction> = Vec::new();
        if self.state == SessionState::Stopping {
            if succeeded {
                self.state = SessionState::Success;
                actions.push(SessionAction::EmitPillState(PillState::Success));
                actions.push(SessionAction::Dwell { ms: SUCCESS_DWELL_MS });
            } else {
                self.state = SessionState::Error;
                actions.push(SessionAction::EmitPillState(PillState::Error));
                actions.push(SessionAction::Dwell { ms: ERROR_DWELL_MS });
            }
        }
        assert(actions@ =~= workflow_actions(old(self)@, succeeded));
        actions
    }

    /// The dwell is over.
    pub fn dwell_elapsed(&mut self) -> (actions: Vec<SessionAction>)
        ensures
            final(self)@ == after_dwell(old(self)@),
            actions@ == dwell_actions(old(self)@),
    {
        let mut actions: Vec<SessionAction> = Vec::new();
        if self.state == SessionState::Success || self.state == SessionState::Error {
            self.state = SessionState::Idle;
            actions.push(SessionAction::EmitPillState(PillState::Idle));
            actions.push(SessionAction::HideIndicator);
        }
        assert(actions@ =~= dwell_actions(old(self)@));
        actions
    }
}

/// No session begins inside another: while the machine is not idle, a poll
/// never enters `Listening` and asks for none of the things that begin a
/// session, whatever the trigger and the clock say.
pub proof fn lemma_no_session_begins_outside_idle(m: SessionModel, pressed: bool, now: u64)
    requires
        m.state != SessionState::Idle,
    ensures
        !press_accepted(m, pressed, now),
        after_poll(m, pressed, now).state == SessionState::Listening ==> m.state
            == SessionState::Listening,
        !poll_actions(m, pressed, now).contains(SessionAction::StartCapture),
        !poll_actions(m, pressed, now).contains(SessionAction::CaptureFocus),
        !poll_actions(m, pressed, now).contains(
            SessionAction::EmitPillState(PillState::Listening),
        ),
{
}

/// The debounce: after a poll that changed the state at time `first`, a poll
/// less than `DEBOUNCE_MS` later changes no state and asks for nothing,
/// whatever the trigger does.
pub proof fn lemma_debounce_holds_the_state(
    m: SessionModel,
    pressed: bool,
    first: u64,
    again: bool,
    second: u64,
)
    requires
        press_accepted(m, pressed, first) || release_accepted(m, pressed, first),
        elapsed_ms(first, second) < DEBOUNCE_MS,
    ensures
        after_poll(after_poll(m, pressed, first), again, second).state == after_poll(
            m,
            pressed,
            first,
        ).state,
        poll_actions(after_poll(m, pressed, first), again, second) == Seq::<
            SessionAction,
        >::empty(),
{
}

/// One workflow at a time: the machine asks for a workflow only as it enters
/// `Stopping`, and while it is stopping or shows an outcome neither a poll
/// nor a stop from the user interface asks for another.
pub proof fn lemma_one_workflow_at_a_time(
    m: SessionModel,
    pressed: bool,
    now: u64,
    recording: bool,
    i: int,
)
    ensures
        0 <= i < poll_actions(m, pressed, now).len() && poll_actions(m, pressed, now)[i]
            is RunWorkflow ==> m.state == SessionState::Listening && after_poll(
            m,
            pressed,
            now,
        ).state == SessionState::Stopping,
        0 <= i < manual_stop_actions(m, recording).len() && manual_stop_actions(m, recording)[i]
            is RunWorkflow ==> (m.state == SessionState::Idle || m.state
            == SessionState::Listening) && after_manual_stop(m, recording).state
            == SessionState::Stopping,
        m.state == SessionState::Stopping || showing_outcome(m) ==> poll_actions(m, pressed, now)
            == Seq::<SessionAction>::empty() && manual_stop_actions(m, recording) == Seq::<
            SessionAction,
        >::empty() && after_poll(m, pressed, now).state == m.state && after_manual_stop(
            m,
            recording,
        ).state == m.state,
{
}

/// Every step keeps the machine consistent, and a new machine is.
pub proof fn lemma_steps_keep_consistency(
    m: SessionModel,
    pressed: bool,
    now: u64,
    handle: FocusHandle,
    flag: bool,
)
    requires
        consistent(m),
    ensures
        consistent(initial(now)),
        consistent(after_poll(m, pressed, now)),
        consistent(after_focus_captured(m, handle)),
        consistent(after_manual_stop(m, flag)),
        consistent(after_workflow(m, flag)),
        consistent(after_dwell(m)),
{
}

/// The focus handle is handed over once: the poll that ends the capture
/// passes the session's handle to the workflow and leaves the machine
/// without one.
pub proof fn lemma_focus_handed_over_once(m: SessionModel, pressed: bool, now: u64)
    requires
        release_accepted(m, pressed, now),
    ensures
        poll_actions(m, pressed, now).last() == (SessionAction::RunWorkflow {
            focus: m.focus,
            hold_time_ms: hold_time(m, now),
        }),
        after_poll(m, pressed, now).focus is None,
{
}

/// A session that is stopping comes to rest: the workflow's outcome is shown
/// for its dwell, 500 ms for a success and 3000 ms for a failure, and the end
/// of the dwell brings the machine back to `Idle`.
pub proof fn lemma_outcome_then_idle(m: SessionModel, succeeded: bool)
    requires
        m.state == SessionState::Stopping,
    ensures
        showing_outcome(after_workflow(m, succeeded)),
        workflow_actions(m, succeeded).last() == (SessionAction::Dwell {
            ms: if succeeded {
                500u64
            } else {
                3000u64
            },
        }),
        after_dwell(after_workflow(m, succeeded)).state == SessionState::Idle,
        dwell_actions(after_workflow(m, succeeded)).last() == SessionAction::HideIndicator,
{
}

} // verus!

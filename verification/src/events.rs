//! The notifications that the core sends to the windowing host.

use vstd::prelude::*;
use vstd::string::StringExecFns;

verus! {

/// What the indicator shows.
#[derive(Clone, Copy, Debug, PartialEq, Eq, Structural)]
pub enum PillState {
    Listening,
    Loading,
    Success,
    Error,
    Idle,
}

/// The word that stands for a pill state on the wire.
pub open spec fn pill_state_name(state: PillState) -> Seq<char> {
    match state {
        PillState::Listening => "listening"@,
        PillState::Loading => "loading"@,
        PillState::Success => "success"@,
        PillState::Error => "error"@,
        PillState::Idle => "idle"@,
    }
}

impl PillState {
    /// The word that stands for this state on the wire.
    pub fn name(self) -> (name: &'static str)
        ensures
            name@ == pill_state_name(self),
    {
        match self {
            PillState::Listening => "listening",
            PillState::Loading => "loading",
            PillState::Success => "success",
            PillState::Error => "error",
            PillState::Idle => "idle",
        }
    }
}

/// A notification for the windowing host.
#[derive(Debug, PartialEq, Eq)]
pub enum UiEvent {
    /// The indicator changes to the given state.
    PillState(PillState),
    /// Capture begins.
    StartRecording,
    /// Capture ends.
    StopRecording,
    /// The text that the transcription service returned.
    TranscriptionResult(String),
    /// Why no text came back.
    TranscriptionError(String),
    /// Whether the text reached the focused window.
    InjectionStatus(bool),
    /// Why the text did not reach it.
    InjectionError(String),
}

/// A notification, as plain values.
pub enum UiEventView {
    PillState(PillState),
    StartRecording,
    StopRecording,
    TranscriptionResult(Seq<char>),
    TranscriptionError(Seq<char>),
    InjectionStatus(bool),
    InjectionError(Seq<char>),
}

impl View for UiEvent {
    type V = UiEventView;

    open spec fn view(&self) -> UiEventView {
        match self {
            UiEvent::PillState(state) => UiEventView::PillState(*state),
            UiEvent::StartRecording => UiEventView::StartRecording,
            UiEvent::StopRecording => UiEventView::StopRecording,
            UiEvent::TranscriptionResult(text) => UiEventView::TranscriptionResult(text@),
            UiEvent::TranscriptionError(text) => UiEventView::TranscriptionError(text@),
            UiEvent::InjectionStatus(ok) => UiEventView::InjectionStatus(*ok),
            UiEvent::InjectionError(text) => UiEventView::InjectionError(text@),
        }
    }
}

impl DeepView for UiEvent {
    type V = UiEventView;

    open spec fn deep_view(&self) -> UiEventView {
        self@
    }
}

/// The name under which the host receives an event.
pub open spec fn event_name(event: UiEventView) -> Seq<char> {
    match event {
        UiEventView::PillState(_) => "pill-state"@,
        UiEventView::StartRecording => "start-recording"@,
        UiEventView::StopRecording => "stop-recording"@,
        UiEventView::TranscriptionResult(_) => "transcription-result"@,
        UiEventView::TranscriptionError(_) => "transcription-error"@,
        UiEventView::InjectionStatus(_) => "injection-status"@,
        UiEventView::InjectionError(_) => "injection-error"@,
    }
}

/// The text that goes with an event.
pub open spec fn event_payload(event: UiEventView) -> Seq<char> {
    match event {
        UiEventView::PillState(state) => pill_state_name(state),
        UiEventView::StartRecording => ""@,
        UiEventView::StopRecording => ""@,
        UiEventView::TranscriptionResult(text) => text,
        UiEventView::TranscriptionError(text) => text,
        UiEventView::InjectionStatus(ok) => if ok {
            "success"@
        } else {
            "error"@
        },
        UiEventView::InjectionError(text) => text,
    }
}

impl UiEvent {
    /// The name under which the host receives this event.
    pub fn name(&self) -> (name: &'static str)
        ensures
            name@ == event_name(self@),
    {
        match self {
            UiEvent::PillState(_) => "pill-state",
            UiEvent::StartRecording => "start-recording",
            UiEvent::StopRecording => "stop-recording",
            UiEvent::TranscriptionResult(_) => "transcription-result",
            UiEvent::TranscriptionError(_) => "transcription-error",
            UiEvent::InjectionStatus(_) => "injection-status",
            UiEvent::InjectionError(_) => "injection-error",
        }
    }

    /// The text that goes with this event.
    pub fn payload(&self) -> (payload: String)
        ensures
            payload@ == event_payload(self@),
    {
        match self {
            UiEvent::PillState(state) => String::from_str(state.name()),
            UiEvent::StartRecording => String::from_str(""),
            UiEvent::StopRecording => String::from_str(""),
            UiEvent::TranscriptionResult(text) => text.clone(),
            UiEvent::TranscriptionError(text) => text.clone(),
            UiEvent::InjectionStatus(ok) => if *ok {
                String::from_str("success")
            } else {
                String::from_str("error")
            },
            UiEvent::InjectionError(text) => text.clone(),
        }
    }
}

} // verus!

//! The workflow orchestrator: what happens between the release of the
//! trigger and the end of the session.
//!
//! The orchestrator decides; its caller acts.  `Workflow::begin` and every
//! `advance` hand back the commands to carry out, in order.  The last command
//! of a batch is either `Finish` or one whose outcome the caller reports with
//! the next `advance`.

use vstd::prelude::*;
use vstd::string::StringExecFns;
use crate::events::UiEvent;
use crate::events::UiEventView;
use crate::focus::FocusHandle;
use crate::history::clock_reading;
use crate::history::current_time;
use crate::history::EntryModel;
use crate::history::Timestamp;
use crate::history::TranscriptionEntry;
use crate::injection::failure_message;
use crate::injection::InjectionError;
use crate::injection::InjectionFailure;
use crate::settings::Settings;
use crate::settings::SettingsModel;
use crate::transcription::request_for;
use crate::transcription::transcription_request;
use crate::transcription::usable_text;
use crate::transcription::RequestModel;
use crate::transcription::Transcript;
use crate::transcription::TranscriptionRequest;
use crate::transcription::TranscriptionResult;

verus! {

/// Wait after the focus went back to the target window, before the text is
/// injected.
pub const FOCUS_SETTLE_MS: u64 = 100;

/// Why a session ended in failure.
#[derive(Debug, PartialEq, Eq)]
pub enum WorkflowError {
    /// The audio engine could not close the recording.
    CaptureFailed(String),
    /// No key for the transcription service is set.
    NotConfigured,
    /// The transcription service gave no text.
    TranscriptionFailed(String),
    /// The text did not reach the target window.
    InjectionFailed(InjectionError),
}

/// A workflow error, as plain values.
pub enum WorkflowFailure {
    CaptureFailed(Seq<char>),
    NotConfigured,
    TranscriptionFailed(Seq<char>),
    InjectionFailed(InjectionFailure),
}

impl View for WorkflowError {
    type V = WorkflowFailure;

    open spec fn view(&self) -> WorkflowFailure {
        match self {
            WorkflowError::CaptureFailed(reason) => WorkflowFailure::CaptureFailed(reason@),
            WorkflowError::NotConfigured => WorkflowFailure::NotConfigured,
            WorkflowError::TranscriptionFailed(reason) => WorkflowFailure::TranscriptionFailed(
                reason@,
            ),
            WorkflowError::InjectionFailed(error) => WorkflowFailure::InjectionFailed(error@),
        }
    }
}

/// What the user is told when no key is set.
pub open spec fn not_configured_message() -> Seq<char> {
    "No Groq API key set"@
}

/// What the user is told when the service failed without saying why.
pub open spec fn unexplained_failure_message() -> Seq<char> {
    "Transcription failed"@
}

/// The text shown for a workflow error.
pub open spec fn workflow_failure_message(failure: WorkflowFailure) -> Seq<char> {
    match failure {
        WorkflowFailure::CaptureFailed(reason) => reason,
        WorkflowFailure::NotConfigured => not_configured_message(),
        WorkflowFailure::TranscriptionFailed(reason) => reason,
        WorkflowFailure::InjectionFailed(failure) => failure_message(failure),
    }
}

impl WorkflowError {
    /// The text shown for this error.
    pub fn message(&self) -> (text: String)
        ensures
            text@ == workflow_failure_message(self@),
    {
        match self {
            WorkflowError::CaptureFailed(reason) => reason.clone(),
            WorkflowError::NotConfigured => String::from_str("No Groq API key set"),
            WorkflowError::TranscriptionFailed(reason) => reason.clone(),
            WorkflowError::InjectionFailed(error) => error.message(),
        }
    }
}

/// One thing for the caller to do.
#[derive(Debug, PartialEq, Eq)]
pub enum WorkflowCommand {
    /// Stop the audio engine; report with `CaptureStopped`.
    StopCapture,
    /// Read the settings; report with `SettingsLoaded`.
    LoadSettings,
    /// Copy the recording to its lasting place, named after the record;
    /// report with `ArtifactCopied`.
    CopyArtifact { record_id: String },
    /// Send the request; report with `Transcribed`.
    Transcribe(TranscriptionRequest),
    /// Notify the windowing host.
    Emit(UiEvent),
    /// Give the focus back to this window.
    RestoreFocus(FocusHandle),
    /// Wait.
    Sleep { ms: u64 },
    /// Inject the text; report with `Injected`.
    Inject(String),
    /// Hand the record to the journal.
    SaveHistory(TranscriptionEntry),
    /// Delete the recording.
    DeleteArtifact,
    /// The workflow is over, with this outcome.
    Finish(Result<(), WorkflowError>),
}

/// A command, as plain values.
pub enum Step {
    StopCapture,
    LoadSettings,
    CopyArtifact { record_id: Seq<char> },
    Transcribe(RequestModel),
    Emit(UiEventView),
    RestoreFocus(FocusHandle),
    Sleep { ms: u64 },
    Inject(Seq<char>),
    SaveHistory(EntryModel),
    DeleteArtifact,
    Finish(Option<WorkflowFailure>),
}

impl View for WorkflowCommand {
    type V = Step;

    open spec fn view(&self) -> Step {
        match self {
            WorkflowCommand::StopCapture => Step::StopCapture,
            WorkflowCommand::LoadSettings => Step::LoadSettings,
            WorkflowCommand::CopyArtifact { record_id } => Step::CopyArtifact {
                record_id: record_id@,
            },
            WorkflowCommand::Transcribe(request) => Step::Transcribe(request@),
            WorkflowCommand::Emit(event) => Step::Emit(event@),
            WorkflowCommand::RestoreFocus(handle) => Step::RestoreFocus(*handle),
            WorkflowCommand::Sleep { ms } => Step::Sleep { ms: *ms },
            WorkflowCommand::Inject(text) => Step::Inject(text@),
            WorkflowCommand::SaveHistory(entry) => Step::SaveHistory(entry@),
            WorkflowCommand::DeleteArtifact => Step::DeleteArtifact,
            WorkflowCommand::Finish(outcome) => Step::Finish(
                match outcome {
                    Ok(_) => None,
                    Err(error) => Some(error@),
                },
            ),
        }
    }
}

impl DeepView for WorkflowCommand {
    type V = Step;

    open spec fn deep_view(&self) -> Step {
        self@
    }
}

/// What the caller reports.
#[derive(Debug, PartialEq, Eq)]
pub enum WorkflowEvent {
    /// The audio engine stopped, or could not close the recording.
    CaptureStopped(Result<(), String>),
    /// The settings in force.
    SettingsLoaded(Settings),
    /// Where the copy of the recording went, if there is a place for it.
    ArtifactCopied(Option<String>),
    /// What the transcription service gave.
    Transcribed(TranscriptionResult),
    /// Whether the text reached the target window.
    Injected(Result<(), InjectionError>),
}

/// A report, as plain values.
pub enum Report {
    CaptureStopped(Option<Seq<char>>),
    SettingsLoaded(SettingsModel),
    ArtifactCopied(Option<Seq<char>>),
    Transcribed(Transcript),
    Injected(Option<InjectionFailure>),
}

impl View for WorkflowEvent {
    type V = Report;

    open spec fn view(&self) -> Report {
        match self {
            WorkflowEvent::CaptureStopped(outcome) => Report::CaptureStopped(
                match outcome {
                    Ok(_) => None,
                    Err(reason) => Some(reason@),
                },
            ),
            WorkflowEvent::SettingsLoaded(settings) => Report::SettingsLoaded(settings@),
            WorkflowEvent::ArtifactCopied(path) => Report::ArtifactCopied(
                match path {
                    Some(path) => Some(path@),
                    None => None,
                },
            ),
            WorkflowEvent::Transcribed(result) => Report::Transcribed(result@),
            WorkflowEvent::Injected(outcome) => Report::Injected(
                match outcome {
                    Ok(_) => None,
                    Err(error) => Some(error@),
                },
            ),
        }
    }
}

/// What the workflow waits for.
#[derive(Clone, Copy, Debug, PartialEq, Eq, Structural)]
pub enum WorkflowPhase {
    AwaitingStop,
    AwaitingSettings,
    AwaitingCopy,
    AwaitingTranscript,
    AwaitingInjection,
    Finished,
}

/// What a workflow holds, as plain values.
pub struct WorkflowModel {
    pub phase: WorkflowPhase,
    /// The window to give the focus back to.
    pub focus: Option<FocusHandle>,
    /// How long the trigger was held.
    pub hold_time_ms: Option<u64>,
    /// Where the recording lies.
    pub artifact_path: Seq<char>,
    /// The key for the transcription service.
    pub api_key: Seq<char>,
    /// Whether the session is recorded in the journal.
    pub save_history: bool,
    /// The name of the session's record.
    pub record_id: Seq<char>,
    /// Where the copy of the recording went.
    pub wav_path: Option<Seq<char>>,
    /// What the transcription service gave.
    pub transcript: Option<Transcript>,
}

/// A workflow that has just begun.
pub open spec fn begun(
    focus: Option<FocusHandle>,
    hold_time_ms: Option<u64>,
    artifact_path: Seq<char>,
) -> WorkflowModel {
    WorkflowModel {
        phase: WorkflowPhase::AwaitingStop,
        focus,
        hold_time_ms,
        artifact_path,
        api_key: Seq::empty(),
        save_history: false,
        record_id: Seq::empty(),
        wav_path: None,
        transcript: None,
    }
}

/// The first thing a workflow asks for: stop the audio engine.
pub open spec fn opening_steps() -> Seq<Step> {
    seq![Step::StopCapture]
}

/// The record of the session.
pub open spec fn session_record(
    m: WorkflowModel,
    transcript: Transcript,
    now: Timestamp,
) -> EntryModel {
    EntryModel {
        id: m.record_id,
        timestamp: now,
        text: transcript.text,
        round_trip_ms: Some(transcript.round_trip_ms),
        hold_time_ms: m.hold_time_ms,
        status: transcript.status,
        wav_path: m.wav_path,
    }
}

/// What becomes of the recording and the record once the outcome is known:
/// the record goes to the journal if a journal is kept, and the recording is
/// deleted if none is.
pub open spec fn closing_steps(
    m: WorkflowModel,
    transcript: Transcript,
    now: Timestamp,
) -> Seq<Step> {
    if m.save_history {
        seq![Step::SaveHistory(session_record(m, transcript, now))]
    } else {
        seq![Step::DeleteArtifact]
    }
}

/// Giving the focus back, where there is a window to give it to: restore,
/// then let the window come to the front.
pub open spec fn restore_steps(focus: Option<FocusHandle>) -> Seq<Step> {
    match focus {
        Some(handle) => seq![Step::RestoreFocus(handle), Step::Sleep { ms: FOCUS_SETTLE_MS }],
        None => seq![],
    }
}

/// Why a transcript without usable text counts as failed.
pub open spec fn transcript_failure(transcript: Transcript) -> Seq<char> {
    match transcript.error {
        Some(reason) => reason,
        None => unexplained_failure_message(),
    }
}

/// The workflow after a report, and what it asks for.  `fresh_id` is the
/// name for the session's record, `now` the moment for its timestamp.  A
/// report that the workflow does not wait for changes nothing and asks for
/// nothing.
pub open spec fn step(
    m: WorkflowModel,
    report: Report,
    fresh_id: Seq<char>,
    now: Timestamp,
) -> (WorkflowModel, Seq<Step>) {
    match (m.phase, report) {
        (WorkflowPhase::AwaitingStop, Report::CaptureStopped(None)) => (
            WorkflowModel { phase: WorkflowPhase::AwaitingSettings, ..m },
            seq![Step::LoadSettings],
        ),
        (WorkflowPhase::AwaitingStop, Report::CaptureStopped(Some(reason))) => (
            WorkflowModel { phase: WorkflowPhase::Finished, ..m },
            seq![Step::Finish(Some(WorkflowFailure::CaptureFailed(reason)))],
        ),
        (WorkflowPhase::AwaitingSettings, Report::SettingsLoaded(settings)) => match settings.groq_api_key {
            None => (
                WorkflowModel { phase: WorkflowPhase::Finished, ..m },
                seq![
                    Step::Emit(UiEventView::TranscriptionError(not_configured_message())),
                    Step::Finish(Some(WorkflowFailure::NotConfigured)),
                ],
            ),
            Some(key) => if settings.save_history && settings.save_audio {
                (
                    WorkflowModel {
                        phase: WorkflowPhase::AwaitingCopy,
                        api_key: key,
                        save_history: settings.save_history,
                        record_id: fresh_id,
                        ..m
                    },
                    seq![Step::CopyArtifact { record_id: fresh_id }],
                )
            } else {
                (
                    WorkflowModel {
                        phase: WorkflowPhase::AwaitingTranscript,
                        api_key: key,
                        save_history: settings.save_history,
                        record_id: fresh_id,
                        ..m
                    },
                    seq![Step::Transcribe(request_for(m.artifact_path, key))],
                )
            },
        },
        (WorkflowPhase::AwaitingCopy, Report::ArtifactCopied(path)) => (
            WorkflowModel { phase: WorkflowPhase::AwaitingTranscript, wav_path: path, ..m },
            seq![Step::Transcribe(request_for(m.artifact_path, m.api_key))],
        ),
        (WorkflowPhase::AwaitingTranscript, Report::Transcribed(transcript)) => if usable_text(
            transcript,
        ) {
            (
                WorkflowModel {
                    phase: WorkflowPhase::AwaitingInjection,
                    focus: None,
                    transcript: Some(transcript),
                    ..m
                },
                seq![Step::Emit(UiEventView::TranscriptionResult(transcript.text))]
                    + restore_steps(m.focus) + seq![Step::Inject(transcript.text)],
            )
        } else {
            (
                WorkflowModel {
                    phase: WorkflowPhase::Finished,
                    transcript: Some(transcript),
                    ..m
                },
                seq![Step::Emit(UiEventView::TranscriptionError(transcript_failure(transcript)))]
                    + closing_steps(m, transcript, now) + seq![
                    Step::Finish(
                        Some(WorkflowFailure::TranscriptionFailed(transcript_failure(transcript))),
                    ),
                ],
            )
        },
        (WorkflowPhase::AwaitingInjection, Report::Injected(outcome)) => match m.transcript {
            None => (m, seq![]),
            Some(transcript) => match outcome {
                None => (
                    WorkflowModel { phase: WorkflowPhase::Finished, ..m },
                    seq![Step::Emit(UiEventView::InjectionStatus(true))] + closing_steps(
                        m,
                        transcript,
                        now,
                    ) + seq![Step::Finish(None)],
                ),
                Some(failure) => (
                    WorkflowModel { phase: WorkflowPhase::Finished, ..m },
                    seq![
                        Step::Emit(UiEventView::InjectionStatus(false)),
                        Step::Emit(UiEventView::InjectionError(failure_message(failure))),
                    ] + closing_steps(m, transcript, now) + seq![
                        Step::Finish(Some(WorkflowFailure::InjectionFailed(failure))),
                    ],
                ),
            },
        },
        _ => (m, seq![]),
    }
}

/// The names that `new_record_id` gives: 36 characters, in five groups that
/// hyphens part.
pub open spec fn is_record_id(id: Seq<char>) -> bool {
    &&& id.len() == 36
    &&& id[8] == '-'
    &&& id[13] == '-'
    &&& id[18] == '-'
    &&& id[23] == '-'
}

/// Draws a random identifier with `uuid::Uuid::new_v4` and writes it the way
/// `Uuid`'s `Display` does: in lower-case hexadecimal digits, hyphenated
/// 8-4-4-4-12.  The contract claims the length and the hyphens and says
/// nothing of the digits.  Where the operating system gives no random bytes,
/// `new_v4` does not return.
#[verifier::external_body]
fn new_record_id() -> (id: String)
    ensures
        is_record_id(id@),
{
    uuid::Uuid::new_v4().to_string()
}

/// Name of the directory, in the application's directory, that holds the
/// lasting copies of recordings.
pub fn audio_dir_name() -> (name: &'static str)
    ensures
        name@ == "audio_out"@,
{
    "audio_out"
}

/// Name of the lasting copy of the recording of the session with this
/// record.
pub fn audio_copy_name(record_id: &str) -> (name: String)
    ensures
        name@ == record_id@ + ".wav"@,
{
    String::from_str(record_id).concat(".wav")
}

/// Appends a command to a batch.
fn issue(commands: &mut Vec<WorkflowCommand>, command: WorkflowCommand)
    ensures
        final(commands).deep_view() == old(commands).deep_view().push(command@),
{
    commands.push(command);
    assert(commands.deep_view() =~= old(commands).deep_view().push(command@));
}

/// The stop workflow of one session.
pub struct Workflow {
    phase: WorkflowPhase,
    focus: Option<FocusHandle>,
    hold_time_ms: Option<u64>,
    artifact_path: String,
    api_key: String,
    save_history: bool,
    record_id: String,
    wav_path: Option<String>,
    transcript: Option<TranscriptionResult>,
}

impl View for Workflow {
    type V = WorkflowModel;

    closed spec fn view(&self) -> WorkflowModel {
        WorkflowModel {
            phase: self.phase,
            focus: self.focus,
            hold_time_ms: self.hold_time_ms,
            artifact_path: self.artifact_path@,
            api_key: self.api_key@,
            save_history: self.save_history,
            record_id: self.record_id@,
            wav_path: match self.wav_path {
                Some(path) => Some(path@),
                None => None,
            },
            transcript: match self.transcript {
                Some(result) => Some(result@),
                None => None,
            },
        }
    }
}

impl Workflow {
    /// Begins the workflow of a session whose recording lies at
    /// `artifact_path`.  `focus` is the window that had the focus when the
    /// session began, `hold_time_ms` how long the trigger was held.
    pub fn begin(
        focus: Option<FocusHandle>,
        hold_time_ms: Option<u64>,
        artifact_path: &str,
    ) -> (started: (Workflow, Vec<WorkflowCommand>))
        ensures
            started.0@ == begun(focus, hold_time_ms, artifact_path@),
            started.1.deep_view() == opening_steps(),
    {
        let workflow = Workflow {
            phase: WorkflowPhase::AwaitingStop,
            focus,
            hold_time_ms,
            artifact_path: String::from_str(artifact_path),
            api_key: String::new(),
            save_history: false,
            record_id: String::new(),
            wav_path: None,
            transcript: None,
        };
        let mut commands: Vec<WorkflowCommand> = Vec::new();
        commands.push(WorkflowCommand::StopCapture);
        assert(commands.deep_view() =~= opening_steps());
        (workflow, commands)
    }

    /// What the workflow waits for.
    pub fn phase(&self) -> (phase: WorkflowPhase)
        ensures
            phase == self@.phase,
    {
        self.phase
    }

    /// Whether the workflow is over.
    pub fn is_finished(&self) -> (finished: bool)
        ensures
            finished == (self@.phase == WorkflowPhase::Finished),
    {
        self.phase == WorkflowPhase::Finished
    }

    fn record(
        &self,
        transcript: &TranscriptionResult,
        now: Timestamp,
    ) -> (entry: TranscriptionEntry)
        ensures
            entry@ == session_record(self@, transcript@, now),
    {
        TranscriptionEntry {
            id: self.record_id.clone(),
            timestamp: now,
            text: transcript.text.clone(),
            round_trip_ms: Some(transcript.round_trip_ms),
            hold_time_ms: self.hold_time_ms,
            status: transcript.status.clone(),
            wav_path: match &self.wav_path {
                Some(path) => Some(path.clone()),
                None => None,
            },
        }
    }

    fn close(
        &self,
        commands: &mut Vec<WorkflowCommand>,
        transcript: &TranscriptionResult,
        now: Timestamp,
    )
        ensures
            final(commands).deep_view() == old(commands).deep_view() + closing_steps(
                self@,
                transcript@,
                now,
            ),
    {
        if self.save_history {
            issue(commands, WorkflowCommand::SaveHistory(self.record(transcript, now)));
        } else {
            issue(commands, WorkflowCommand::DeleteArtifact);
        }
        assert(commands.deep_view() =~= old(commands).deep_view() + closing_steps(
            self@,
            transcript@,
            now,
        ));
    }

    /// Takes in a report, with `fresh_id` as the name for the session's
    /// record and `now` as the moment for its timestamp, and hands back what
    /// to do next.
    pub fn advance_with(
        &mut self,
        event: WorkflowEvent,
        fresh_id: String,
        now: Timestamp,
    ) -> (commands: Vec<WorkflowCommand>)
        ensures
            final(self)@ == step(old(self)@, event@, fresh_id@, now).0,
            commands.deep_view() == step(old(self)@, event@, fresh_id@, now).1,
    {
        let mut commands: Vec<WorkflowCommand> = Vec::new();
        let ghost before = self@;
        let ghost expected = step(before, event@, fresh_id@, now);
        assert(commands.deep_view() =~= Seq::<Step>::empty());
        match event {
            WorkflowEvent::CaptureStopped(outcome) => {
                if self.phase == WorkflowPhase::AwaitingStop {
                    match outcome {
                        Ok(()) => {
                            issue(&mut commands, WorkflowCommand::LoadSettings);
                            self.phase = WorkflowPhase::AwaitingSettings;
                        },
                        Err(reason) => {
                            issue(&mut commands, 
                                WorkflowCommand::Finish(Err(WorkflowError::CaptureFailed(reason))),
                            );
                            self.phase = WorkflowPhase::Finished;
                        },
                    }
                }
            },
            WorkflowEvent::SettingsLoaded(settings) => {
                if self.phase == WorkflowPhase::AwaitingSettings {
                    match settings.groq_api_key {
                        None => {
                            issue(&mut commands, 
                                WorkflowCommand::Emit(
                                    UiEvent::TranscriptionError(
                                        String::from_str("No Groq API key set"),
                                    ),
                                ),
                            );
                            issue(&mut commands, WorkflowCommand::Finish(Err(WorkflowError::NotConfigured)));
                            self.phase = WorkflowPhase::Finished;
                        },
                        Some(key) => {
                            if settings.save_history && settings.save_audio {
                                issue(&mut commands, 
                                    WorkflowCommand::CopyArtifact { record_id: fresh_id.clone() },
                                );
                                self.phase = WorkflowPhase::AwaitingCopy;
                            } else {
                                issue(&mut commands, 
                                    WorkflowCommand::Transcribe(
                                        transcription_request(
                                            self.artifact_path.as_str(),
                                            key.as_str(),
                                        ),
                                    ),
                                );
                                self.phase = WorkflowPhase::AwaitingTranscript;
                            }
                            self.api_key = key;
                            self.save_history = settings.save_history;
                            self.record_id = fresh_id;
                        },
                    }
                }
            },
            WorkflowEvent::ArtifactCopied(path) => {
                if self.phase == WorkflowPhase::AwaitingCopy {
                    issue(&mut commands, 
                        WorkflowCommand::Transcribe(
                            transcription_request(
                                self.artifact_path.as_str(),
                                self.api_key.as_str(),
                            ),
                        ),
                    );
                    self.wav_path = path;
                    self.phase = WorkflowPhase::AwaitingTranscript;
                }
            },
            WorkflowEvent::Transcribed(result) => {
                if self.phase == WorkflowPhase::AwaitingTranscript {
                    if result.has_text() {
                        issue(&mut commands, 
                            WorkflowCommand::Emit(UiEvent::TranscriptionResult(result.text.clone())),
                        );
                        match self.focus {
                            Some(handle) => {
                                issue(&mut commands, WorkflowCommand::RestoreFocus(handle));
                                issue(&mut commands, WorkflowCommand::Sleep { ms: FOCUS_SETTLE_MS });
                            },
                            None => {},
                        }
                        issue(&mut commands, WorkflowCommand::Inject(result.text.clone()));
                        self.focus = None;
                        self.phase = WorkflowPhase::AwaitingInjection;
                        self.transcript = Some(result);
                    } else {
                        let reason = match &result.error {
                            Some(reason) => reason.clone(),
                            None => String::from_str("Transcription failed"),
                        };
                        issue(&mut commands, 
                            WorkflowCommand::Emit(UiEvent::TranscriptionError(reason.clone())),
                        );
                        self.close(&mut commands, &result, now);
                        issue(&mut commands, 
                            WorkflowCommand::Finish(Err(WorkflowError::TranscriptionFailed(reason))),
                        );
                        self.phase = WorkflowPhase::Finished;
                        self.transcript = Some(result);
                    }
                }
            },
            WorkflowEvent::Injected(outcome) => {
                if self.phase == WorkflowPhase::AwaitingInjection {
                    let transcript = match &self.transcript {
                        Some(result) => Some(result.duplicate()),
                        None => None,
                    };
                    match transcript {
                        None => {},
                        Some(result) => {
                            match outcome {
                                Ok(()) => {
                                    issue(&mut commands, 
                                        WorkflowCommand::Emit(UiEvent::InjectionStatus(true)),
                                    );
                                    self.close(&mut commands, &result, now);
                                    issue(&mut commands, WorkflowCommand::Finish(Ok(())));
                                },
                                Err(error) => {
                                    issue(&mut commands, 
                                        WorkflowCommand::Emit(UiEvent::InjectionStatus(false)),
                                    );
                                    issue(&mut commands, 
                                        WorkflowCommand::Emit(
                                            UiEvent::InjectionError(error.message()),
                                        ),
                                    );
                                    self.close(&mut commands, &result, now);
                                    issue(&mut commands, 
                                        WorkflowCommand::Finish(
                                            Err(WorkflowError::InjectionFailed(error)),
                                        ),
                                    );
                                },
                            }
                            self.phase = WorkflowPhase::Finished;
                        },
                    }
                }
            },
        }
        assert(commands.deep_view() =~= expected.1);
        assert(self@ == expected.0);
        commands
    }

    /// Takes in a report and hands back what to do next.  The name for the
    /// session's record is drawn at random and the moment for its timestamp
    /// is read from the clock; but for these two, the outcome is that of
    /// `advance_with`.
    pub fn advance(&mut self, event: WorkflowEvent) -> (commands: Vec<WorkflowCommand>)
        ensures
            exists|fresh_id: Seq<char>, now: Timestamp|
                is_record_id(fresh_id) && clock_reading(now) && final(self)@ == (#[trigger] step(
                    old(self)@,
                    event@,
                    fresh_id,
                    now,
                )).0 && commands.deep_view() == step(old(self)@, event@, fresh_id, now).1,
    {
        let fresh_id = new_record_id();
        let now = current_time();
        self.advance_with(event, fresh_id, now)
    }
}

} // verus!

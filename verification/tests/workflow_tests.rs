use vwisper::events::PillState;
use vwisper::events::UiEvent;
use vwisper::focus::FocusHandle;
use vwisper::history::Timestamp;
use vwisper::history::TranscriptionEntry;
use vwisper::injection::init_text_injector;
use vwisper::injection::inject_text;
use vwisper::injection::InjectionCommand;
use vwisper::injection::InjectionError;
use vwisper::injection::InjectionEvent;
use vwisper::injection::Strategy;
use vwisper::injection::TextInjector;
use vwisper::session::SessionAction;
use vwisper::session::SessionMachine;
use vwisper::session::SessionState;
use vwisper::settings::Settings;
use vwisper::transcription::transcribe_audio;
use vwisper::transcription::transcription_request;
use vwisper::transcription::Exchange;
use vwisper::transcription::TranscriptionResult;
use vwisper::workflow::audio_copy_name;
use vwisper::workflow::audio_dir_name;
use vwisper::workflow::Workflow;
use vwisper::workflow::WorkflowCommand;
use vwisper::workflow::WorkflowError;
use vwisper::workflow::WorkflowEvent;
use vwisper::workflow::WorkflowPhase;
use vwisper::workflow::FOCUS_SETTLE_MS;

const PATH: &str = "/tmp/vwisper_audio_latest.wav";
const NOW: Timestamp = Timestamp { secs: 1_750_000_000, nanos: 123_456_789 };

fn settings(key: Option<&str>, save_history: bool, save_audio: bool) -> Settings {
    Settings { groq_api_key: key.map(|k| k.to_string()), save_history, save_audio }
}

fn success(text: &str, round_trip_ms: u64) -> TranscriptionResult {
    TranscriptionResult::success(text.to_string(), round_trip_ms)
}

fn failure(reason: &str, round_trip_ms: u64) -> TranscriptionResult {
    TranscriptionResult::failure(reason.to_string(), round_trip_ms)
}

fn step(workflow: &mut Workflow, event: WorkflowEvent) -> Vec<WorkflowCommand> {
    workflow.advance_with(event, "fresh-id".to_string(), NOW)
}

fn emit(event: UiEvent) -> WorkflowCommand {
    WorkflowCommand::Emit(event)
}

/// A workflow that waits for the transcript, with the given settings.
fn awaiting_transcript(
    focus: Option<FocusHandle>,
    hold_time_ms: Option<u64>,
    save_history: bool,
    save_audio: bool,
) -> Workflow {
    let (mut workflow, _) = Workflow::begin(focus, hold_time_ms, PATH);
    step(&mut workflow, WorkflowEvent::CaptureStopped(Ok(())));
    step(&mut workflow, WorkflowEvent::SettingsLoaded(settings(Some("key"), save_history, save_audio)));
    if save_history && save_audio {
        step(&mut workflow, WorkflowEvent::ArtifactCopied(Some("/cfg/audio_out/fresh-id.wav".to_string())));
    }
    assert_eq!(workflow.phase(), WorkflowPhase::AwaitingTranscript);
    workflow
}

fn record(text: &str, status: &str, round_trip_ms: u64, hold: Option<u64>, wav: Option<&str>) -> TranscriptionEntry {
    TranscriptionEntry {
        id: "fresh-id".to_string(),
        timestamp: NOW,
        text: text.to_string(),
        round_trip_ms: Some(round_trip_ms),
        hold_time_ms: hold,
        status: status.to_string(),
        wav_path: wav.map(|w| w.to_string()),
    }
}

#[test]
fn workflow_begins_by_stopping_the_capture() {
    let (workflow, commands) = Workflow::begin(None, None, PATH);
    assert_eq!(commands, vec![WorkflowCommand::StopCapture]);
    assert_eq!(workflow.phase(), WorkflowPhase::AwaitingStop);
    assert!(!workflow.is_finished());
    assert_eq!(FOCUS_SETTLE_MS, 100);
}

#[test]
fn stopped_capture_leads_to_the_settings() {
    let (mut workflow, _) = Workflow::begin(None, None, PATH);
    assert_eq!(
        step(&mut workflow, WorkflowEvent::CaptureStopped(Ok(()))),
        vec![WorkflowCommand::LoadSettings]
    );
    assert_eq!(workflow.phase(), WorkflowPhase::AwaitingSettings);
}

#[test]
fn capture_that_does_not_stop_ends_the_workflow() {
    let (mut workflow, _) = Workflow::begin(None, None, PATH);
    assert_eq!(
        step(&mut workflow, WorkflowEvent::CaptureStopped(Err("finalize failed".to_string()))),
        vec![WorkflowCommand::Finish(Err(WorkflowError::CaptureFailed(
            "finalize failed".to_string()
        )))]
    );
    assert!(workflow.is_finished());
}

#[test]
fn missing_key_fails_at_once_without_a_request() {
    let (mut workflow, _) = Workflow::begin(Some(FocusHandle::new(4)), Some(900), PATH);
    step(&mut workflow, WorkflowEvent::CaptureStopped(Ok(())));
    let commands = step(&mut workflow, WorkflowEvent::SettingsLoaded(settings(None, true, true)));
    assert_eq!(
        commands,
        vec![
            emit(UiEvent::TranscriptionError("No Groq API key set".to_string())),
            WorkflowCommand::Finish(Err(WorkflowError::NotConfigured)),
        ]
    );
    assert!(workflow.is_finished());
}

#[test]
fn with_a_key_and_nothing_kept_the_service_is_asked() {
    let (mut workflow, _) = Workflow::begin(None, None, PATH);
    step(&mut workflow, WorkflowEvent::CaptureStopped(Ok(())));
    for (save_history, save_audio) in [(false, false), (true, false), (false, true)] {
        let (mut workflow, _) = Workflow::begin(None, None, PATH);
        step(&mut workflow, WorkflowEvent::CaptureStopped(Ok(())));
        let commands = step(
            &mut workflow,
            WorkflowEvent::SettingsLoaded(settings(Some("key"), save_history, save_audio)),
        );
        assert_eq!(commands, vec![WorkflowCommand::Transcribe(transcription_request(PATH, "key"))]);
        assert_eq!(workflow.phase(), WorkflowPhase::AwaitingTranscript);
    }
}

#[test]
fn with_history_and_audio_kept_the_recording_is_copied_first() {
    let (mut workflow, _) = Workflow::begin(None, None, PATH);
    step(&mut workflow, WorkflowEvent::CaptureStopped(Ok(())));
    let commands = step(&mut workflow, WorkflowEvent::SettingsLoaded(settings(Some("key"), true, true)));
    assert_eq!(commands, vec![WorkflowCommand::CopyArtifact { record_id: "fresh-id".to_string() }]);
    assert_eq!(workflow.phase(), WorkflowPhase::AwaitingCopy);
    let commands = step(&mut workflow, WorkflowEvent::ArtifactCopied(None));
    assert_eq!(commands, vec![WorkflowCommand::Transcribe(transcription_request(PATH, "key"))]);
    assert_eq!(workflow.phase(), WorkflowPhase::AwaitingTranscript);
}

#[test]
fn hello_world_restores_focus_then_injects() {
    let mut workflow = awaiting_transcript(Some(FocusHandle::new(42)), Some(2000), false, false);
    let commands = step(&mut workflow, WorkflowEvent::Transcribed(success("hello world", 300)));
    assert_eq!(
        commands,
        vec![
            emit(UiEvent::TranscriptionResult("hello world".to_string())),
            WorkflowCommand::RestoreFocus(FocusHandle::new(42)),
            WorkflowCommand::Sleep { ms: 100 },
            WorkflowCommand::Inject("hello world".to_string()),
        ]
    );
    assert_eq!(workflow.phase(), WorkflowPhase::AwaitingInjection);
}

#[test]
fn without_a_focus_handle_the_text_is_injected_right_away() {
    let mut workflow = awaiting_transcript(None, None, false, false);
    let commands = step(&mut workflow, WorkflowEvent::Transcribed(success("hello world", 300)));
    assert_eq!(
        commands,
        vec![
            emit(UiEvent::TranscriptionResult("hello world".to_string())),
            WorkflowCommand::Inject("hello world".to_string()),
        ]
    );
}

#[test]
fn failed_transcription_never_injects() {
    let mut workflow = awaiting_transcript(Some(FocusHandle::new(42)), Some(2000), false, false);
    let commands = step(
        &mut workflow,
        WorkflowEvent::Transcribed(failure("Groq API error: 500 Internal Server Error - ", 80)),
    );
    assert_eq!(
        commands,
        vec![
            emit(UiEvent::TranscriptionError(
                "Groq API error: 500 Internal Server Error - ".to_string()
            )),
            WorkflowCommand::DeleteArtifact,
            WorkflowCommand::Finish(Err(WorkflowError::TranscriptionFailed(
                "Groq API error: 500 Internal Server Error - ".to_string()
            ))),
        ]
    );
    assert!(workflow.is_finished());
    assert!(commands.iter().all(|c| !matches!(c, WorkflowCommand::Inject(_))));
    // and no report brings it back
    let later = step(&mut workflow, WorkflowEvent::Injected(Ok(())));
    assert_eq!(later, vec![]);
}

#[test]
fn empty_transcript_counts_as_failed() {
    let mut workflow = awaiting_transcript(None, None, true, false);
    let commands = step(&mut workflow, WorkflowEvent::Transcribed(success("", 80)));
    assert_eq!(
        commands,
        vec![
            emit(UiEvent::TranscriptionError("Transcription failed".to_string())),
            WorkflowCommand::SaveHistory(record("", "success", 80, None, None)),
            WorkflowCommand::Finish(Err(WorkflowError::TranscriptionFailed(
                "Transcription failed".to_string()
            ))),
        ]
    );
}

#[test]
fn successful_injection_is_reported_and_recorded() {
    let mut workflow = awaiting_transcript(Some(FocusHandle::new(1)), Some(1500), true, true);
    step(&mut workflow, WorkflowEvent::Transcribed(success("hello world", 300)));
    let commands = step(&mut workflow, WorkflowEvent::Injected(Ok(())));
    assert_eq!(
        commands,
        vec![
            emit(UiEvent::InjectionStatus(true)),
            WorkflowCommand::SaveHistory(record(
                "hello world",
                "success",
                300,
                Some(1500),
                Some("/cfg/audio_out/fresh-id.wav")
            )),
            WorkflowCommand::Finish(Ok(())),
        ]
    );
    assert!(workflow.is_finished());
}

#[test]
fn failed_injection_is_reported_with_its_reason() {
    let mut workflow = awaiting_transcript(None, None, false, true);
    step(&mut workflow, WorkflowEvent::Transcribed(success("hello", 300)));
    let commands = step(
        &mut workflow,
        WorkflowEvent::Injected(Err(InjectionError::InjectionFailed("Failed to inject text: x".to_string()))),
    );
    assert_eq!(
        commands,
        vec![
            emit(UiEvent::InjectionStatus(false)),
            emit(UiEvent::InjectionError("Failed to inject text: x".to_string())),
            WorkflowCommand::DeleteArtifact,
            WorkflowCommand::Finish(Err(WorkflowError::InjectionFailed(
                InjectionError::InjectionFailed("Failed to inject text: x".to_string())
            ))),
        ]
    );
}

#[test]
fn injector_that_is_not_ready_is_reported_too() {
    let mut workflow = awaiting_transcript(None, None, false, false);
    step(&mut workflow, WorkflowEvent::Transcribed(success("hello", 300)));
    let commands = step(&mut workflow, WorkflowEvent::Injected(Err(InjectionError::NotInitialized)));
    assert_eq!(
        commands[1],
        emit(UiEvent::InjectionError(
            "Text injector not initialized. Please restart the application.".to_string()
        ))
    );
    assert_eq!(
        commands[3],
        WorkflowCommand::Finish(Err(WorkflowError::InjectionFailed(InjectionError::NotInitialized)))
    );
}

#[test]
fn record_is_kept_only_where_a_journal_is_kept() {
    for save_audio in [false, true] {
        let mut workflow = awaiting_transcript(None, Some(10), false, save_audio);
        let commands = step(&mut workflow, WorkflowEvent::Transcribed(failure("down", 1)));
        assert_eq!(commands[1], WorkflowCommand::DeleteArtifact);
    }
    let mut workflow = awaiting_transcript(None, Some(10), true, false);
    let commands = step(&mut workflow, WorkflowEvent::Transcribed(failure("down", 1)));
    assert_eq!(
        commands[1],
        WorkflowCommand::SaveHistory(record("", "error", 1, Some(10), None))
    );
}

#[test]
fn workflow_reports_out_of_turn_change_nothing() {
    let (mut workflow, _) = Workflow::begin(None, None, PATH);
    assert_eq!(step(&mut workflow, WorkflowEvent::SettingsLoaded(settings(Some("k"), true, true))), vec![]);
    assert_eq!(step(&mut workflow, WorkflowEvent::ArtifactCopied(None)), vec![]);
    assert_eq!(step(&mut workflow, WorkflowEvent::Transcribed(success("x", 1))), vec![]);
    assert_eq!(step(&mut workflow, WorkflowEvent::Injected(Ok(()))), vec![]);
    assert_eq!(workflow.phase(), WorkflowPhase::AwaitingStop);
    step(&mut workflow, WorkflowEvent::CaptureStopped(Ok(())));
    assert_eq!(step(&mut workflow, WorkflowEvent::CaptureStopped(Ok(()))), vec![]);
    assert_eq!(workflow.phase(), WorkflowPhase::AwaitingSettings);
}

#[test]
fn workflow_error_messages() {
    assert_eq!(WorkflowError::NotConfigured.message(), "No Groq API key set");
    assert_eq!(WorkflowError::CaptureFailed("a".to_string()).message(), "a");
    assert_eq!(WorkflowError::TranscriptionFailed("b".to_string()).message(), "b");
    assert_eq!(
        WorkflowError::InjectionFailed(InjectionError::EmptyInput).message(),
        "Cannot inject empty text"
    );
}

#[test]
fn lasting_copies_are_named_after_the_record() {
    assert_eq!(audio_dir_name(), "audio_out");
    assert_eq!(audio_copy_name("0a1b"), "0a1b.wav");
}

#[test]
fn advance_names_the_record_and_reads_the_clock() {
    let (mut workflow, _) = Workflow::begin(None, Some(700), PATH);
    assert_eq!(workflow.advance(WorkflowEvent::CaptureStopped(Ok(()))), vec![WorkflowCommand::LoadSettings]);
    let commands = workflow.advance(WorkflowEvent::SettingsLoaded(settings(Some("key"), true, true)));
    let id = match &commands[..] {
        [WorkflowCommand::CopyArtifact { record_id }] => record_id.clone(),
        _ => panic!("the recording is to be copied"),
    };
    assert_eq!(id.len(), 36);
    for (at, c) in id.chars().enumerate() {
        if at == 8 || at == 13 || at == 18 || at == 23 {
            assert_eq!(c, '-');
        } else {
            assert!(c.is_ascii_hexdigit() && !c.is_ascii_uppercase());
        }
    }
    workflow.advance(WorkflowEvent::ArtifactCopied(Some("/cfg/a.wav".to_string())));
    let commands = workflow.advance(WorkflowEvent::Transcribed(failure("down", 5)));
    match &commands[1] {
        WorkflowCommand::SaveHistory(entry) => {
            assert_eq!(entry.id, id);
            assert!(entry.timestamp.secs > 1_600_000_000);
            assert!(entry.timestamp.nanos < 1_000_000_000);
            assert_eq!(entry.text, "");
            assert_eq!(entry.round_trip_ms, Some(5));
            assert_eq!(entry.hold_time_ms, Some(700));
            assert_eq!(entry.status, "error");
            assert_eq!(entry.wav_path, Some("/cfg/a.wav".to_string()));
        }
        _ => panic!("the record goes to the journal"),
    }
}

#[test]
fn two_sessions_get_two_record_names() {
    let mut ids = Vec::new();
    for _ in 0..2 {
        let (mut workflow, _) = Workflow::begin(None, None, PATH);
        workflow.advance(WorkflowEvent::CaptureStopped(Ok(())));
        let commands = workflow.advance(WorkflowEvent::SettingsLoaded(settings(Some("key"), true, true)));
        match &commands[0] {
            WorkflowCommand::CopyArtifact { record_id } => ids.push(record_id.clone()),
            _ => panic!("the recording is to be copied"),
        }
    }
    assert_ne!(ids[0], ids[1]);
}

/// Plays a whole session: the trigger goes down at 1000 and up at 3000, and
/// the caller answers the workflow from `settings` and `exchange`.  Returns
/// everything the host was told, and how long the outcome was shown.
fn play_session(
    configured: Settings,
    exchange: Option<Exchange>,
) -> (Vec<(String, String)>, Vec<String>, Vec<String>, u64, SessionState) {
    let mut told: Vec<(String, String)> = Vec::new();
    let mut injected: Vec<String> = Vec::new();
    let mut order: Vec<String> = Vec::new();
    let mut exchange = exchange;
    let mut configured = Some(configured);
    let mut injector = TextInjector::new();
    init_text_injector(&mut injector, Ok(())).unwrap();

    let mut machine = SessionMachine::new(0);
    let mut run = None;
    for (pressed, now) in [(false, 985u64), (true, 1000), (true, 2000), (false, 3000)] {
        for action in machine.poll(pressed, now) {
            match action {
                SessionAction::CaptureFocus => machine.focus_captured(FocusHandle::new(7)),
                SessionAction::EmitPillState(state) => {
                    told.push(("pill-state".to_string(), state.name().to_string()))
                }
                SessionAction::EmitStartRecording => {
                    told.push(("start-recording".to_string(), String::new()))
                }
                SessionAction::EmitStopRecording => {
                    told.push(("stop-recording".to_string(), String::new()))
                }
                SessionAction::RunWorkflow { focus, hold_time_ms } => run = Some((focus, hold_time_ms)),
                _ => {}
            }
        }
    }
    assert_eq!(machine.state(), SessionState::Stopping);
    let (focus, hold_time_ms) = run.unwrap();
    assert_eq!(hold_time_ms, Some(2000));

    let (mut workflow, mut commands) = Workflow::begin(focus, hold_time_ms, PATH);
    let mut outcome = None;
    while outcome.is_none() {
        let mut report = None;
        for command in commands {
            match command {
                WorkflowCommand::StopCapture => report = Some(WorkflowEvent::CaptureStopped(Ok(()))),
                WorkflowCommand::LoadSettings => {
                    report = Some(WorkflowEvent::SettingsLoaded(configured.take().unwrap()))
                }
                WorkflowCommand::CopyArtifact { .. } => report = Some(WorkflowEvent::ArtifactCopied(None)),
                WorkflowCommand::Transcribe(_) => {
                    order.push("transcribe".to_string());
                    report = Some(WorkflowEvent::Transcribed(transcribe_audio(exchange.take().unwrap())))
                }
                WorkflowCommand::Emit(event) => told.push((event.name().to_string(), event.payload())),
                WorkflowCommand::RestoreFocus(handle) => {
                    assert_eq!(handle, FocusHandle::new(7));
                    order.push("restore-focus".to_string())
                }
                WorkflowCommand::Sleep { .. } => {}
                WorkflowCommand::Inject(text) => {
                    order.push("inject".to_string());
                    let mut injection = inject_text(&injector, &text, Strategy::WholeText).unwrap();
                    let result = loop {
                        match injection.command() {
                            InjectionCommand::Finish(result) => break result,
                            InjectionCommand::TypeText(typed) => injected.push(typed),
                            _ => {}
                        }
                        injection.advance(InjectionEvent::Done);
                    };
                    report = Some(WorkflowEvent::Injected(result))
                }
                WorkflowCommand::SaveHistory(_) | WorkflowCommand::DeleteArtifact => {}
                WorkflowCommand::Finish(result) => outcome = Some(result),
            }
        }
        commands = match report {
            Some(event) if outcome.is_none() => workflow.advance(event),
            _ => Vec::new(),
        };
    }
    let mut dwell = 0;
    for action in machine.workflow_finished(outcome.unwrap().is_ok()) {
        match action {
            SessionAction::EmitPillState(state) => {
                told.push(("pill-state".to_string(), state.name().to_string()))
            }
            SessionAction::Dwell { ms } => dwell = ms,
            _ => {}
        }
    }
    let shown = machine.state();
    for action in machine.dwell_elapsed() {
        if let SessionAction::EmitPillState(state) = action {
            told.push(("pill-state".to_string(), state.name().to_string()))
        }
    }
    assert_eq!(machine.state(), SessionState::Idle);
    (told, injected, order, dwell, shown)
}

fn told(pairs: &[(&str, &str)]) -> Vec<(String, String)> {
    pairs.iter().map(|(name, payload)| (name.to_string(), payload.to_string())).collect()
}

#[test]
fn a_session_from_press_to_idle() {
    let exchange = Exchange::Reply {
        status: 200,
        status_line: "200 OK".to_string(),
        body: "{\"text\": \"test\"}".to_string(),
        round_trip_ms: 300,
    };
    let (events, injected, order, dwell, shown) =
        play_session(settings(Some("key"), false, false), Some(exchange));
    assert_eq!(
        events,
        told(&[
            ("pill-state", "listening"),
            ("start-recording", ""),
            ("pill-state", "loading"),
            ("stop-recording", ""),
            ("transcription-result", "test"),
            ("injection-status", "success"),
            ("pill-state", "success"),
            ("pill-state", "idle"),
        ])
    );
    assert_eq!(injected, vec!["test".to_string()]);
    assert_eq!(order, vec!["transcribe".to_string(), "restore-focus".to_string(), "inject".to_string()]);
    assert_eq!(shown, SessionState::Success);
    assert_eq!(dwell, 500);
}

#[test]
fn a_session_without_a_key_ends_in_error() {
    let (events, injected, order, dwell, shown) = play_session(settings(None, true, true), None);
    assert_eq!(
        events,
        told(&[
            ("pill-state", "listening"),
            ("start-recording", ""),
            ("pill-state", "loading"),
            ("stop-recording", ""),
            ("transcription-error", "No Groq API key set"),
            ("pill-state", "error"),
            ("pill-state", "idle"),
        ])
    );
    assert!(injected.is_empty());
    assert!(order.is_empty());
    assert_eq!(shown, SessionState::Error);
    assert_eq!(dwell, 3000);
}

#[test]
fn a_session_whose_transcription_fails_ends_in_error() {
    let exchange = Exchange::NoReply { reason: "timed out".to_string(), round_trip_ms: 30_000 };
    let (events, injected, order, dwell, shown) =
        play_session(settings(Some("key"), true, false), Some(exchange));
    assert_eq!(events[4], ("transcription-error".to_string(), "timed out".to_string()));
    assert_eq!(events[5], ("pill-state".to_string(), PillState::Error.name().to_string()));
    assert!(injected.is_empty());
    assert_eq!(order, vec!["transcribe".to_string()]);
    assert_eq!(shown, SessionState::Error);
    assert_eq!(dwell, 3000);
}

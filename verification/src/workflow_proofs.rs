//! What holds of every workflow, whatever its caller reports.

use vstd::prelude::*;
use crate::events::UiEventView;
use crate::history::Timestamp;
use crate::transcription::request_for;
use crate::transcription::usable_text;
use crate::workflow::closing_steps;
use crate::workflow::not_configured_message;
use crate::workflow::restore_steps;
use crate::workflow::session_record;
use crate::workflow::step;
use crate::workflow::transcript_failure;
use crate::workflow::Report;
use crate::workflow::Step;
use crate::workflow::WorkflowFailure;
use crate::workflow::WorkflowModel;
use crate::workflow::WorkflowPhase;
use crate::workflow::FOCUS_SETTLE_MS;

verus! {

/// An upper bound on the reports that a workflow still waits for.
pub open spec fn reports_left(phase: WorkflowPhase) -> nat {
    match phase {
        WorkflowPhase::AwaitingStop => 5,
        WorkflowPhase::AwaitingSettings => 4,
        WorkflowPhase::AwaitingCopy => 3,
        WorkflowPhase::AwaitingTranscript => 2,
        WorkflowPhase::AwaitingInjection => 1,
        WorkflowPhase::Finished => 0,
    }
}

/// What a workflow holds while it waits for the injection: the transcript
/// that is being injected.
pub open spec fn on_course(m: WorkflowModel) -> bool {
    m.phase == WorkflowPhase::AwaitingInjection ==> m.transcript is Some && usable_text(
        m.transcript->0,
    )
}

/// The batch that answers a usable transcript: tell the host, give the focus
/// back if there is a window to give it to, inject.
proof fn lemma_usable_transcript_batch(
    m: WorkflowModel,
    report: Report,
    fresh_id: Seq<char>,
    now: Timestamp,
)
    requires
        m.phase == WorkflowPhase::AwaitingTranscript,
        report is Transcribed,
        usable_text(report->Transcribed_0),
    ensures
        ({
            let text = report->Transcribed_0.text;
            let steps = step(m, report, fresh_id, now).1;
            match m.focus {
                Some(handle) => steps =~= seq![
                    Step::Emit(UiEventView::TranscriptionResult(text)),
                    Step::RestoreFocus(handle),
                    Step::Sleep { ms: FOCUS_SETTLE_MS },
                    Step::Inject(text),
                ],
                None => steps =~= seq![
                    Step::Emit(UiEventView::TranscriptionResult(text)),
                    Step::Inject(text),
                ],
            }
        }),
{
    let text = report->Transcribed_0.text;
    assert(step(m, report, fresh_id, now).1 == seq![
        Step::Emit(UiEventView::TranscriptionResult(text)),
    ] + restore_steps(m.focus) + seq![Step::Inject(text)]);
}

/// A text is injected only after the service gave one, and the focus goes
/// back first: a batch holds an `Inject` only when it answers a transcript
/// that is a success with a text; the text injected is the transcript's; the
/// `Inject` is the last command of its batch; and where the session has a
/// focus handle, the batch restores the focus to it and waits before it
/// injects.
pub proof fn lemma_injection_follows_transcription(
    m: WorkflowModel,
    report: Report,
    fresh_id: Seq<char>,
    now: Timestamp,
    i: int,
)
    requires
        0 <= i < step(m, report, fresh_id, now).1.len(),
        step(m, report, fresh_id, now).1[i] is Inject,
    ensures
        m.phase == WorkflowPhase::AwaitingTranscript,
        report is Transcribed,
        usable_text(report->Transcribed_0),
        step(m, report, fresh_id, now).1[i] == Step::Inject(report->Transcribed_0.text),
        i == step(m, report, fresh_id, now).1.len() - 1,
        m.focus is Some ==> i == 3 && step(m, report, fresh_id, now).1[1] == Step::RestoreFocus(
            m.focus->0,
        ) && step(m, report, fresh_id, now).1[2] == (Step::Sleep { ms: FOCUS_SETTLE_MS }),
        step(m, report, fresh_id, now).0.phase == WorkflowPhase::AwaitingInjection,
        step(m, report, fresh_id, now).0.focus is None,
{
    if m.phase == WorkflowPhase::AwaitingTranscript && report is Transcribed {
        if usable_text(report->Transcribed_0) {
            lemma_usable_transcript_batch(m, report, fresh_id, now);
        } else {
            lemma_transcript_without_text_closes(m, report, fresh_id, now);
        }
    } else if m.phase == WorkflowPhase::AwaitingInjection && report is Injected
        && m.transcript is Some {
        lemma_injection_report_closes(m, report, fresh_id, now);
    }
}

/// The batch that answers a transcript without usable text: tell the host
/// why, deal with the record and the recording, finish as failed.
proof fn lemma_transcript_without_text_closes(
    m: WorkflowModel,
    report: Report,
    fresh_id: Seq<char>,
    now: Timestamp,
)
    requires
        m.phase == WorkflowPhase::AwaitingTranscript,
        report is Transcribed,
        !usable_text(report->Transcribed_0),
    ensures
        ({
            let transcript = report->Transcribed_0;
            let reason = transcript_failure(transcript);
            step(m, report, fresh_id, now).1 =~= seq![
                Step::Emit(UiEventView::TranscriptionError(reason)),
                closing_steps(m, transcript, now)[0],
                Step::Finish(Some(WorkflowFailure::TranscriptionFailed(reason))),
            ]
        }),
        closing_steps(m, report->Transcribed_0, now).len() == 1,
        !(closing_steps(m, report->Transcribed_0, now)[0] is Inject),
{
}

/// The batch that answers the report on the injection.
proof fn lemma_injection_report_closes(
    m: WorkflowModel,
    report: Report,
    fresh_id: Seq<char>,
    now: Timestamp,
)
    requires
        m.phase == WorkflowPhase::AwaitingInjection,
        report is Injected,
        m.transcript is Some,
    ensures
        ({
            let steps = step(m, report, fresh_id, now).1;
            let closing = closing_steps(m, m.transcript->0, now)[0];
            match report->Injected_0 {
                None => steps =~= seq![
                    Step::Emit(UiEventView::InjectionStatus(true)),
                    closing,
                    Step::Finish(None),
                ],
                Some(failure) => steps =~= seq![
                    Step::Emit(UiEventView::InjectionStatus(false)),
                    Step::Emit(
                        UiEventView::InjectionError(crate::injection::failure_message(failure)),
                    ),
                    closing,
                    Step::Finish(Some(WorkflowFailure::InjectionFailed(failure))),
                ],
            }
        }),
        closing_steps(m, m.transcript->0, now).len() == 1,
        !(closing_steps(m, m.transcript->0, now)[0] is Inject),
{
}

/// After a transcription that failed or gave no text, nothing is injected:
/// the batch tells the host why, deals with the record and the recording,
/// and finishes the workflow as failed.
pub proof fn lemma_failed_transcription_injects_nothing(
    m: WorkflowModel,
    report: Report,
    fresh_id: Seq<char>,
    now: Timestamp,
)
    requires
        m.phase == WorkflowPhase::AwaitingTranscript,
        report is Transcribed,
        !usable_text(report->Transcribed_0),
    ensures
        forall|i: int|
            0 <= i < step(m, report, fresh_id, now).1.len() ==> !(#[trigger] step(
                m,
                report,
                fresh_id,
                now,
            ).1[i] is Inject),
        step(m, report, fresh_id, now).1.first() == Step::Emit(
            UiEventView::TranscriptionError(transcript_failure(report->Transcribed_0)),
        ),
        step(m, report, fresh_id, now).1.last() == Step::Finish(
            Some(WorkflowFailure::TranscriptionFailed(transcript_failure(report->Transcribed_0))),
        ),
        step(m, report, fresh_id, now).0.phase == WorkflowPhase::Finished,
{
    lemma_transcript_without_text_closes(m, report, fresh_id, now);
}

/// Without a key nothing is sent: the batch that answers settings without a
/// key tells the host that none is set and finishes the workflow as not
/// configured, and that is all it does.
pub proof fn lemma_missing_key_sends_nothing(
    m: WorkflowModel,
    report: Report,
    fresh_id: Seq<char>,
    now: Timestamp,
)
    requires
        m.phase == WorkflowPhase::AwaitingSettings,
        report is SettingsLoaded,
        report->SettingsLoaded_0.groq_api_key is None,
    ensures
        step(m, report, fresh_id, now).1 == seq![
            Step::Emit(UiEventView::TranscriptionError(not_configured_message())),
            Step::Finish(Some(WorkflowFailure::NotConfigured)),
        ],
        step(m, report, fresh_id, now).0.phase == WorkflowPhase::Finished,
{
}

/// The service is asked only with a key: a batch holds a `Transcribe` only
/// when a key is set, and the request carries that key and the path of the
/// session's recording.
pub proof fn lemma_service_asked_only_with_key(
    m: WorkflowModel,
    report: Report,
    fresh_id: Seq<char>,
    now: Timestamp,
    i: int,
)
    requires
        0 <= i < step(m, report, fresh_id, now).1.len(),
        step(m, report, fresh_id, now).1[i] is Transcribe,
    ensures
        (m.phase == WorkflowPhase::AwaitingSettings && report is SettingsLoaded
            && report->SettingsLoaded_0.groq_api_key is Some) || (m.phase
            == WorkflowPhase::AwaitingCopy && report is ArtifactCopied),
        step(m, report, fresh_id, now).1[i] == Step::Transcribe(
            request_for(m.artifact_path, step(m, report, fresh_id, now).0.api_key),
        ),
        step(m, report, fresh_id, now).0.phase == WorkflowPhase::AwaitingTranscript,
{
    if m.phase == WorkflowPhase::AwaitingTranscript && report is Transcribed {
        if usable_text(report->Transcribed_0) {
            lemma_usable_transcript_batch(m, report, fresh_id, now);
        } else {
            lemma_transcript_without_text_closes(m, report, fresh_id, now);
        }
    } else if m.phase == WorkflowPhase::AwaitingInjection && report is Injected
        && m.transcript is Some {
        lemma_injection_report_closes(m, report, fresh_id, now);
    }
}

/// A report that the workflow does not wait for changes nothing and asks for
/// nothing; one that it waits for brings it strictly nearer its end.
pub proof fn lemma_every_report_is_progress(
    m: WorkflowModel,
    report: Report,
    fresh_id: Seq<char>,
    now: Timestamp,
)
    ensures
        step(m, report, fresh_id, now).1.len() == 0 ==> step(m, report, fresh_id, now).0 == m,
        step(m, report, fresh_id, now).1.len() > 0 ==> reports_left(
            step(m, report, fresh_id, now).0.phase,
        ) < reports_left(m.phase),
{
    if m.phase == WorkflowPhase::AwaitingTranscript && report is Transcribed {
        if usable_text(report->Transcribed_0) {
            lemma_usable_transcript_batch(m, report, fresh_id, now);
        } else {
            lemma_transcript_without_text_closes(m, report, fresh_id, now);
        }
    } else if m.phase == WorkflowPhase::AwaitingInjection && report is Injected
        && m.transcript is Some {
        lemma_injection_report_closes(m, report, fresh_id, now);
    }
}

/// A workflow that is over stays over: it takes in no report and asks for
/// nothing more, so what was not asked for by then never is.
pub proof fn lemma_finished_asks_for_nothing(
    m: WorkflowModel,
    report: Report,
    fresh_id: Seq<char>,
    now: Timestamp,
)
    requires
        m.phase == WorkflowPhase::Finished,
    ensures
        step(m, report, fresh_id, now).0 == m,
        step(m, report, fresh_id, now).1 == Seq::<Step>::empty(),
{
}

/// A workflow finishes once: a batch holds a `Finish` exactly when it brings
/// the workflow to its end, and then `Finish` is its last command.
pub proof fn lemma_finish_ends_the_batch(
    m: WorkflowModel,
    report: Report,
    fresh_id: Seq<char>,
    now: Timestamp,
    i: int,
)
    requires
        0 <= i < step(m, report, fresh_id, now).1.len(),
    ensures
        step(m, report, fresh_id, now).1[i] is Finish <==> step(
            m,
            report,
            fresh_id,
            now,
        ).0.phase == WorkflowPhase::Finished && i == step(m, report, fresh_id, now).1.len() - 1,
        m.phase != WorkflowPhase::Finished,
{
    if m.phase == WorkflowPhase::AwaitingTranscript && report is Transcribed {
        if usable_text(report->Transcribed_0) {
            lemma_usable_transcript_batch(m, report, fresh_id, now);
        } else {
            lemma_transcript_without_text_closes(m, report, fresh_id, now);
        }
    } else if m.phase == WorkflowPhase::AwaitingInjection && report is Injected
        && m.transcript is Some {
        lemma_injection_report_closes(m, report, fresh_id, now);
    }
}

/// Whatever the outcome, once the service has answered, the session's record
/// goes to the journal if a journal is kept and the recording is deleted if
/// none is: the batch that finishes the workflow holds, right before its
/// `Finish`, the one or the other.
pub proof fn lemma_record_kept_or_recording_deleted(
    m: WorkflowModel,
    report: Report,
    fresh_id: Seq<char>,
    now: Timestamp,
)
    requires
        on_course(m),
        m.phase == WorkflowPhase::AwaitingTranscript || m.phase
            == WorkflowPhase::AwaitingInjection,
        step(m, report, fresh_id, now).0.phase == WorkflowPhase::Finished,
    ensures
        ({
            let steps = step(m, report, fresh_id, now).1;
            let transcript = step(m, report, fresh_id, now).0.transcript;
            &&& steps.len() >= 3
            &&& transcript is Some
            &&& steps[steps.len() - 2] == if m.save_history {
                Step::SaveHistory(session_record(m, transcript->0, now))
            } else {
                Step::DeleteArtifact
            }
        }),
{
    if m.phase == WorkflowPhase::AwaitingTranscript && report is Transcribed {
        if usable_text(report->Transcribed_0) {
            lemma_usable_transcript_batch(m, report, fresh_id, now);
        } else {
            lemma_transcript_without_text_closes(m, report, fresh_id, now);
        }
    } else if m.phase == WorkflowPhase::AwaitingInjection && report is Injected
        && m.transcript is Some {
        lemma_injection_report_closes(m, report, fresh_id, now);
    }
}

/// A workflow stays on course.
pub proof fn lemma_stays_on_course(
    m: WorkflowModel,
    report: Report,
    fresh_id: Seq<char>,
    now: Timestamp,
)
    requires
        on_course(m),
    ensures
        on_course(step(m, report, fresh_id, now).0),
{
}

} // verus!

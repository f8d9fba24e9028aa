//! The audio engine's bookkeeping: the frame buffer, the recording flag and
//! the state of the recording artifact.
//!
//! The engine never touches the device or the file itself.  Its caller opens
//! and finalizes the artifact and tells the engine how that went; the engine
//! says which samples belong in the artifact.

use vstd::prelude::*;
use vstd::string::StringExecFns;
use crate::decimate::decimate;
use crate::decimate::decimated;
use crate::text::joined;

verus! {

/// Sample rate of every recording artifact, in Hz.
pub const TARGET_SAMPLE_RATE: u32 = 16000;

/// Layout of a recording artifact.
#[derive(Clone, Copy, Debug, PartialEq, Eq, Structural)]
pub struct ArtifactFormat {
    pub channels: u16,
    pub sample_rate: u32,
    pub bits_per_sample: u16,
}

/// Every artifact is mono, 16 kHz, signed 16-bit PCM.
pub fn recording_format() -> (format: ArtifactFormat)
    ensures
        format == (ArtifactFormat {
            channels: 1,
            sample_rate: TARGET_SAMPLE_RATE,
            bits_per_sample: 16,
        }),
{
    ArtifactFormat { channels: 1, sample_rate: TARGET_SAMPLE_RATE, bits_per_sample: 16 }
}

/// Name of the artifact inside the temporary directory; each session
/// overwrites the one before.
pub fn artifact_file_name() -> (name: &'static str)
    ensures
        name@ == "vwisper_audio_latest.wav"@,
{
    "vwisper_audio_latest.wav"
}

/// A failure of the audio engine.
#[derive(Debug, PartialEq, Eq)]
pub enum AudioError {
    /// There is no input device, or it cannot be used.  Capture is off until
    /// it is started again.
    DeviceUnavailable(String),
    /// The artifact could not be opened or finalized; the text is the
    /// writer's own.
    Artifact(String),
}

/// An audio error, as plain values.
pub enum AudioFailure {
    DeviceUnavailable(Seq<char>),
    Artifact(Seq<char>),
}

impl View for AudioError {
    type V = AudioFailure;

    open spec fn view(&self) -> AudioFailure {
        match self {
            AudioError::DeviceUnavailable(reason) => AudioFailure::DeviceUnavailable(reason@),
            AudioError::Artifact(reason) => AudioFailure::Artifact(reason@),
        }
    }
}

/// The text shown for an audio error.
pub open spec fn audio_failure_message(failure: AudioFailure) -> Seq<char> {
    match failure {
        AudioFailure::DeviceUnavailable(reason) => reason,
        AudioFailure::Artifact(reason) => reason,
    }
}

impl AudioError {
    /// The text shown for this failure.
    pub fn message(&self) -> (text: String)
        ensures
            text@ == audio_failure_message(self@),
    {
        match self {
            AudioError::DeviceUnavailable(reason) => reason.clone(),
            AudioError::Artifact(reason) => reason.clone(),
        }
    }
}

/// What is known of the default input device: nothing if there is none, why
/// its configuration cannot be read, or its sample rate in Hz.
pub enum DeviceProbe {
    Missing,
    Unreadable(String),
    Rate(u32),
}

/// The failure that a probe stands for, if it stands for one: a missing
/// device, an unreadable configuration, or a device that claims to deliver
/// no samples at all.
pub open spec fn probe_failure(probe: DeviceProbe) -> Option<AudioFailure> {
    match probe {
        DeviceProbe::Missing => Some(
            AudioFailure::DeviceUnavailable("No default input device found"@),
        ),
        DeviceProbe::Unreadable(reason) => Some(
            AudioFailure::DeviceUnavailable("Failed to get default input config: "@ + reason@),
        ),
        DeviceProbe::Rate(rate) => if rate == 0 {
            Some(AudioFailure::DeviceUnavailable("Input device reports a sample rate of 0"@))
        } else {
            None
        },
    }
}

/// What an engine holds, as plain values.
pub struct EngineState<S> {
    /// Samples taken in and not yet drained.
    pub buffer: Seq<S>,
    /// An artifact is open and takes samples.
    pub artifact_open: bool,
    /// A session is being recorded.
    pub recording: bool,
    /// Sample rate of the input device, in Hz.
    pub native_rate: u32,
}

/// The engine after its artifact was closed.
pub open spec fn stopped<S>(state: EngineState<S>) -> EngineState<S> {
    EngineState { artifact_open: false, ..state }
}

/// Whether closing the engine's artifact leaves one to finalize.
pub open spec fn finalize_due<S>(state: EngineState<S>) -> bool {
    state.artifact_open
}

/// The audio engine of one input device.
pub struct AudioProcessor<S> {
    buffer: Vec<S>,
    artifact_open: bool,
    recording: bool,
    native_rate: u32,
}

impl<S> View for AudioProcessor<S> {
    type V = EngineState<S>;

    closed spec fn view(&self) -> EngineState<S> {
        EngineState {
            buffer: self.buffer@,
            artifact_open: self.artifact_open,
            recording: self.recording,
            native_rate: self.native_rate,
        }
    }
}

impl<S> AudioProcessor<S> {
    #[verifier::type_invariant]
    spec fn has_rate(&self) -> bool {
        self.native_rate > 0
    }
}

impl<S: Copy> AudioProcessor<S> {
    /// An idle engine for a device that delivers `native_sample_rate`
    /// samples per second.
    pub fn new(native_sample_rate: u32) -> (engine: Self)
        requires
            native_sample_rate > 0,
        ensures
            engine@ == (EngineState::<S> {
                buffer: Seq::empty(),
                artifact_open: false,
                recording: false,
                native_rate: native_sample_rate,
            }),
    {
        AudioProcessor {
            buffer: Vec::new(),
            artifact_open: false,
            recording: false,
            native_rate: native_sample_rate,
        }
    }

    /// An idle engine for the default input device as it was probed, or the
    /// reason why capture cannot begin.
    pub fn for_device(probe: DeviceProbe) -> (opened: Result<Self, AudioError>)
        ensures
            match probe_failure(probe) {
                Some(failure) => opened is Err && opened->Err_0@ == failure,
                None => opened is Ok && opened->Ok_0@ == (EngineState::<S> {
                    buffer: Seq::empty(),
                    artifact_open: false,
                    recording: false,
                    native_rate: probe->Rate_0,
                }),
            },
    {
        match probe {
            DeviceProbe::Missing => Err(
                AudioError::DeviceUnavailable(String::from_str("No default input device found")),
            ),
            DeviceProbe::Unreadable(reason) => Err(
                AudioError::DeviceUnavailable(
                    joined("Failed to get default input config: ", reason.as_str()),
                ),
            ),
            DeviceProbe::Rate(rate) => if rate == 0 {
                Err(
                    AudioError::DeviceUnavailable(
                        String::from_str("Input device reports a sample rate of 0"),
                    ),
                )
            } else {
                Ok(AudioProcessor::new(rate))
            },
        }
    }

    /// Starts a session on a freshly opened artifact.  `created` is the
    /// outcome of opening it: on success the artifact takes samples and the
    /// engine records; on failure nothing changes and the failure is handed
    /// back.
    pub fn start_recording(&mut self, created: Result<(), String>) -> (started: Result<(), AudioError>)
        ensures
            created is Ok ==> started is Ok && final(self)@ == (EngineState {
                artifact_open: true,
                recording: true,
                ..old(self)@
            }),
            created is Err ==> final(self)@ == old(self)@ && started is Err
                && started->Err_0@ == AudioFailure::Artifact(created->Err_0@),
    {
        proof {
            use_type_invariant(&*self);
        }
        match created {
            Ok(()) => {
                self.artifact_open = true;
                self.recording = true;
                Ok(())
            },
            Err(reason) => Err(AudioError::Artifact(reason)),
        }
    }

    /// Closes the artifact.  Says whether there was one to finalize; after
    /// the call none is open, so a second call in a row finds nothing to do
    /// and changes nothing.
    pub fn stop_recording(&mut self) -> (finalize: bool)
        ensures
            finalize == finalize_due(old(self)@),
            final(self)@ == stopped(old(self)@),
    {
        proof {
            use_type_invariant(&*self);
        }
        let finalize = self.artifact_open;
        self.artifact_open = false;
        finalize
    }

    /// Takes in the outcome of finalizing the artifact that `stop_recording`
    /// closed: on success the session is over; on failure the recording flag
    /// stays as it was and the failure is handed back.
    pub fn finish_recording(
        &mut self,
        finalized: Result<(), String>,
    ) -> (finished: Result<(), AudioError>)
        ensures
            finalized is Ok ==> finished is Ok && final(self)@ == (EngineState {
                recording: false,
                ..old(self)@
            }),
            finalized is Err ==> final(self)@ == old(self)@ && finished is Err
                && finished->Err_0@ == AudioFailure::Artifact(finalized->Err_0@),
    {
        proof {
            use_type_invariant(&*self);
        }
        match finalized {
            Ok(()) => {
                self.recording = false;
                Ok(())
            },
            Err(reason) => Err(AudioError::Artifact(reason)),
        }
    }

    /// Appends a chunk to the buffer, decimates the buffer to the target rate
    /// and drains it.
    pub fn process_audio(&mut self, samples: &[S]) -> (out: Vec<S>)
        ensures
            out@ == decimated(
                old(self)@.buffer + samples@,
                old(self)@.native_rate as int,
                TARGET_SAMPLE_RATE as int,
            ),
            final(self)@ == (EngineState { buffer: Seq::empty(), ..old(self)@ }),
    {
        proof {
            use_type_invariant(&*self);
        }
        let ghost before = self.buffer@;
        let mut chunk: Vec<S> = Vec::new();
        core::mem::swap(&mut self.buffer, &mut chunk);
        let mut i: usize = 0;
        while i < samples.len()
            invariant
                0 <= i <= samples@.len(),
                chunk@ == before + samples@.subrange(0, i as int),
            decreases samples@.len() - i,
        {
            chunk.push(samples[i]);
            i = i + 1;
            assert(chunk@ =~= before + samples@.subrange(0, i as int));
        }
        assert(samples@.subrange(0, i as int) =~= samples@);
        decimate(chunk.as_slice(), self.native_rate, TARGET_SAMPLE_RATE)
    }

    /// How many of `samples` the artifact takes: all of them while one is
    /// open, none otherwise.
    pub fn write_samples(&self, samples: &[S]) -> (accepted: usize)
        ensures
            accepted == if self@.artifact_open {
                samples@.len()
            } else {
                0
            },
    {
        if self.artifact_open {
            samples.len()
        } else {
            0
        }
    }

    /// Handles one chunk from the device: decimates it, and hands back the
    /// samples that go into the artifact, which are the decimated chunk while
    /// a session is recorded on an open artifact and nothing otherwise.
    pub fn capture_chunk(&mut self, samples: &[S]) -> (retained: Vec<S>)
        ensures
            retained@ == if old(self)@.recording && old(self)@.artifact_open {
                decimated(
                    old(self)@.buffer + samples@,
                    old(self)@.native_rate as int,
                    TARGET_SAMPLE_RATE as int,
                )
            } else {
                Seq::empty()
            },
            final(self)@ == (EngineState { buffer: Seq::empty(), ..old(self)@ }),
    {
        let downsampled = self.process_audio(samples);
        if self.recording && self.write_samples(downsampled.as_slice()) > 0 {
            downsampled
        } else {
            proof {
                if self.recording && self.artifact_open {
                    assert(downsampled@ =~= Seq::empty());
                }
            }
            Vec::new()
        }
    }

    /// Whether a session is being recorded.
    pub fn is_recording(&self) -> (recording: bool)
        ensures
            recording == self@.recording,
    {
        self.recording
    }

    /// Sample rate of the input device.
    pub fn native_rate(&self) -> (rate: u32)
        ensures
            rate == self@.native_rate,
            rate > 0,
    {
        proof {
            use_type_invariant(self);
        }
        self.native_rate
    }
}

/// Starts a session on the engine in `slot`, if the capture thread has put
/// one there; with an empty slot nothing happens and the outcome of opening
/// the artifact is dropped.
pub fn start_recording<S: Copy>(
    slot: &mut Option<AudioProcessor<S>>,
    created: Result<(), String>,
) -> (started: Result<(), AudioError>)
    ensures
        *old(slot) is None ==> *final(slot) is None && started is Ok,
        *old(slot) is Some && created is Ok ==> started is Ok && *final(slot) is Some
            && (*final(slot))->0@ == (EngineState {
            artifact_open: true,
            recording: true,
            ..(*old(slot))->0@
        }),
        *old(slot) is Some && created is Err ==> *final(slot) is Some
            && (*final(slot))->0@ == (*old(slot))->0@ && started is Err && started->Err_0@
            == AudioFailure::Artifact(created->Err_0@),
{
    match slot {
        Some(engine) => engine.start_recording(created),
        None => Ok(()),
    }
}

/// Closes the artifact of the engine in `slot`.  Says whether there is one
/// to finalize: never with an empty slot, nor right after another stop.
pub fn stop_recording<S: Copy>(slot: &mut Option<AudioProcessor<S>>) -> (finalize: bool)
    ensures
        *old(slot) is None ==> *final(slot) is None && !finalize,
        *old(slot) is Some ==> *final(slot) is Some && finalize == finalize_due((*old(slot))->0@)
            && (*final(slot))->0@ == stopped((*old(slot))->0@),
{
    match slot {
        Some(engine) => engine.stop_recording(),
        None => false,
    }
}

/// Stopping is idempotent: right after a stop, another one finds nothing to
/// finalize and leaves the engine as the first one left it.
pub proof fn lemma_second_stop_is_noop<S>(state: EngineState<S>)
    ensures
        !finalize_due(stopped(state)),
        stopped(stopped(state)) == stopped(state),
{
}

} // verus!

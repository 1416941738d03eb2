//! The recording session state machine and its guards.

use vstd::prelude::*;
use crate::audio_capture::{AudioCaptureError, VadAutoStopConfig};
use crate::prompts::{combine_prompt_sections, combined_prompt};
use crate::providers::{
    default_llm_config, select_llm_provider, select_stt_provider, setup_matches, stt_selection,
    wants_llm, LlmConfig,
    LlmError, LlmProviderSetup, SttProviderKind,
};
use crate::retry::{RetryConfig, SttError};
use crate::text::{str_trim, trimmed};
use crate::vad::{VadAggressiveness, VadConfig};
use vstd::string::StringExecFns;

verus! {

/// Default timeout for transcription requests, in milliseconds.
pub const DEFAULT_TRANSCRIPTION_TIMEOUT_MS: u64 = 60_000;

/// Maximum WAV size in bytes (50 MB).
pub const MAX_WAV_SIZE_BYTES: usize = 52_428_800;

/// Timeout of the rewrite phase, in milliseconds.
pub const REWRITE_TIMEOUT_MS: u64 = 30_000;

/// Errors that can occur in the recording pipeline.
#[derive(Debug, Clone)]
pub enum PipelineError {
    /// Audio capture failed.
    AudioCapture(AudioCaptureError),
    /// Transcription failed.
    Stt(SttError),
    /// Rewriting failed.
    Llm(LlmError),
    /// No transcription provider is configured.
    NoProvider,
    /// A session is already active.
    AlreadyRecording,
    /// No recording is in progress.
    NotRecording,
    /// The configuration is invalid.
    Config(String),
    /// The session state could not be locked.
    Lock(String),
    /// The operation was cancelled.
    Cancelled,
    /// Transcription timed out after the given number of milliseconds.
    Timeout(u64),
    /// The recording has more bytes (first) than the limit (second).
    RecordingTooLarge(usize, usize),
}

/// State of the recording pipeline. Exactly one session is active at a time;
/// the guards below decide which operations a state admits.
#[derive(Debug, Clone, Copy, PartialEq, Eq, Structural)]
pub enum PipelineState {
    /// Ready to start recording.
    Idle,
    /// Actively recording audio.
    Recording,
    /// Transcribing recorded audio.
    Transcribing,
    /// A failure occurred; a new recording may still be started.
    Error,
}

impl PipelineState {
    /// Whether a new recording may start from this state.
    pub open spec fn spec_can_start_recording(&self) -> bool {
        *self == PipelineState::Idle || *self == PipelineState::Error
    }

    /// Whether a recording may be stopped in this state.
    pub open spec fn spec_can_stop_recording(&self) -> bool {
        *self == PipelineState::Recording
    }

    /// Whether there is something to cancel in this state.
    pub open spec fn spec_can_cancel(&self) -> bool {
        *self == PipelineState::Recording || *self == PipelineState::Transcribing
    }

    /// Check if this state allows starting a new recording.
    #[verifier::when_used_as_spec(spec_can_start_recording)]
    pub fn can_start_recording(&self) -> (b: bool)
        ensures
            b == self.spec_can_start_recording(),
    {
        matches!(self, PipelineState::Idle | PipelineState::Error)
    }

    /// Check if this state allows stopping a recording.
    #[verifier::when_used_as_spec(spec_can_stop_recording)]
    pub fn can_stop_recording(&self) -> (b: bool)
        ensures
            b == self.spec_can_stop_recording(),
    {
        matches!(self, PipelineState::Recording)
    }

    /// Check if this state allows cancellation.
    #[verifier::when_used_as_spec(spec_can_cancel)]
    pub fn can_cancel(&self) -> (b: bool)
        ensures
            b == self.spec_can_cancel(),
    {
        matches!(self, PipelineState::Recording | PipelineState::Transcribing)
    }
}

/// Events emitted by the pipeline.
#[derive(Debug, Clone)]
pub enum PipelineEvent {
    /// Recording has started.
    RecordingStarted,
    /// Recording has stopped.
    RecordingStopped,
    /// Transcription is in progress.
    TranscriptionStarted,
    /// Final transcript received.
    TranscriptReady(String),
    /// An error occurred.
    Error(String),
}

/// Configuration for the recording pipeline.
#[derive(Debug, Clone)]
pub struct PipelineConfig {
    /// Maximum recording duration in seconds.
    pub max_duration_secs: u32,
    /// Transcription provider to use.
    pub stt_provider: String,
    /// API key for the transcription provider.
    pub stt_api_key: String,
    /// Optional model override for transcription.
    pub stt_model: Option<String>,
    /// Retry configuration for transcription requests.
    pub retry_config: RetryConfig,
    /// Detector auto-stop configuration.
    pub vad_config: VadAutoStopConfig,
    /// Timeout for transcription, in milliseconds.
    pub transcription_timeout_ms: u64,
    /// Maximum recording size in bytes (0 = no limit).
    pub max_recording_bytes: usize,
    /// Rewrite configuration.
    pub llm_config: LlmConfig,
    /// Path to a local Whisper model, if any.
    pub whisper_model_path: Option<String>,
}

impl Default for PipelineConfig {
    /// Five minutes of audio at most, provider `groq` without a key, one
    /// minute for transcription, 50 MB of audio, no rewriting.
    fn default() -> (c: Self)
        ensures
            c.max_duration_secs == 300,
            c.stt_provider@ == "groq"@,
            c.stt_api_key@.len() == 0,
            c.stt_model is None,
            c.retry_config == (RetryConfig {
                max_retries: 3,
                initial_delay_ms: 500,
                max_delay_ms: 10_000,
                retry_on_rate_limit: true,
            }),
            c.vad_config == (VadAutoStopConfig {
                enabled: false,
                auto_stop: false,
                vad_config: VadConfig {
                    aggressiveness: VadAggressiveness::Aggressive,
                    speech_frames_threshold: 3,
                    hangover_frames: 30,
                    pre_roll_ms: 300,
                    frame_duration_ms: 10,
                    sample_rate: 16000,
                },
            }),
            c.transcription_timeout_ms == DEFAULT_TRANSCRIPTION_TIMEOUT_MS,
            c.max_recording_bytes == MAX_WAV_SIZE_BYTES,
            default_llm_config(c.llm_config),
            c.whisper_model_path is None,
    {
        PipelineConfig {
            max_duration_secs: 300,
            stt_provider: String::from_str("groq"),
            stt_api_key: String::new(),
            stt_model: None,
            retry_config: RetryConfig::default(),
            vad_config: VadAutoStopConfig::default(),
            transcription_timeout_ms: DEFAULT_TRANSCRIPTION_TIMEOUT_MS,
            max_recording_bytes: MAX_WAV_SIZE_BYTES,
            llm_config: LlmConfig::default(),
            whisper_model_path: None,
        }
    }
}

/// How a race between cancellation, a deadline and an operation ended.
#[derive(Debug, Clone)]
pub enum RaceOutcome<T> {
    /// The session was cancelled.
    Cancelled,
    /// The deadline passed.
    TimedOut,
    /// The operation finished with this result.
    Finished(T),
}

/// The branch that wins when several are ready at once: cancellation before
/// the deadline, the deadline before the operation. `None` while none is
/// ready.
pub open spec fn race_winner<T>(cancelled: bool, timed_out: bool, finished: Option<T>) -> Option<
    RaceOutcome<T>,
> {
    if cancelled {
        Some(RaceOutcome::Cancelled)
    } else if timed_out {
        Some(RaceOutcome::TimedOut)
    } else {
        match finished {
            Some(result) => Some(RaceOutcome::Finished(result)),
            None => None,
        }
    }
}

/// Resolve a race between cancellation, a deadline and an operation, given
/// which of them are ready. Ties go to cancellation, then to the deadline.
pub fn resolve_race<T>(cancelled: bool, timed_out: bool, finished: Option<T>) -> (winner: Option<
    RaceOutcome<T>,
>)
    ensures
        winner == race_winner(cancelled, timed_out, finished),
{
    if cancelled {
        Some(RaceOutcome::Cancelled)
    } else if timed_out {
        Some(RaceOutcome::TimedOut)
    } else {
        match finished {
            Some(result) => Some(RaceOutcome::Finished(result)),
            None => None,
        }
    }
}

/// Outside work that ends a session early.
#[derive(Debug, Clone, Copy, PartialEq, Eq, Structural)]
pub struct Teardown {
    /// Signal the session's cancellation handle.
    pub signal_cancel: bool,
    /// Stop the audio capture.
    pub stop_capture: bool,
}

/// The rewrite step of a transcription job.
#[derive(Debug, Clone)]
pub struct RewriteJob {
    /// The provider to call.
    pub provider: LlmProviderSetup,
    /// The system prompt to send.
    pub system_prompt: String,
    /// Deadline of the rewrite phase, in milliseconds.
    pub timeout_ms: u64,
}

/// Everything the transcription phase needs, taken out of the session state
/// so that no later configuration change reaches a job in flight.
#[derive(Debug, Clone)]
pub struct TranscriptionJob {
    /// The recording as a WAV file.
    pub wav_bytes: Vec<u8>,
    /// The transcription provider to call.
    pub provider: SttProviderKind,
    /// The retry policy.
    pub retry_config: RetryConfig,
    /// Deadline of the transcription phase, in milliseconds.
    pub timeout_ms: u64,
    /// The rewrite step, if a rewrite provider is configured.
    pub rewrite: Option<RewriteJob>,
}

/// Whether a recording of `len` bytes exceeds the limit (0 = no limit).
pub open spec fn too_large(len: nat, max_bytes: usize) -> bool {
    max_bytes > 0 && len > max_bytes
}

/// The text a finished rewrite phase yields: the rewritten text on success,
/// the raw transcript on timeout or failure. Cancellation yields none.
pub open spec fn rewrite_result(
    transcript: String,
    outcome: RaceOutcome<Result<String, LlmError>>,
) -> Option<String> {
    match outcome {
        RaceOutcome::Cancelled => None,
        RaceOutcome::TimedOut => Some(transcript),
        RaceOutcome::Finished(Ok(formatted)) => Some(formatted),
        RaceOutcome::Finished(Err(_)) => Some(transcript),
    }
}

/// What a session keeps of the configuration it started under. A later
/// change of configuration does not reach it.
#[derive(Debug, Clone)]
pub struct SessionSettings {
    /// Maximum recording size in bytes (0 = no limit).
    pub max_recording_bytes: usize,
    /// The retry policy for transcription.
    pub retry_config: RetryConfig,
    /// Deadline of the transcription phase, in milliseconds.
    pub transcription_timeout_ms: u64,
    /// The transcription provider, if one is selected.
    pub stt_provider: Option<SttProviderKind>,
    /// The rewrite provider, if one is selected.
    pub llm_provider: Option<LlmProviderSetup>,
    /// The system prompt of the rewrite step.
    pub system_prompt: String,
}

/// What the rewrite phase is to do with a transcript.
#[derive(Debug, Clone)]
pub enum RewritePlan {
    /// No rewrite step: the transcript is final.
    Skip,
    /// The provider is not called; this text stands for its answer.
    Answer(String),
    /// Call the rewrite provider.
    Call,
}

/// Whether a transcript is blank: nothing is left of it without its
/// leading and trailing white space.
pub open spec fn blank(transcript: Seq<char>) -> bool {
    trimmed(transcript).len() == 0
}

/// Decide what the rewrite phase does: nothing without a rewrite step; for
/// a blank transcript the empty text stands for the provider's answer and
/// the provider is not called; otherwise the provider is called.
pub fn plan_rewrite(job: &TranscriptionJob, transcript: &str) -> (plan: RewritePlan)
    ensures
        match plan {
            RewritePlan::Skip => job.rewrite is None,
            RewritePlan::Answer(text) => job.rewrite is Some && blank(transcript@) && text@.len()
                == 0,
            RewritePlan::Call => job.rewrite is Some && !blank(transcript@),
        },
{
    if job.rewrite.is_none() {
        RewritePlan::Skip
    } else if str_trim(transcript).is_empty() {
        RewritePlan::Answer(String::new())
    } else {
        RewritePlan::Call
    }
}

/// The session state behind the pipeline's lock: the state machine, whether
/// the current session has a cancellation handle, the configuration and
/// the providers it selects for the next session, and what the session in
/// flight started with.
#[derive(Debug)]
pub struct PipelineInner {
    state: PipelineState,
    cancel_armed: bool,
    config: PipelineConfig,
    stt_provider: Option<SttProviderKind>,
    llm_provider: Option<LlmProviderSetup>,
    session: SessionSettings,
}

impl PipelineInner {
    /// The current state.
    pub closed spec fn spec_state(&self) -> PipelineState {
        self.state
    }

    /// Whether the current session has a cancellation handle.
    pub closed spec fn spec_cancel_armed(&self) -> bool {
        self.cancel_armed
    }

    /// The configuration that the next session starts under.
    pub closed spec fn spec_config(&self) -> PipelineConfig {
        self.config
    }

    /// The transcription provider selected for the next session.
    pub closed spec fn spec_stt_provider(&self) -> Option<SttProviderKind> {
        self.stt_provider
    }

    /// The rewrite provider selected for the next session.
    pub closed spec fn spec_llm_provider(&self) -> Option<LlmProviderSetup> {
        self.llm_provider
    }

    /// What the session in flight (or the last one) started with.
    pub closed spec fn spec_session(&self) -> SessionSettings {
        self.session
    }

    /// Whether the selected providers are those the configuration names.
    pub open spec fn providers_selected(&self) -> bool {
        &&& self.spec_stt_provider() == stt_selection(
            self.spec_config().stt_provider@,
            self.spec_config().stt_api_key@,
            self.spec_config().whisper_model_path is Some,
        )
        &&& self.spec_llm_provider() is Some <==> wants_llm(self.spec_config().llm_config)
        &&& self.spec_llm_provider() matches Some(s) ==> setup_matches(
            self.spec_config().llm_config,
            s,
        )
    }

    /// Whether `settings` are what a session takes when it starts now: the
    /// limits and the policy of the configuration, the selected providers
    /// and the combined system prompt.
    pub open spec fn starts_with(&self, settings: SessionSettings) -> bool {
        &&& settings.max_recording_bytes == self.spec_config().max_recording_bytes
        &&& settings.retry_config == self.spec_config().retry_config
        &&& settings.transcription_timeout_ms == self.spec_config().transcription_timeout_ms
        &&& settings.stt_provider == self.spec_stt_provider()
        &&& settings.llm_provider == self.spec_llm_provider()
        &&& settings.system_prompt@ == combined_prompt(self.spec_config().llm_config.prompts)
    }

    /// Whether the configuration and the selected providers are those of
    /// `before`.
    pub open spec fn same_setup(&self, before: &Self) -> bool {
        &&& self.spec_config() == before.spec_config()
        &&& self.spec_stt_provider() == before.spec_stt_provider()
        &&& self.spec_llm_provider() == before.spec_llm_provider()
    }

    /// Whether the session is in `state` with its handle as `armed`, and
    /// otherwise as `before`: same configuration, same providers, same
    /// session settings.
    pub open spec fn moved_to(&self, before: &Self, state: PipelineState, armed: bool) -> bool {
        &&& self.spec_state() == state
        &&& self.spec_cancel_armed() == armed
        &&& self.same_setup(before)
        &&& self.spec_session() == before.spec_session()
    }

    /// The settings that a session starting now takes.
    fn snapshot(&self) -> (settings: SessionSettings)
        ensures
            self.starts_with(settings),
    {
        SessionSettings {
            max_recording_bytes: self.config.max_recording_bytes,
            retry_config: self.config.retry_config,
            transcription_timeout_ms: self.config.transcription_timeout_ms,
            stt_provider: self.stt_provider,
            llm_provider: match &self.llm_provider {
                Some(setup) => Some(setup.duplicate()),
                None => None,
            },
            system_prompt: combine_prompt_sections(&self.config.llm_config.prompts),
        }
    }

    /// Create the session state for a configuration: idle, no cancellation
    /// handle, providers as configured.
    pub fn new(config: PipelineConfig) -> (inner: Self)
        ensures
            inner.spec_state() == PipelineState::Idle,
            !inner.spec_cancel_armed(),
            inner.spec_config() == config,
            inner.providers_selected(),
            inner.starts_with(inner.spec_session()),
    {
        let stt_provider = select_stt_provider(
            config.stt_provider.as_str(),
            config.stt_api_key.as_str(),
            config.whisper_model_path.is_some(),
        );
        let llm_provider = select_llm_provider(&config.llm_config);
        let session = SessionSettings {
            max_recording_bytes: config.max_recording_bytes,
            retry_config: config.retry_config,
            transcription_timeout_ms: config.transcription_timeout_ms,
            stt_provider,
            llm_provider: match &llm_provider {
                Some(setup) => Some(setup.duplicate()),
                None => None,
            },
            system_prompt: combine_prompt_sections(&config.llm_config.prompts),
        };
        PipelineInner {
            state: PipelineState::Idle,
            cancel_armed: false,
            config,
            stt_provider,
            llm_provider,
            session,
        }
    }

    /// Select, for the next session, the providers that the configuration
    /// names. The session in flight keeps its own.
    pub fn initialize_providers(&mut self)
        ensures
            final(self).providers_selected(),
            final(self).spec_config() == old(self).spec_config(),
            final(self).spec_state() == old(self).spec_state(),
            final(self).spec_cancel_armed() == old(self).spec_cancel_armed(),
            final(self).spec_session() == old(self).spec_session(),
    {
        self.stt_provider = select_stt_provider(
            self.config.stt_provider.as_str(),
            self.config.stt_api_key.as_str(),
            self.config.whisper_model_path.is_some(),
        );
        self.llm_provider = select_llm_provider(&self.config.llm_config);
    }

    /// Drop the transcription provider selected for the next session, when
    /// it could not be built.
    pub fn stt_provider_unavailable(&mut self)
        ensures
            final(self).spec_stt_provider() is None,
            final(self).spec_llm_provider() == old(self).spec_llm_provider(),
            final(self).spec_config() == old(self).spec_config(),
            final(self).spec_state() == old(self).spec_state(),
            final(self).spec_cancel_armed() == old(self).spec_cancel_armed(),
            final(self).spec_session() == old(self).spec_session(),
    {
        self.stt_provider = None;
    }

    /// Reset to idle, clearing any error condition and the session's handle.
    pub fn reset_to_idle(&mut self)
        ensures
            final(self).moved_to(old(self), PipelineState::Idle, false),
    {
        self.state = PipelineState::Idle;
        self.cancel_armed = false;
    }

    /// Transition to the error state, dropping the session's handle.
    pub fn set_error(&mut self)
        ensures
            final(self).moved_to(old(self), PipelineState::Error, false),
    {
        self.state = PipelineState::Error;
        self.cancel_armed = false;
    }

    /// Decide a start request before the capture is touched: from `Idle`
    /// and `Error` the capture is to be started with the returned maximum
    /// duration in seconds; from any other state the request is rejected
    /// and the capture is left alone.
    pub fn plan_start(&self) -> (r: Result<u32, PipelineError>)
        ensures
            r == if self.spec_state().can_start_recording() {
                Ok::<u32, PipelineError>(self.spec_config().max_duration_secs)
            } else {
                Err::<u32, PipelineError>(PipelineError::AlreadyRecording)
            },
    {
        if self.state.can_start_recording() {
            Ok(self.config.max_duration_secs)
        } else {
            Err(PipelineError::AlreadyRecording)
        }
    }

    /// Decide a stop request before the capture is touched: in `Recording`
    /// the capture is to be stopped; in any other state the request is
    /// rejected and the capture is left alone.
    pub fn plan_stop(&self) -> (r: Result<(), PipelineError>)
        ensures
            r == if self.spec_state().can_stop_recording() {
                Ok::<(), PipelineError>(())
            } else {
                Err::<(), PipelineError>(PipelineError::NotRecording)
            },
    {
        if self.state.can_stop_recording() {
            Ok(())
        } else {
            Err(PipelineError::NotRecording)
        }
    }

    /// Start a recording session, given how starting the capture went.
    /// Allowed from `Idle` and `Error` only; from any other state the request
    /// is rejected and nothing changes. On success the session is
    /// `Recording`, has a fresh cancellation handle and takes its settings
    /// from the configuration as it stands now. On failure the session is in
    /// `Error` without a handle, and the capture error is passed on.
    pub fn start_recording(&mut self, started: Result<(), AudioCaptureError>) -> (r: Result<
        (),
        PipelineError,
    >)
        ensures
            !old(self).spec_state().can_start_recording() ==> r == Err::<(), PipelineError>(
                PipelineError::AlreadyRecording,
            ) && *final(self) == *old(self),
            old(self).spec_state().can_start_recording() ==> match started {
                Ok(_) => {
                    &&& r is Ok
                    &&& final(self).spec_state() == PipelineState::Recording
                    &&& final(self).spec_cancel_armed()
                    &&& final(self).same_setup(old(self))
                    &&& old(self).starts_with(final(self).spec_session())
                },
                Err(e) => r == Err::<(), PipelineError>(PipelineError::AudioCapture(e))
                    && final(self).moved_to(old(self), PipelineState::Error, false),
            },
    {
        if !self.state.can_start_recording() {
            return Err(PipelineError::AlreadyRecording);
        }
        match started {
            Ok(_) => {
                self.session = self.snapshot();
                self.state = PipelineState::Recording;
                self.cancel_armed = true;
                Ok(())
            },
            Err(e) => {
                self.set_error();
                Err(PipelineError::AudioCapture(e))
            },
        }
    }

    /// The longest recording the capture is to keep, in seconds.
    pub fn max_duration_secs(&self) -> (secs: u32)
        ensures
            secs == self.spec_config().max_duration_secs,
    {
        self.config.max_duration_secs
    }

    /// Finish a recording without transcribing it, given what stopping the
    /// capture returned. Outside `Recording` the request is rejected and
    /// nothing changes. A capture error or a recording over the session's
    /// size limit moves the session to `Error`; otherwise the session is
    /// `Idle` again and the audio is returned.
    pub fn stop_recording(&mut self, wav: Result<Vec<u8>, AudioCaptureError>) -> (r: Result<
        Vec<u8>,
        PipelineError,
    >)
        ensures
            !old(self).spec_state().can_stop_recording() ==> r == Err::<Vec<u8>, PipelineError>(
                PipelineError::NotRecording,
            ) && *final(self) == *old(self),
            old(self).spec_state().can_stop_recording() ==> match wav {
                Err(e) => r == Err::<Vec<u8>, PipelineError>(PipelineError::AudioCapture(e))
                    && final(self).moved_to(old(self), PipelineState::Error, false),
                Ok(bytes) => if too_large(
                    bytes@.len(),
                    old(self).spec_session().max_recording_bytes,
                ) {
                    r == Err::<Vec<u8>, PipelineError>(
                        PipelineError::RecordingTooLarge(
                            bytes@.len() as usize,
                            old(self).spec_session().max_recording_bytes,
                        ),
                    ) && final(self).moved_to(old(self), PipelineState::Error, false)
                } else {
                    r == Ok::<Vec<u8>, PipelineError>(bytes) && final(self).moved_to(
                        old(self),
                        PipelineState::Idle,
                        false,
                    )
                },
            },
    {
        if !self.state.can_stop_recording() {
            return Err(PipelineError::NotRecording);
        }
        match wav {
            Err(e) => {
                self.set_error();
                Err(PipelineError::AudioCapture(e))
            },
            Ok(bytes) => {
                let max_bytes = self.session.max_recording_bytes;
                if max_bytes > 0 && bytes.len() > max_bytes {
                    self.set_error();
                    Err(PipelineError::RecordingTooLarge(bytes.len(), max_bytes))
                } else {
                    self.reset_to_idle();
                    Ok(bytes)
                }
            },
        }
    }

    /// Whether `job` is what the session hands to the transcription phase
    /// for the recording `wav`: the recording and what the session started
    /// with.
    pub open spec fn job_matches(&self, wav: Vec<u8>, job: TranscriptionJob) -> bool {
        &&& job.wav_bytes == wav
        &&& self.spec_session().stt_provider == Some(job.provider)
        &&& job.retry_config == self.spec_session().retry_config
        &&& job.timeout_ms == self.spec_session().transcription_timeout_ms
        &&& match job.rewrite {
            Some(rewrite) => {
                &&& self.spec_session().llm_provider == Some(rewrite.provider)
                &&& rewrite.system_prompt == self.spec_session().system_prompt
                &&& rewrite.timeout_ms == REWRITE_TIMEOUT_MS
            },
            None => self.spec_session().llm_provider is None,
        }
    }

    /// The first phase of stop-and-transcribe, given what stopping the
    /// capture returned. Outside `Recording` the request is rejected and
    /// nothing changes. A capture error, a recording over the session's size
    /// limit or a session without transcription provider moves the session
    /// to `Error`. Otherwise the session is `Transcribing` and the job holds
    /// all that the transcription phase needs, as the session started with
    /// it.
    pub fn begin_transcription(&mut self, wav: Result<Vec<u8>, AudioCaptureError>) -> (r: Result<
        TranscriptionJob,
        PipelineError,
    >)
        ensures
            !old(self).spec_state().can_stop_recording() ==> r == Err::<
                TranscriptionJob,
                PipelineError,
            >(PipelineError::NotRecording) && *final(self) == *old(self),
            old(self).spec_state().can_stop_recording() ==> match wav {
                Err(e) => r == Err::<TranscriptionJob, PipelineError>(
                    PipelineError::AudioCapture(e),
                ) && final(self).moved_to(old(self), PipelineState::Error, false),
                Ok(bytes) => if too_large(
                    bytes@.len(),
                    old(self).spec_session().max_recording_bytes,
                ) {
                    r == Err::<TranscriptionJob, PipelineError>(
                        PipelineError::RecordingTooLarge(
                            bytes@.len() as usize,
                            old(self).spec_session().max_recording_bytes,
                        ),
                    ) && final(self).moved_to(old(self), PipelineState::Error, false)
                } else if old(self).spec_session().stt_provider is None {
                    r == Err::<TranscriptionJob, PipelineError>(PipelineError::NoProvider)
                        && final(self).moved_to(old(self), PipelineState::Error, false)
                } else {
                    r matches Ok(job) && old(self).job_matches(bytes, job) && final(self).moved_to(
                        old(self),
                        PipelineState::Transcribing,
                        old(self).spec_cancel_armed(),
                    )
                },
            },
    {
        if !self.state.can_stop_recording() {
            return Err(PipelineError::NotRecording);
        }
        let bytes = match wav {
            Err(e) => {
                self.set_error();
                return Err(PipelineError::AudioCapture(e));
            },
            Ok(bytes) => bytes,
        };
        let max_bytes = self.session.max_recording_bytes;
        if max_bytes > 0 && bytes.len() > max_bytes {
            self.set_error();
            return Err(PipelineError::RecordingTooLarge(bytes.len(), max_bytes));
        }
        let provider = match self.session.stt_provider {
            None => {
                self.set_error();
                return Err(PipelineError::NoProvider);
            },
            Some(provider) => provider,
        };
        self.state = PipelineState::Transcribing;
        let rewrite = match &self.session.llm_provider {
            Some(setup) => Some(
                RewriteJob {
                    provider: setup.duplicate(),
                    system_prompt: self.session.system_prompt.clone(),
                    timeout_ms: REWRITE_TIMEOUT_MS,
                },
            ),
            None => None,
        };
        Ok(
            TranscriptionJob {
                wav_bytes: bytes,
                provider,
                retry_config: self.session.retry_config,
                timeout_ms: self.session.transcription_timeout_ms,
                rewrite,
            },
        )
    }

    /// Record how the transcription phase ended. Cancellation returns the
    /// session to `Idle`; a timeout or a provider error moves it to `Error`;
    /// a transcript leaves it `Transcribing` for the rewrite phase. A
    /// timeout names the deadline that the session started with.
    pub fn transcription_finished(
        &mut self,
        outcome: RaceOutcome<Result<String, SttError>>,
    ) -> (r: Result<String, PipelineError>)
        ensures
            match outcome {
                RaceOutcome::Cancelled => r == Err::<String, PipelineError>(
                    PipelineError::Cancelled,
                ) && final(self).moved_to(old(self), PipelineState::Idle, false),
                RaceOutcome::TimedOut => r == Err::<String, PipelineError>(
                    PipelineError::Timeout(old(self).spec_session().transcription_timeout_ms),
                ) && final(self).moved_to(old(self), PipelineState::Error, false),
                RaceOutcome::Finished(Err(e)) => r == Err::<String, PipelineError>(
                    PipelineError::Stt(e),
                ) && final(self).moved_to(old(self), PipelineState::Error, false),
                RaceOutcome::Finished(Ok(transcript)) => r == Ok::<String, PipelineError>(
                    transcript,
                ) && *final(self) == *old(self),
            },
    {
        match outcome {
            RaceOutcome::Cancelled => {
                self.reset_to_idle();
                Err(PipelineError::Cancelled)
            },
            RaceOutcome::TimedOut => {
                self.set_error();
                Err(PipelineError::Timeout(self.session.transcription_timeout_ms))
            },
            RaceOutcome::Finished(Err(e)) => {
                self.set_error();
                Err(PipelineError::Stt(e))
            },
            RaceOutcome::Finished(Ok(transcript)) => Ok(transcript),
        }
    }

    /// Record how the rewrite phase ended (`None`: there was no rewrite
    /// step) and finish the session. The session is `Idle` afterwards
    /// whatever happened. A rewrite timeout or error is no failure: the raw
    /// transcript is returned in its place. Only cancellation gives an
    /// error.
    pub fn rewrite_finished(
        &mut self,
        transcript: String,
        outcome: Option<RaceOutcome<Result<String, LlmError>>>,
    ) -> (r: Result<String, PipelineError>)
        ensures
            final(self).moved_to(old(self), PipelineState::Idle, false),
            r == match outcome {
                None => Ok::<String, PipelineError>(transcript),
                Some(ended) => match rewrite_result(transcript, ended) {
                    Some(text) => Ok::<String, PipelineError>(text),
                    None => Err::<String, PipelineError>(PipelineError::Cancelled),
                },
            },
    {
        self.reset_to_idle();
        match outcome {
            None => Ok(transcript),
            Some(RaceOutcome::Cancelled) => Err(PipelineError::Cancelled),
            Some(RaceOutcome::TimedOut) => Ok(transcript),
            Some(RaceOutcome::Finished(Ok(formatted))) => Ok(formatted),
            Some(RaceOutcome::Finished(Err(_))) => Ok(transcript),
        }
    }

    /// Replace the configuration and select its providers, for the next
    /// session. The state, the handle and what the session in flight started
    /// with stay: only the next `start_recording` takes the new settings.
    pub fn update_config(&mut self, config: PipelineConfig)
        ensures
            final(self).spec_config() == config,
            final(self).providers_selected(),
            final(self).spec_state() == old(self).spec_state(),
            final(self).spec_cancel_armed() == old(self).spec_cancel_armed(),
            final(self).spec_session() == old(self).spec_session(),
    {
        self.config = config;
        self.initialize_providers();
    }

    /// Cancel the current operation. With nothing to cancel (outside
    /// `Recording` and `Transcribing`) the request is rejected as not
    /// recording and nothing changes. Otherwise the session returns to
    /// `Idle`; its handle, if any, is to be signalled, and the capture
    /// stopped if it was recording.
    pub fn cancel(&mut self) -> (r: Result<Teardown, PipelineError>)
        ensures
            !old(self).spec_state().can_cancel() ==> r == Err::<Teardown, PipelineError>(
                PipelineError::NotRecording,
            ) && *final(self) == *old(self),
            old(self).spec_state().can_cancel() ==> r == Ok::<Teardown, PipelineError>(
                Teardown {
                    signal_cancel: old(self).spec_cancel_armed(),
                    stop_capture: old(self).spec_state() == PipelineState::Recording,
                },
            ) && final(self).moved_to(old(self), PipelineState::Idle, false),
    {
        if !self.state.can_cancel() {
            return Err(PipelineError::NotRecording);
        }
        let teardown = Teardown {
            signal_cancel: self.cancel_armed,
            stop_capture: self.state == PipelineState::Recording,
        };
        self.reset_to_idle();
        Ok(teardown)
    }

    /// Force the session back to `Idle` from any state. The session's
    /// handle, if any, is to be signalled and the capture stopped.
    pub fn force_reset(&mut self) -> (teardown: Teardown)
        ensures
            final(self).moved_to(old(self), PipelineState::Idle, false),
            teardown == (Teardown {
                signal_cancel: old(self).spec_cancel_armed(),
                stop_capture: true,
            }),
    {
        let teardown = Teardown { signal_cancel: self.cancel_armed, stop_capture: true };
        self.reset_to_idle();
        teardown
    }

    /// Get the current state.
    pub fn state(&self) -> (s: PipelineState)
        ensures
            s == self.spec_state(),
    {
        self.state
    }

    /// Check if recording.
    pub fn is_recording(&self) -> (b: bool)
        ensures
            b == (self.spec_state() == PipelineState::Recording),
    {
        self.state == PipelineState::Recording
    }

    /// Check if the pipeline is in the error state.
    pub fn is_error(&self) -> (b: bool)
        ensures
            b == (self.spec_state() == PipelineState::Error),
    {
        self.state == PipelineState::Error
    }

    /// Whether the current session has a cancellation handle.
    pub fn has_cancel_token(&self) -> (b: bool)
        ensures
            b == self.spec_cancel_armed(),
    {
        self.cancel_armed
    }

    /// Check if detector auto-stop is enabled in the configuration.
    pub fn is_vad_auto_stop_enabled(&self) -> (b: bool)
        ensures
            b == (self.spec_config().vad_config.enabled && self.spec_config().vad_config.auto_stop),
    {
        self.config.vad_config.is_vad_auto_stop_enabled()
    }

    /// Get the name of the transcription provider selected for the next
    /// session, or the empty string if none is selected.
    pub fn current_provider_name(&self) -> (name: &'static str)
        ensures
            name@ == match self.spec_stt_provider() {
                Some(SttProviderKind::OpenAi) => "openai"@,
                Some(SttProviderKind::Groq) => "groq"@,
                Some(SttProviderKind::Deepgram) => "deepgram"@,
                Some(SttProviderKind::LocalWhisper) => "local-whisper"@,
                None => ""@,
            },
    {
        match &self.stt_provider {
            Some(kind) => kind.name(),
            None => "",
        }
    }

    /// What the session in flight (or the last one) started with.
    pub fn session(&self) -> (settings: &SessionSettings)
        ensures
            *settings == self.spec_session(),
    {
        &self.session
    }

    /// Get the configuration that the next session starts under.
    pub fn config(&self) -> (c: &PipelineConfig)
        ensures
            *c == self.spec_config(),
    {
        &self.config
    }
}

/// The guards are total and follow the transition table: `Idle` and `Error`
/// permit start; only `Recording` permits stop; `Recording` and
/// `Transcribing` permit cancel; `Idle` and `Error` forbid stop and cancel.
pub proof fn lemma_guard_table(state: PipelineState)
    ensures
        state.can_start_recording() <==> (state == PipelineState::Idle || state
            == PipelineState::Error),
        state.can_stop_recording() <==> state == PipelineState::Recording,
        state.can_cancel() <==> (state == PipelineState::Recording || state
            == PipelineState::Transcribing),
        state.can_start_recording() ==> !state.can_stop_recording() && !state.can_cancel(),
        state.can_stop_recording() ==> state.can_cancel(),
        state.can_start_recording() || state.can_cancel(),
{
}

} // verus!

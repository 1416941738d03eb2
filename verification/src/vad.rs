//! Voice activity detection: per-frame classification debounced by a
//! speech-start threshold and a hangover, with a bounded pre-roll ring that
//! keeps the audio from just before speech was confirmed.

use vstd::prelude::*;
use vstd::slice::slice_to_vec;
use std::collections::VecDeque;

verus! {

/// Sample rate at which the detector classifies frames.
pub const DETECTOR_SAMPLE_RATE: u32 = 16000;

/// How aggressively the classifier filters out non-speech.
#[derive(Debug, Clone, Copy, PartialEq, Eq, Structural)]
pub enum VadAggressiveness {
    /// Least aggressive, fewest missed detections.
    Quality,
    /// Low bitrate mode.
    LowBitrate,
    /// Aggressive mode.
    Aggressive,
    /// Most aggressive, most missed detections.
    VeryAggressive,
}

impl Default for VadAggressiveness {
    fn default() -> (a: Self)
        ensures
            a == VadAggressiveness::Aggressive,
    {
        VadAggressiveness::Aggressive
    }
}

/// Configuration for the detector. Fixed for the lifetime of a detector.
#[derive(Debug, Clone, Copy, PartialEq, Eq, Structural)]
pub struct VadConfig {
    /// Classifier aggressiveness.
    pub aggressiveness: VadAggressiveness,
    /// Consecutive speech frames required to confirm speech start.
    pub speech_frames_threshold: u32,
    /// Consecutive silence frames required to confirm speech end.
    pub hangover_frames: u32,
    /// Audio to keep from before speech start, in milliseconds.
    pub pre_roll_ms: u32,
    /// Frame duration in milliseconds (the classifier takes 10, 20 or 30).
    pub frame_duration_ms: u32,
    /// Sample rate of the detector.
    pub sample_rate: u32,
}

impl Default for VadConfig {
    fn default() -> (c: Self)
        ensures
            c == (VadConfig {
                aggressiveness: VadAggressiveness::Aggressive,
                speech_frames_threshold: 3,
                hangover_frames: 30,
                pre_roll_ms: 300,
                frame_duration_ms: 10,
                sample_rate: 16000,
            }),
    {
        VadConfig {
            aggressiveness: VadAggressiveness::Aggressive,
            speech_frames_threshold: 3,
            hangover_frames: 30,
            pre_roll_ms: 300,
            frame_duration_ms: 10,
            sample_rate: 16000,
        }
    }
}

impl VadConfig {
    /// Whether a detector can be built from this configuration: the frame
    /// duration is positive and the frame size fits the machine's integers.
    pub open spec fn usable(&self) -> bool {
        0 < self.frame_duration_ms && DETECTOR_SAMPLE_RATE * self.frame_duration_ms <= u32::MAX
    }

    /// Check whether a detector can be built from this configuration.
    pub fn is_usable(&self) -> (b: bool)
        ensures
            b == self.usable(),
    {
        0 < self.frame_duration_ms && self.frame_duration_ms <= u32::MAX / DETECTOR_SAMPLE_RATE
    }

    /// Number of frames the pre-roll ring holds.
    pub open spec fn pre_roll_capacity(&self) -> nat {
        (self.pre_roll_ms / self.frame_duration_ms) as nat
    }

    /// Samples in one frame at the detector's rate.
    pub open spec fn spec_frame_size(&self) -> nat {
        (DETECTOR_SAMPLE_RATE * self.frame_duration_ms / 1000) as nat
    }
}

/// Events emitted by the detector, one per processed frame.
#[derive(Debug, Clone)]
pub enum VadEvent {
    /// No significant event.
    NoEvent,
    /// Speech has started; carries the buffered pre-roll audio.
    SpeechStart {
        /// Samples from just before speech was confirmed.
        pre_roll: Vec<i16>,
    },
    /// Speech has ended.
    SpeechEnd,
}

/// Which boundary, if any, a frame crossed.
#[derive(Debug, Clone, Copy, PartialEq, Eq, Structural)]
pub enum VadSignal {
    /// No boundary.
    NoEvent,
    /// Rising edge: speech confirmed.
    SpeechStart,
    /// Falling edge: silence confirmed.
    SpeechEnd,
}

/// One more, stopping at the largest value.
pub open spec fn bump(n: u32) -> u32 {
    if n < u32::MAX {
        (n + 1) as u32
    } else {
        n
    }
}

/// The debounce state: whether speech is in progress and the lengths of the
/// current runs of speech and silence frames.
#[derive(Debug, Clone, Copy, PartialEq, Eq, Structural)]
pub struct Hysteresis {
    /// Whether a speech segment is in progress.
    pub is_speaking: bool,
    /// Count of consecutive speech frames.
    pub speech_frames: u32,
    /// Count of consecutive silence frames.
    pub silence_frames: u32,
}

impl Hysteresis {
    /// The state after one classified frame, and the boundary it crossed.
    pub open spec fn spec_step(self, config: VadConfig, speech: bool) -> (Hysteresis, VadSignal) {
        if speech {
            let run = bump(self.speech_frames);
            if !self.is_speaking && run >= config.speech_frames_threshold {
                (
                    Hysteresis { is_speaking: true, speech_frames: run, silence_frames: 0 },
                    VadSignal::SpeechStart,
                )
            } else {
                (
                    Hysteresis {
                        is_speaking: self.is_speaking,
                        speech_frames: run,
                        silence_frames: 0,
                    },
                    VadSignal::NoEvent,
                )
            }
        } else {
            let run = bump(self.silence_frames);
            if self.is_speaking && run >= config.hangover_frames {
                (
                    Hysteresis { is_speaking: false, speech_frames: 0, silence_frames: run },
                    VadSignal::SpeechEnd,
                )
            } else {
                (
                    Hysteresis {
                        is_speaking: self.is_speaking,
                        speech_frames: 0,
                        silence_frames: run,
                    },
                    VadSignal::NoEvent,
                )
            }
        }
    }

    /// The state after `step`.
    pub open spec fn next(self, config: VadConfig, speech: bool) -> Hysteresis {
        self.spec_step(config, speech).0
    }

    /// The boundary that `step` reports.
    pub open spec fn signal(self, config: VadConfig, speech: bool) -> VadSignal {
        self.spec_step(config, speech).1
    }

    /// The boundaries reported for a run of classified frames, in order.
    pub open spec fn signals(self, config: VadConfig, frames: Seq<bool>) -> Seq<VadSignal>
        decreases frames.len(),
    {
        if frames.len() == 0 {
            Seq::empty()
        } else {
            seq![self.signal(config, frames[0])] + self.next(config, frames[0]).signals(
                config,
                frames.drop_first(),
            )
        }
    }

    /// The state after a run of classified frames.
    pub open spec fn after(self, config: VadConfig, frames: Seq<bool>) -> Hysteresis
        decreases frames.len(),
    {
        if frames.len() == 0 {
            self
        } else {
            self.next(config, frames[0]).after(config, frames.drop_first())
        }
    }

    /// The resting state: not speaking, both runs empty.
    pub fn new() -> (h: Self)
        ensures
            h == (Hysteresis { is_speaking: false, speech_frames: 0, silence_frames: 0 }),
    {
        Hysteresis { is_speaking: false, speech_frames: 0, silence_frames: 0 }
    }

    /// Account for one classified frame. A speech frame extends the speech
    /// run and clears the silence run; when not yet speaking and the run
    /// reaches the threshold, speech starts. A silence frame does the
    /// opposite; when speaking and the run reaches the hangover, speech ends.
    pub fn step(&mut self, config: &VadConfig, speech: bool) -> (signal: VadSignal)
        ensures
            *final(self) == old(self).next(*config, speech),
            signal == old(self).signal(*config, speech),
    {
        if speech {
            if self.speech_frames < u32::MAX {
                self.speech_frames = self.speech_frames + 1;
            }
            self.silence_frames = 0;
            if !self.is_speaking && self.speech_frames >= config.speech_frames_threshold {
                self.is_speaking = true;
                return VadSignal::SpeechStart;
            }
        } else {
            if self.silence_frames < u32::MAX {
                self.silence_frames = self.silence_frames + 1;
            }
            self.speech_frames = 0;
            if self.is_speaking && self.silence_frames >= config.hangover_frames {
                self.is_speaking = false;
                return VadSignal::SpeechEnd;
            }
        }
        VadSignal::NoEvent
    }
}

/// A run of `n` frames that all carry the same classification.
pub open spec fn uniform_run(n: nat, speech: bool) -> Seq<bool> {
    Seq::new(n, |i: int| speech)
}

/// Whether, counting from a run of length `run`, no run of frames classified
/// as `kind` grows to `threshold` frames in `frames`.
pub open spec fn stays_below(run: nat, frames: Seq<bool>, threshold: nat, kind: bool) -> bool
    decreases frames.len(),
{
    if frames.len() == 0 {
        true
    } else if frames[0] == kind {
        run + 1 < threshold && stays_below(run + 1, frames.drop_first(), threshold, kind)
    } else {
        stays_below(0, frames.drop_first(), threshold, kind)
    }
}

/// A silence frame never starts speech, whatever the configuration and state.
pub proof fn lemma_silence_frame_never_starts(h: Hysteresis, config: VadConfig)
    ensures
        h.signal(config, false) != VadSignal::SpeechStart,
        !h.is_speaking ==> h.signal(config, false) == VadSignal::NoEvent,
{
}

/// No frame of an unbroken run of silence reports a speech start, for any
/// configuration and from any state.
pub proof fn lemma_silence_run_never_starts(h: Hysteresis, config: VadConfig, n: nat)
    ensures
        h.signals(config, uniform_run(n, false)).len() == n,
        forall|i: int|
            0 <= i < n ==> #[trigger] h.signals(config, uniform_run(n, false))[i]
                != VadSignal::SpeechStart,
    decreases n,
{
    let frames = uniform_run(n, false);
    if n > 0 {
        let rest = uniform_run((n - 1) as nat, false);
        assert(frames.drop_first() =~= rest);
        lemma_silence_run_never_starts(h.next(config, false), config, (n - 1) as nat);
        let tail = h.next(config, false).signals(config, rest);
        assert forall|i: int| 0 <= i < n implies #[trigger] h.signals(config, frames)[i]
            != VadSignal::SpeechStart by {
            if i > 0 {
                assert(h.signals(config, frames)[i] == tail[i - 1]);
            }
        }
    }
}

/// While speaking, further speech frames report nothing.
pub proof fn lemma_speech_run_while_speaking(h: Hysteresis, config: VadConfig, n: nat)
    requires
        h.is_speaking,
    ensures
        h.signals(config, uniform_run(n, true)).len() == n,
        forall|i: int|
            0 <= i < n ==> #[trigger] h.signals(config, uniform_run(n, true))[i]
                == VadSignal::NoEvent,
        h.after(config, uniform_run(n, true)).is_speaking,
    decreases n,
{
    let frames = uniform_run(n, true);
    if n > 0 {
        let rest = uniform_run((n - 1) as nat, true);
        assert(frames.drop_first() =~= rest);
        lemma_speech_run_while_speaking(h.next(config, true), config, (n - 1) as nat);
        let tail = h.next(config, true).signals(config, rest);
        assert forall|i: int| 0 <= i < n implies #[trigger] h.signals(config, frames)[i]
            == VadSignal::NoEvent by {
            if i > 0 {
                assert(h.signals(config, frames)[i] == tail[i - 1]);
            }
        }
    }
}

/// While not speaking, further silence frames report nothing.
pub proof fn lemma_silence_run_while_silent(h: Hysteresis, config: VadConfig, n: nat)
    requires
        !h.is_speaking,
    ensures
        h.signals(config, uniform_run(n, false)).len() == n,
        forall|i: int|
            0 <= i < n ==> #[trigger] h.signals(config, uniform_run(n, false))[i]
                == VadSignal::NoEvent,
        !h.after(config, uniform_run(n, false)).is_speaking,
    decreases n,
{
    let frames = uniform_run(n, false);
    if n > 0 {
        let rest = uniform_run((n - 1) as nat, false);
        assert(frames.drop_first() =~= rest);
        lemma_silence_run_while_silent(h.next(config, false), config, (n - 1) as nat);
        let tail = h.next(config, false).signals(config, rest);
        assert forall|i: int| 0 <= i < n implies #[trigger] h.signals(config, frames)[i]
            == VadSignal::NoEvent by {
            if i > 0 {
                assert(h.signals(config, frames)[i] == tail[i - 1]);
            }
        }
    }
}

/// The index, within a run of equal frames, of the frame at which a run of
/// the current length `run` reaches `threshold`.
pub open spec fn crossing_index(run: nat, threshold: nat) -> int {
    if threshold == 0 {
        0
    } else {
        threshold - run - 1
    }
}

/// Following silence, a run of speech frames reports exactly one speech
/// start: at the frame that makes the run `speech_frames_threshold` long (the
/// first frame if the threshold is zero). Every other frame of the run
/// reports nothing.
pub proof fn lemma_one_speech_start(h: Hysteresis, config: VadConfig, n: nat)
    requires
        !h.is_speaking,
        h.speech_frames < config.speech_frames_threshold || config.speech_frames_threshold == 0,
    ensures
        h.signals(config, uniform_run(n, true)).len() == n,
        forall|i: int|
            0 <= i < n ==> #[trigger] h.signals(config, uniform_run(n, true))[i] == if i
                == crossing_index(
                h.speech_frames as nat,
                config.speech_frames_threshold as nat,
            ) {
                VadSignal::SpeechStart
            } else {
                VadSignal::NoEvent
            },
    decreases n,
{
    let frames = uniform_run(n, true);
    let at = crossing_index(h.speech_frames as nat, config.speech_frames_threshold as nat);
    if n > 0 {
        let rest = uniform_run((n - 1) as nat, true);
        assert(frames.drop_first() =~= rest);
        let next = h.next(config, true);
        let tail = next.signals(config, rest);
        if at == 0 {
            lemma_speech_run_while_speaking(next, config, (n - 1) as nat);
        } else {
            lemma_one_speech_start(next, config, (n - 1) as nat);
        }
        assert forall|i: int| 0 <= i < n implies #[trigger] h.signals(config, frames)[i] == if i
            == at {
            VadSignal::SpeechStart
        } else {
            VadSignal::NoEvent
        } by {
            if i > 0 {
                assert(h.signals(config, frames)[i] == tail[i - 1]);
            }
        }
    }
}

/// Following speech, a run of silence frames reports exactly one speech end:
/// at the frame that makes the run `hangover_frames` long (the first frame if
/// the hangover is zero). Every other frame of the run reports nothing.
pub proof fn lemma_one_speech_end(h: Hysteresis, config: VadConfig, n: nat)
    requires
        h.is_speaking,
        h.silence_frames < config.hangover_frames || config.hangover_frames == 0,
    ensures
        h.signals(config, uniform_run(n, false)).len() == n,
        forall|i: int|
            0 <= i < n ==> #[trigger] h.signals(config, uniform_run(n, false))[i] == if i
                == crossing_index(h.silence_frames as nat, config.hangover_frames as nat) {
                VadSignal::SpeechEnd
            } else {
                VadSignal::NoEvent
            },
    decreases n,
{
    let frames = uniform_run(n, false);
    let at = crossing_index(h.silence_frames as nat, config.hangover_frames as nat);
    if n > 0 {
        let rest = uniform_run((n - 1) as nat, false);
        assert(frames.drop_first() =~= rest);
        let next = h.next(config, false);
        let tail = next.signals(config, rest);
        if at == 0 {
            lemma_silence_run_while_silent(next, config, (n - 1) as nat);
        } else {
            lemma_one_speech_end(next, config, (n - 1) as nat);
        }
        assert forall|i: int| 0 <= i < n implies #[trigger] h.signals(config, frames)[i] == if i
            == at {
            VadSignal::SpeechEnd
        } else {
            VadSignal::NoEvent
        } by {
            if i > 0 {
                assert(h.signals(config, frames)[i] == tail[i - 1]);
            }
        }
    }
}

/// While not speaking, mixed frames whose speech runs all stay below the
/// threshold report nothing, and the detector is still not speaking after
/// them.
pub proof fn lemma_below_threshold_reports_nothing(
    h: Hysteresis,
    config: VadConfig,
    frames: Seq<bool>,
)
    requires
        !h.is_speaking,
        stays_below(h.speech_frames as nat, frames, config.speech_frames_threshold as nat, true),
    ensures
        h.signals(config, frames).len() == frames.len(),
        forall|i: int|
            0 <= i < frames.len() ==> #[trigger] h.signals(config, frames)[i] == VadSignal::NoEvent,
        !h.after(config, frames).is_speaking,
    decreases frames.len(),
{
    if frames.len() > 0 {
        let next = h.next(config, frames[0]);
        let rest = frames.drop_first();
        lemma_below_threshold_reports_nothing(next, config, rest);
        let tail = next.signals(config, rest);
        assert forall|i: int| 0 <= i < frames.len() implies #[trigger] h.signals(
            config,
            frames,
        )[i] == VadSignal::NoEvent by {
            if i > 0 {
                assert(h.signals(config, frames)[i] == tail[i - 1]);
            }
        }
    }
}

/// While speaking, mixed frames whose silence runs all stay below the
/// hangover report nothing, and the detector is still speaking after them.
pub proof fn lemma_below_hangover_reports_nothing(
    h: Hysteresis,
    config: VadConfig,
    frames: Seq<bool>,
)
    requires
        h.is_speaking,
        stays_below(h.silence_frames as nat, frames, config.hangover_frames as nat, false),
    ensures
        h.signals(config, frames).len() == frames.len(),
        forall|i: int|
            0 <= i < frames.len() ==> #[trigger] h.signals(config, frames)[i]
                == VadSignal::NoEvent,
        h.after(config, frames).is_speaking,
    decreases frames.len(),
{
    if frames.len() > 0 {
        let next = h.next(config, frames[0]);
        let rest = frames.drop_first();
        lemma_below_hangover_reports_nothing(next, config, rest);
        let tail = next.signals(config, rest);
        assert forall|i: int| 0 <= i < frames.len() implies #[trigger] h.signals(
            config,
            frames,
        )[i] == VadSignal::NoEvent by {
            if i > 0 {
                assert(h.signals(config, frames)[i] == tail[i - 1]);
            }
        }
    }
}

} // verus!

//! The bounded rolling buffer that a capture session fills, its encoding as
//! a WAV file, and the capture-side error and event types.

use vstd::prelude::*;
use vstd::slice::{slice_subrange, slice_to_vec};
use vstd::string::StringExecFns;
use crate::vad::{VadAggressiveness, VadConfig, VadEvent};
use crate::wav::{
    decoded, fits_wav, hound_error_text, hound_write_pcm16, lemma_wav_round_trip, wav_file,
};

verus! {

/// Errors that can occur during audio capture.
#[derive(Debug, Clone)]
pub enum AudioCaptureError {
    /// No input device available.
    NoInputDevice,
    /// The device's configuration could not be read.
    DeviceConfig(String),
    /// The audio stream could not be built.
    StreamBuild(String),
    /// The audio stream could not be started.
    StreamStart(String),
    /// The audio could not be encoded.
    Encoding(String),
    /// Audio capture is not active.
    NotActive,
    /// The capture worker failed.
    ThreadError(String),
}

/// Speech boundaries reported by a capture session.
#[derive(Debug, Clone, Copy, PartialEq, Eq, Structural)]
pub enum AudioCaptureEvent {
    /// Speech detected.
    SpeechStart,
    /// Speech ended after the hangover period.
    SpeechEnd,
}

impl AudioCaptureEvent {
    /// The capture event that a detector event is forwarded as, if any:
    /// boundaries are forwarded without their audio, other frames are not.
    pub fn from_vad_event(event: &VadEvent) -> (forwarded: Option<AudioCaptureEvent>)
        ensures
            forwarded == match *event {
                VadEvent::SpeechStart { .. } => Some(AudioCaptureEvent::SpeechStart),
                VadEvent::SpeechEnd => Some(AudioCaptureEvent::SpeechEnd),
                VadEvent::NoEvent => None::<AudioCaptureEvent>,
            },
    {
        match event {
            VadEvent::SpeechStart { .. } => Some(AudioCaptureEvent::SpeechStart),
            VadEvent::SpeechEnd => Some(AudioCaptureEvent::SpeechEnd),
            VadEvent::NoEvent => None,
        }
    }
}

/// Configuration for detector-based auto-stop.
#[derive(Debug, Clone, Copy, PartialEq, Eq, Structural)]
pub struct VadAutoStopConfig {
    /// Enable voice activity detection.
    pub enabled: bool,
    /// Automatically stop recording when speech ends.
    pub auto_stop: bool,
    /// Detector configuration.
    pub vad_config: VadConfig,
}

impl Default for VadAutoStopConfig {
    fn default() -> (c: Self)
        ensures
            c == (VadAutoStopConfig {
                enabled: false,
                auto_stop: false,
                vad_config: VadConfig {
                    aggressiveness: VadAggressiveness::Aggressive,
                    speech_frames_threshold: 3,
                    hangover_frames: 30,
                    pre_roll_ms: 300,
                    frame_duration_ms: 10,
                    sample_rate: 16000,
                },
            }),
    {
        VadAutoStopConfig { enabled: false, auto_stop: false, vad_config: VadConfig::default() }
    }
}

impl VadAutoStopConfig {
    /// Whether recording stops by itself when speech ends: detection must be
    /// enabled and auto-stop chosen.
    pub fn is_vad_auto_stop_enabled(&self) -> (b: bool)
        ensures
            b == (self.enabled && self.auto_stop),
    {
        self.enabled && self.auto_stop
    }
}

/// The most samples a buffer may hold: `sample_rate * channels *
/// max_duration_secs`, or the largest buffer length if that is less.
pub open spec fn max_samples(sample_rate: u32, channels: u16, max_duration_secs: u32) -> nat {
    if sample_rate * channels * max_duration_secs <= usize::MAX {
        (sample_rate * channels * max_duration_secs) as nat
    } else {
        usize::MAX as nat
    }
}

/// The last `limit` elements of `samples`, or all of them if there are
/// fewer.
pub open spec fn keep_latest(samples: Seq<i16>, limit: nat) -> Seq<i16> {
    if samples.len() > limit {
        samples.skip(samples.len() - limit)
    } else {
        samples
    }
}

/// Whole milliseconds of audio in `count` interleaved samples.
pub open spec fn duration_millis(count: nat, sample_rate: u32, channels: u16) -> int {
    (count * 1000) as int / (sample_rate * channels)
}

/// `ms` as a `u64`, or the largest `u64` if it is larger.
pub open spec fn capped_millis(ms: int) -> u64 {
    if ms > u64::MAX {
        u64::MAX
    } else {
        ms as u64
    }
}

/// Whether the buffer's content can be written as a WAV file: it fits the
/// format's size fields and holds whole frames only.
pub open spec fn encodable(sample_rate: u32, channels: u16, samples: Seq<i16>) -> bool {
    fits_wav(sample_rate, channels, samples.len()) && samples.len() % (channels as nat) == 0
}

/// Audio buffer that accumulates 16-bit samples during recording, keeping
/// the most recent ones up to a maximum duration.
#[derive(Debug, Clone)]
pub struct AudioBuffer {
    samples: Vec<i16>,
    sample_rate: u32,
    channels: u16,
    max_duration_secs: u32,
}

impl View for AudioBuffer {
    type V = Seq<i16>;

    /// The buffered samples, oldest first.
    closed spec fn view(&self) -> Seq<i16> {
        self.samples@
    }
}

impl AudioBuffer {
    /// The sample rate the buffer was created with.
    pub closed spec fn spec_sample_rate(&self) -> u32 {
        self.sample_rate
    }

    /// The channel count the buffer was created with.
    pub closed spec fn spec_channels(&self) -> u16 {
        self.channels
    }

    /// The maximum duration the buffer was created with, in seconds.
    pub closed spec fn spec_max_duration_secs(&self) -> u32 {
        self.max_duration_secs
    }

    /// The most samples this buffer may hold.
    pub open spec fn capacity(&self) -> nat {
        max_samples(self.spec_sample_rate(), self.spec_channels(), self.spec_max_duration_secs())
    }

    /// The buffer's invariant: it never holds more than its capacity.
    pub open spec fn well_formed(&self) -> bool {
        self@.len() <= self.capacity()
    }

    /// Create an empty buffer with the specified parameters.
    pub fn new(sample_rate: u32, channels: u16, max_duration_secs: u32) -> (b: Self)
        ensures
            b.well_formed(),
            b@ == Seq::<i16>::empty(),
            b.spec_sample_rate() == sample_rate,
            b.spec_channels() == channels,
            b.spec_max_duration_secs() == max_duration_secs,
    {
        AudioBuffer { samples: Vec::new(), sample_rate, channels, max_duration_secs }
    }

    /// The most samples this buffer may hold.
    pub fn max_len(&self) -> (n: usize)
        ensures
            n == self.capacity(),
    {
        let rate: u128 = self.sample_rate as u128;
        let channels: u128 = self.channels as u128;
        let secs: u128 = self.max_duration_secs as u128;
        assert(rate * channels <= 0xffff_ffff * 0xffff) by (nonlinear_arith)
            requires
                rate <= 0xffff_ffff,
                channels <= 0xffff,
        ;
        let per_sec: u128 = rate * channels;
        assert(per_sec * secs <= 0xffff_ffff * 0xffff * 0xffff_ffff) by (nonlinear_arith)
            requires
                per_sec <= 0xffff_ffff * 0xffff,
                secs <= 0xffff_ffff,
        ;
        let total: u128 = per_sec * secs;
        if total <= usize::MAX as u128 {
            total as usize
        } else {
            usize::MAX
        }
    }

    /// Append samples to the buffer. If the buffer then exceeds its
    /// capacity, the oldest samples are dropped.
    pub fn append(&mut self, new_samples: &[i16])
        ensures
            final(self).well_formed(),
            final(self)@ == keep_latest(old(self)@ + new_samples@, old(self).capacity()),
            final(self).spec_sample_rate() == old(self).spec_sample_rate(),
            final(self).spec_channels() == old(self).spec_channels(),
            final(self).spec_max_duration_secs() == old(self).spec_max_duration_secs(),
    {
        let limit: usize = self.max_len();
        let added: usize = new_samples.len();
        let ghost all = self.samples@ + new_samples@;
        if added >= limit {
            self.samples = slice_to_vec(slice_subrange(new_samples, added - limit, added));
            assert(self.samples@ =~= keep_latest(all, limit as nat));
        } else {
            let room: usize = limit - added;
            let held: usize = self.samples.len();
            if held > room {
                let kept = self.samples.split_off(held - room);
                self.samples = kept;
            }
            self.samples.extend_from_slice(new_samples);
            assert(self.samples@ =~= keep_latest(all, limit as nat));
        }
    }

    /// Clear all samples from the buffer.
    pub fn clear(&mut self)
        ensures
            final(self)@ == Seq::<i16>::empty(),
            final(self).well_formed(),
            final(self).spec_sample_rate() == old(self).spec_sample_rate(),
            final(self).spec_channels() == old(self).spec_channels(),
            final(self).spec_max_duration_secs() == old(self).spec_max_duration_secs(),
    {
        self.samples.clear();
    }

    /// Get the number of samples in the buffer.
    pub fn len(&self) -> (n: usize)
        ensures
            n == self@.len(),
    {
        self.samples.len()
    }

    /// Check if the buffer is empty.
    pub fn is_empty(&self) -> (b: bool)
        ensures
            b == (self@.len() == 0),
    {
        self.samples.len() == 0
    }

    /// The duration of the buffered audio in whole milliseconds (at most
    /// `u64::MAX`), or `None` if the rate or the channel count is zero.
    pub fn duration_ms(&self) -> (d: Option<u64>)
        ensures
            d == if self.spec_sample_rate() == 0 || self.spec_channels() == 0 {
                None::<u64>
            } else {
                Some(
                    capped_millis(
                        duration_millis(self@.len(), self.spec_sample_rate(), self.spec_channels()),
                    ),
                )
            },
    {
        if self.sample_rate == 0 || self.channels == 0 {
            return None;
        }
        let rate: u128 = self.sample_rate as u128;
        let channels: u128 = self.channels as u128;
        assert(1 <= rate * channels <= 0xffff_ffff * 0xffff) by (nonlinear_arith)
            requires
                1 <= rate <= 0xffff_ffff,
                1 <= channels <= 0xffff,
        ;
        let per_sec: u128 = rate * channels;
        let scaled: u128 = self.samples.len() as u128 * 1000;
        let ms: u128 = scaled / per_sec;
        Some(if ms > u64::MAX as u128 { u64::MAX } else { ms as u64 })
    }

    /// Convert the buffer contents to the bytes of a 16-bit PCM WAV file.
    /// Fails with an encoding error exactly when the content is not
    /// encodable. Reading the bytes back gives the buffer's rate, channel
    /// count and samples.
    pub fn to_wav_bytes(&self) -> (r: Result<Vec<u8>, AudioCaptureError>)
        ensures
            match r {
                Ok(bytes) => encodable(self.spec_sample_rate(), self.spec_channels(), self@)
                    && bytes@ == wav_file(self.spec_sample_rate(), self.spec_channels(), self@)
                    && decoded(bytes@) == Some(
                    (self.spec_sample_rate(), self.spec_channels(), self@),
                ),
                Err(e) => !encodable(self.spec_sample_rate(), self.spec_channels(), self@)
                    && e is Encoding,
            },
    {
        if self.sample_rate == 0 {
            return Err(
                AudioCaptureError::Encoding(String::from_str("The sample rate is zero.")),
            );
        }
        if self.channels == 0 {
            return Err(
                AudioCaptureError::Encoding(String::from_str("The channel count is zero.")),
            );
        }
        let double_rate: u64 = self.sample_rate as u64 * 2;
        let channels: u64 = self.channels as u64;
        assert(double_rate * channels <= 0x1_ffff_fffe * 0xffff) by (nonlinear_arith)
            requires
                double_rate <= 0x1_ffff_fffe,
                channels <= 0xffff,
        ;
        let byte_rate: u64 = double_rate * channels;
        if byte_rate > u32::MAX as u64 {
            return Err(
                AudioCaptureError::Encoding(
                    String::from_str("The byte rate does not fit the header."),
                ),
            );
        }
        let header_rest: usize = if self.channels <= 2 {
            36
        } else {
            60
        };
        if self.samples.len() > (u32::MAX as usize - header_rest) / 2 {
            return Err(
                AudioCaptureError::Encoding(
                    String::from_str("The audio does not fit a WAV file."),
                ),
            );
        }
        proof {
            lemma_wav_round_trip(self.sample_rate, self.channels, self.samples@);
        }
        match hound_write_pcm16(self.sample_rate, self.channels, self.samples.as_slice()) {
            Ok(bytes) => Ok(bytes),
            Err(e) => Err(AudioCaptureError::Encoding(hound_error_text(&e))),
        }
    }

    /// Get the sample rate.
    pub fn sample_rate(&self) -> (rate: u32)
        ensures
            rate == self.spec_sample_rate(),
    {
        self.sample_rate
    }

    /// Get the number of channels.
    pub fn channels(&self) -> (channels: u16)
        ensures
            channels == self.spec_channels(),
    {
        self.channels
    }
}

} // verus!

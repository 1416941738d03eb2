//! The voice activity detector: a frame classifier behind the debounce
//! state, with the pre-roll ring.

use vstd::prelude::*;
use vstd::slice::{slice_subrange, slice_to_vec};
use std::collections::VecDeque;
use crate::vad::{Hysteresis, VadAggressiveness, VadConfig, VadEvent, VadSignal};

verus! {

/// The classifier of the `webrtc-vad` crate. Opaque: nothing is known of its
/// inner state.
#[verifier::external_type_specification]
#[verifier::external_body]
pub struct ExVad(webrtc_vad::Vad);

/// `webrtc_vad::Vad::new_with_rate_and_mode`, at 16 kHz and the mode that
/// corresponds to the aggressiveness level. Nothing is claimed of the value.
#[verifier::external_body]
fn new_classifier(level: VadAggressiveness) -> (vad: webrtc_vad::Vad) {
    let mode = match level {
        VadAggressiveness::Quality => webrtc_vad::VadMode::Quality,
        VadAggressiveness::LowBitrate => webrtc_vad::VadMode::LowBitrate,
        VadAggressiveness::Aggressive => webrtc_vad::VadMode::Aggressive,
        VadAggressiveness::VeryAggressive => webrtc_vad::VadMode::VeryAggressive,
    };
    webrtc_vad::Vad::new_with_rate_and_mode(webrtc_vad::SampleRate::Rate16kHz, mode)
}

/// `webrtc_vad::Vad::is_voice_segment`. It reads the first sample
/// unconditionally, so the frame must not be empty. The verdict depends on
/// the classifier's history, so nothing is claimed of it.
#[verifier::external_body]
fn classify(vad: &mut webrtc_vad::Vad, frame: &[i16]) -> (verdict: Result<bool, ()>)
    requires
        frame@.len() > 0,
{
    vad.is_voice_segment(frame)
}

/// The ring after a frame is pushed: the frame goes to the back, and the
/// oldest frame leaves if the ring then holds more than `capacity` frames.
pub open spec fn ring_push(ring: Seq<Seq<i16>>, frame: Seq<i16>, capacity: nat) -> Seq<Seq<i16>> {
    let pushed = ring.push(frame);
    if pushed.len() > capacity {
        pushed.drop_first()
    } else {
        pushed
    }
}

/// The samples of all frames, oldest frame first.
pub open spec fn joined(frames: Seq<Seq<i16>>) -> Seq<i16>
    decreases frames.len(),
{
    if frames.len() == 0 {
        Seq::empty()
    } else {
        joined(frames.drop_last()) + frames.last()
    }
}

/// Whether `event` is the event owed for `signal` when the ring holds `ring`:
/// a speech start carries the joined ring, the others carry nothing.
pub open spec fn event_for(signal: VadSignal, ring: Seq<Seq<i16>>, event: VadEvent) -> bool {
    match signal {
        VadSignal::NoEvent => event is NoEvent,
        VadSignal::SpeechStart => event matches VadEvent::SpeechStart { pre_roll } && pre_roll@
            == joined(ring),
        VadSignal::SpeechEnd => event is SpeechEnd,
    }
}

/// Whether a frame classified as `speech` takes the debounce state from
/// `before` to `after` and yields `event`, the ring being `ring` once the
/// frame is in it.
pub open spec fn frame_outcome(
    before: Hysteresis,
    config: VadConfig,
    speech: bool,
    after: Hysteresis,
    ring: Seq<Seq<i16>>,
    event: VadEvent,
) -> bool {
    &&& after == before.next(config, speech)
    &&& event_for(before.signal(config, speech), ring, event)
}

/// A frame classified as silence never yields a speech start, and yields
/// nothing at all while the detector is not speaking.
pub proof fn lemma_silent_frame_event(
    before: Hysteresis,
    config: VadConfig,
    after: Hysteresis,
    ring: Seq<Seq<i16>>,
    event: VadEvent,
)
    requires
        frame_outcome(before, config, false, after, ring, event),
    ensures
        !(event is SpeechStart),
        !before.is_speaking ==> event is NoEvent && !after.is_speaking,
{
}

/// Voice activity detector with pre-roll buffering and hangover.
pub struct VoiceActivityDetector {
    vad: webrtc_vad::Vad,
    config: VadConfig,
    hysteresis: Hysteresis,
    pre_roll_buffer: VecDeque<Vec<i16>>,
    pre_roll_max_frames: usize,
}

impl VoiceActivityDetector {
    /// The configuration the detector was built with.
    pub closed spec fn spec_config(&self) -> VadConfig {
        self.config
    }

    /// The debounce state.
    pub closed spec fn hysteresis(&self) -> Hysteresis {
        self.hysteresis
    }

    /// The frames in the pre-roll ring, oldest first.
    pub closed spec fn pre_roll(&self) -> Seq<Seq<i16>> {
        Seq::new(self.pre_roll_buffer@.len(), |i: int| self.pre_roll_buffer@[i]@)
    }

    /// The detector's invariant: a usable configuration and a ring within
    /// its capacity.
    pub closed spec fn well_formed(&self) -> bool {
        &&& self.config.usable()
        &&& self.pre_roll_max_frames == self.config.pre_roll_capacity()
        &&& self.pre_roll_buffer@.len() <= self.pre_roll_max_frames
    }

    /// A well-formed detector has a usable configuration and at most
    /// `pre_roll_capacity` frames in its ring.
    pub proof fn lemma_well_formed(&self)
        requires
            self.well_formed(),
        ensures
            self.spec_config().usable(),
            self.pre_roll().len() <= self.spec_config().pre_roll_capacity(),
    {
    }

    /// Create a detector with the given configuration: not speaking, empty
    /// runs, empty ring.
    pub fn new(config: VadConfig) -> (d: Self)
        requires
            config.usable(),
        ensures
            d.well_formed(),
            d.spec_config() == config,
            d.hysteresis() == (Hysteresis {
                is_speaking: false,
                speech_frames: 0,
                silence_frames: 0,
            }),
            d.pre_roll() == Seq::<Seq<i16>>::empty(),
    {
        let vad = new_classifier(config.aggressiveness);
        let pre_roll_max_frames: u32 = config.pre_roll_ms / config.frame_duration_ms;
        let d = VoiceActivityDetector {
            vad,
            config,
            hysteresis: Hysteresis::new(),
            pre_roll_buffer: VecDeque::new(),
            pre_roll_max_frames: pre_roll_max_frames as usize,
        };
        assert(d.pre_roll() =~= Seq::<Seq<i16>>::empty());
        d
    }

    /// Collect the ring's samples, oldest frame first.
    fn collect_pre_roll(&self) -> (samples: Vec<i16>)
        ensures
            samples@ == joined(self.pre_roll()),
    {
        let mut samples: Vec<i16> = Vec::new();
        let n: usize = self.pre_roll_buffer.len();
        let mut i: usize = 0;
        assert(self.pre_roll().take(0) =~= Seq::<Seq<i16>>::empty());
        while i < n
            invariant
                i <= n,
                n == self.pre_roll_buffer@.len(),
                samples@ == joined(self.pre_roll().take(i as int)),
            decreases n - i,
        {
            let ghost before = samples@;
            let frame = &self.pre_roll_buffer[i];
            samples.extend_from_slice(frame.as_slice());
            proof {
                let taken = self.pre_roll().take(i + 1);
                assert(taken.drop_last() =~= self.pre_roll().take(i as int));
                assert(taken.last() == frame@);
                assert(samples@ =~= before + frame@);
            }
            i = i + 1;
        }
        assert(self.pre_roll().take(n as int) =~= self.pre_roll());
        samples
    }

    /// Account for a frame whose classification is known. The frame enters
    /// the pre-roll ring (evicting the oldest frame when full), the debounce
    /// state advances, and a speech start carries the ring's audio.
    pub fn process_classified_frame(&mut self, samples: &[i16], is_speech: bool) -> (event:
        VadEvent)
        requires
            old(self).well_formed(),
        ensures
            final(self).well_formed(),
            final(self).spec_config() == old(self).spec_config(),
            final(self).pre_roll() == ring_push(
                old(self).pre_roll(),
                samples@,
                old(self).spec_config().pre_roll_capacity(),
            ),
            frame_outcome(
                old(self).hysteresis(),
                old(self).spec_config(),
                is_speech,
                final(self).hysteresis(),
                final(self).pre_roll(),
                event,
            ),
    {
        let ghost ring0 = self.pre_roll();
        self.pre_roll_buffer.push_back(slice_to_vec(samples));
        assert(self.pre_roll() =~= ring0.push(samples@));
        if self.pre_roll_buffer.len() > self.pre_roll_max_frames {
            let _ = self.pre_roll_buffer.pop_front();
            assert(self.pre_roll() =~= ring0.push(samples@).drop_first());
        }
        let signal = self.hysteresis.step(&self.config, is_speech);
        match signal {
            VadSignal::SpeechStart => VadEvent::SpeechStart { pre_roll: self.collect_pre_roll() },
            VadSignal::SpeechEnd => VadEvent::SpeechEnd,
            VadSignal::NoEvent => VadEvent::NoEvent,
        }
    }

    /// Process a frame of audio samples and return the event it causes. The
    /// frame is classified as speech or silence; a frame the classifier
    /// rejects counts as silence. Whatever the classification is, the state
    /// and the event are those of `process_classified_frame` for it.
    pub fn process_frame(&mut self, samples: &[i16]) -> (event: VadEvent)
        requires
            old(self).well_formed(),
            samples@.len() > 0,
        ensures
            final(self).well_formed(),
            final(self).spec_config() == old(self).spec_config(),
            final(self).pre_roll() == ring_push(
                old(self).pre_roll(),
                samples@,
                old(self).spec_config().pre_roll_capacity(),
            ),
            exists|speech: bool| #[trigger]
                frame_outcome(
                    old(self).hysteresis(),
                    old(self).spec_config(),
                    speech,
                    final(self).hysteresis(),
                    final(self).pre_roll(),
                    event,
                ),
    {
        let is_speech = match classify(&mut self.vad, samples) {
            Ok(verdict) => verdict,
            Err(_) => false,
        };
        let event = self.process_classified_frame(samples, is_speech);
        assert(frame_outcome(
            old(self).hysteresis(),
            old(self).spec_config(),
            is_speech,
            self.hysteresis(),
            self.pre_roll(),
            event,
        ));
        event
    }

    /// Reset the detector for a new session: not speaking, empty runs, empty
    /// ring. The configuration stays.
    pub fn reset(&mut self)
        requires
            old(self).well_formed(),
        ensures
            final(self).well_formed(),
            final(self).spec_config() == old(self).spec_config(),
            final(self).hysteresis() == (Hysteresis {
                is_speaking: false,
                speech_frames: 0,
                silence_frames: 0,
            }),
            final(self).pre_roll() == Seq::<Seq<i16>>::empty(),
    {
        self.hysteresis = Hysteresis::new();
        self.pre_roll_buffer.clear();
        assert(self.pre_roll() =~= Seq::<Seq<i16>>::empty());
    }

    /// Check if currently detecting speech.
    pub fn is_speaking(&self) -> (b: bool)
        ensures
            b == self.hysteresis().is_speaking,
    {
        self.hysteresis.is_speaking
    }

    /// The expected frame size in samples for the configured duration:
    /// 160, 320 or 480 for 10, 20 or 30 ms.
    pub fn frame_size(&self) -> (n: usize)
        requires
            self.well_formed(),
        ensures
            n == self.spec_config().spec_frame_size(),
    {
        let samples: u32 = 16000 * self.config.frame_duration_ms / 1000;
        samples as usize
    }

    /// Get the detector's configuration.
    pub fn config(&self) -> (c: &VadConfig)
        ensures
            *c == self.spec_config(),
    {
        &self.config
    }
}

/// What a detector remembers between frames: the debounce state and the
/// pre-roll ring.
pub struct DetectorModel {
    /// The debounce state.
    pub hysteresis: Hysteresis,
    /// The frames in the pre-roll ring, oldest first.
    pub ring: Seq<Seq<i16>>,
}

impl VoiceActivityDetector {
    /// The detector's memory.
    pub open spec fn model(&self) -> DetectorModel {
        DetectorModel { hysteresis: self.hysteresis(), ring: self.pre_roll() }
    }
}

/// The detector's memory after a frame classified as `speech`.
pub open spec fn model_step(
    m: DetectorModel,
    config: VadConfig,
    frame: Seq<i16>,
    speech: bool,
) -> DetectorModel {
    DetectorModel {
        hysteresis: m.hysteresis.next(config, speech),
        ring: ring_push(m.ring, frame, config.pre_roll_capacity()),
    }
}

/// The detector's memory after a run of frames with the given
/// classifications.
pub open spec fn model_after(
    m: DetectorModel,
    config: VadConfig,
    frames: Seq<Seq<i16>>,
    decisions: Seq<bool>,
) -> DetectorModel
    decreases frames.len(),
{
    if frames.len() == 0 {
        m
    } else {
        model_after(
            model_step(m, config, frames[0], decisions[0]),
            config,
            frames.drop_first(),
            decisions.drop_first(),
        )
    }
}

/// Whether `events` are the events owed for a run of frames with the given
/// classifications: one for each frame that crosses a boundary, in order,
/// each speech start carrying the ring as it was at its frame.
pub open spec fn events_match(
    m: DetectorModel,
    config: VadConfig,
    frames: Seq<Seq<i16>>,
    decisions: Seq<bool>,
    events: Seq<VadEvent>,
) -> bool
    decreases frames.len(),
{
    if frames.len() == 0 {
        events.len() == 0
    } else {
        let signal = m.hysteresis.signal(config, decisions[0]);
        let next = model_step(m, config, frames[0], decisions[0]);
        if signal == VadSignal::NoEvent {
            events_match(next, config, frames.drop_first(), decisions.drop_first(), events)
        } else {
            &&& events.len() > 0
            &&& event_for(signal, next.ring, events[0])
            &&& events_match(
                next,
                config,
                frames.drop_first(),
                decisions.drop_first(),
                events.drop_first(),
            )
        }
    }
}

/// The events with `event` added, unless it reports nothing.
pub open spec fn with_event(events: Seq<VadEvent>, event: VadEvent) -> Seq<VadEvent> {
    if event is NoEvent {
        events
    } else {
        events.push(event)
    }
}

/// Feeding one more frame extends the memory by one step and the owed
/// events by that frame's event.
proof fn lemma_events_extend(
    m: DetectorModel,
    config: VadConfig,
    frames: Seq<Seq<i16>>,
    decisions: Seq<bool>,
    events: Seq<VadEvent>,
    frame: Seq<i16>,
    speech: bool,
    event: VadEvent,
)
    requires
        frames.len() == decisions.len(),
        events_match(m, config, frames, decisions, events),
        event_for(
            model_after(m, config, frames, decisions).hysteresis.signal(config, speech),
            model_step(model_after(m, config, frames, decisions), config, frame, speech).ring,
            event,
        ),
    ensures
        events_match(
            m,
            config,
            frames.push(frame),
            decisions.push(speech),
            with_event(events, event),
        ),
        model_after(m, config, frames.push(frame), decisions.push(speech)) == model_step(
            model_after(m, config, frames, decisions),
            config,
            frame,
            speech,
        ),
    decreases frames.len(),
{
    let frames1 = frames.push(frame);
    let decisions1 = decisions.push(speech);
    if frames.len() == 0 {
        assert(frames1.drop_first() =~= Seq::<Seq<i16>>::empty());
        assert(decisions1.drop_first() =~= Seq::<bool>::empty());
        let next = model_step(m, config, frame, speech);
        let none = Seq::<VadEvent>::empty();
        assert(model_after(next, config, frames1.drop_first(), decisions1.drop_first()) == next);
        assert(events_match(next, config, frames1.drop_first(), decisions1.drop_first(), none));
        assert(events =~= none);
        if m.hysteresis.signal(config, speech) != VadSignal::NoEvent {
            assert(with_event(events, event).drop_first() =~= none);
        }
    } else {
        let next = model_step(m, config, frames[0], decisions[0]);
        let signal = m.hysteresis.signal(config, decisions[0]);
        assert(frames1.drop_first() =~= frames.drop_first().push(frame));
        assert(decisions1.drop_first() =~= decisions.drop_first().push(speech));
        if signal == VadSignal::NoEvent {
            lemma_events_extend(
                next,
                config,
                frames.drop_first(),
                decisions.drop_first(),
                events,
                frame,
                speech,
                event,
            );
        } else {
            lemma_events_extend(
                next,
                config,
                frames.drop_first(),
                decisions.drop_first(),
                events.drop_first(),
                frame,
                speech,
                event,
            );
            assert(with_event(events, event).drop_first() =~= with_event(
                events.drop_first(),
                event,
            ));
        }
    }
}

/// The complete frames of `size` samples in `samples`, in order.
pub open spec fn whole_frames(samples: Seq<i16>, size: nat) -> Seq<Seq<i16>> {
    Seq::new(
        (samples.len() / size) as nat,
        |i: int| samples.subrange(i * size, i * size + size),
    )
}

/// The samples left over once the complete frames are taken.
pub open spec fn waiting_after(samples: Seq<i16>, size: nat) -> Seq<i16> {
    samples.skip((whole_frames(samples, size).len() * size) as int)
}

/// Whether feeding `frames`, under some classification of each, takes the
/// detector's memory from `before` to `after` and yields `events`.
pub open spec fn frames_fed(
    before: DetectorModel,
    config: VadConfig,
    frames: Seq<Seq<i16>>,
    after: DetectorModel,
    events: Seq<VadEvent>,
) -> bool {
    exists|decisions: Seq<bool>|
        {
            &&& decisions.len() == frames.len()
            &&& #[trigger] events_match(before, config, frames, decisions, events)
            &&& after == model_after(before, config, frames, decisions)
        }
}

/// Source samples needed for one detector frame: the frame size scaled by
/// the ratio of the rates, rounded up.
pub open spec fn source_samples_per_frame(frame_size: nat, source_rate: u32) -> nat {
    ((frame_size * source_rate + 15999) / 16000) as nat
}

/// Splits a stream of detector-rate samples into frames and feeds them to
/// the detector, keeping what does not yet fill a frame. Resampling from the
/// source rate happens before the samples get here.
pub struct VadFrameProcessor {
    vad: VoiceActivityDetector,
    source_sample_rate: u32,
    resampled_buffer: Vec<i16>,
}

impl VadFrameProcessor {
    /// The detector behind the processor.
    pub closed spec fn detector(&self) -> VoiceActivityDetector {
        self.vad
    }

    /// The samples waiting for a frame to fill up.
    pub closed spec fn pending(&self) -> Seq<i16> {
        self.resampled_buffer@
    }

    /// The rate of the audio source.
    pub closed spec fn spec_source_sample_rate(&self) -> u32 {
        self.source_sample_rate
    }

    /// The processor's invariant: a well-formed detector.
    pub open spec fn well_formed(&self) -> bool {
        self.detector().well_formed()
    }

    /// Create a frame processor for a source of the given rate.
    pub fn new(config: VadConfig, source_sample_rate: u32) -> (p: Self)
        requires
            config.usable(),
        ensures
            p.well_formed(),
            p.detector().spec_config() == config,
            p.detector().model() == (DetectorModel {
                hysteresis: Hysteresis { is_speaking: false, speech_frames: 0, silence_frames: 0 },
                ring: Seq::<Seq<i16>>::empty(),
            }),
            p.pending() == Seq::<i16>::empty(),
            p.spec_source_sample_rate() == source_sample_rate,
    {
        VadFrameProcessor {
            vad: VoiceActivityDetector::new(config),
            source_sample_rate,
            resampled_buffer: Vec::new(),
        }
    }

    /// How many source samples make one detector frame.
    pub fn source_frame_size(&self) -> (n: u64)
        requires
            self.well_formed(),
        ensures
            n == source_samples_per_frame(
                self.detector().spec_config().spec_frame_size(),
                self.spec_source_sample_rate(),
            ),
    {
        proof {
            self.vad.lemma_well_formed();
        }
        let frame: u64 = self.vad.frame_size() as u64;
        let rate: u64 = self.source_sample_rate as u64;
        assert(frame * rate <= 0xffff_ffff * 0xffff_ffff) by (nonlinear_arith)
            requires
                frame <= 0xffff_ffff,
                rate <= 0xffff_ffff,
        ;
        (frame * rate + 15999) / 16000
    }

    /// Take in detector-rate samples and feed every frame that is now
    /// complete to the detector. Returns the boundary events in order. The
    /// samples that do not fill a frame wait for the next call.
    #[verifier::rlimit(40)]
    pub fn process(&mut self, resampled: &[i16]) -> (events: Vec<VadEvent>)
        requires
            old(self).well_formed(),
        ensures
            final(self).well_formed(),
            final(self).detector().spec_config() == old(self).detector().spec_config(),
            final(self).spec_source_sample_rate() == old(self).spec_source_sample_rate(),
            final(self).pending() == waiting_after(
                old(self).pending() + resampled@,
                old(self).detector().spec_config().spec_frame_size(),
            ),
            final(self).pending().len() < old(self).detector().spec_config().spec_frame_size(),
            frames_fed(
                old(self).detector().model(),
                old(self).detector().spec_config(),
                whole_frames(
                    old(self).pending() + resampled@,
                    old(self).detector().spec_config().spec_frame_size(),
                ),
                final(self).detector().model(),
                events@,
            ),
    {
        proof {
            self.vad.lemma_well_formed();
        }
        let ghost config = self.vad.spec_config();
        let ghost start_model = self.vad.model();
        let ghost all = self.resampled_buffer@ + resampled@;
        self.resampled_buffer.extend_from_slice(resampled);
        assert(self.resampled_buffer@ =~= all);
        let size: usize = self.vad.frame_size();
        let total: usize = self.resampled_buffer.len();
        let ghost frames = whole_frames(all, size as nat);
        let mut events: Vec<VadEvent> = Vec::new();
        let mut start: usize = 0;
        let ghost mut fed: nat = 0;
        let ghost mut decisions: Seq<bool> = Seq::empty();
        assert(frames.take(0) =~= Seq::<Seq<i16>>::empty());
        while total - start >= size
            invariant
                0 < size == config.spec_frame_size(),
                total == all.len(),
                self.resampled_buffer@ == all,
                frames == whole_frames(all, size as nat),
                start == fed * size,
                start <= total,
                fed <= frames.len(),
                decisions.len() == fed,
                self.vad.well_formed(),
                self.vad.spec_config() == config,
                self.source_sample_rate == old(self).source_sample_rate,
                events_match(start_model, config, frames.take(fed as int), decisions, events@),
                self.vad.model() == model_after(
                    start_model,
                    config,
                    frames.take(fed as int),
                    decisions,
                ),
            decreases total - start,
        {
            proof {
                assert((fed + 1) * size == fed * size + size) by (nonlinear_arith);
                assert(fed < (all.len() as int) / (size as int)) by (nonlinear_arith)
                    requires
                        fed * size + size <= all.len(),
                        size > 0,
                        fed >= 0,
                ;
            }
            let ghost before = self.vad.model();
            let frame = slice_subrange(self.resampled_buffer.as_slice(), start, start + size);
            assert(frame@ =~= frames[fed as int]);
            let event = self.vad.process_frame(frame);
            proof {
                let speech = choose|speech: bool| #[trigger]
                    frame_outcome(
                        before.hysteresis,
                        config,
                        speech,
                        self.vad.hysteresis(),
                        self.vad.pre_roll(),
                        event,
                    );
                lemma_events_extend(
                    start_model,
                    config,
                    frames.take(fed as int),
                    decisions,
                    events@,
                    frame@,
                    speech,
                    event,
                );
                assert(frames.take(fed as int).push(frame@) =~= frames.take(fed as int + 1));
                decisions = decisions.push(speech);
            }
            match event {
                VadEvent::NoEvent => {},
                other => {
                    events.push(other);
                },
            }
            start = start + size;
            proof {
                fed = fed + 1;
            }
        }
        proof {
            assert(fed == (all.len() as int) / (size as int)) by (nonlinear_arith)
                requires
                    fed * size <= all.len(),
                    all.len() - fed * size < size,
                    size > 0,
                    fed >= 0,
            ;
            assert(frames.take(fed as int) =~= frames);
        }
        let rest = slice_to_vec(slice_subrange(self.resampled_buffer.as_slice(), start, total));
        self.resampled_buffer = rest;
        assert(self.resampled_buffer@ =~= all.skip((frames.len() * size) as int));
        assert(events_match(start_model, config, frames, decisions, events@));
        events
    }

    /// How many samples wait for a frame to fill up.
    pub fn pending_len(&self) -> (n: usize)
        ensures
            n == self.pending().len(),
    {
        self.resampled_buffer.len()
    }

    /// Reset the processor: the detector is reset and waiting samples are
    /// dropped.
    pub fn reset(&mut self)
        requires
            old(self).well_formed(),
        ensures
            final(self).well_formed(),
            final(self).detector().spec_config() == old(self).detector().spec_config(),
            final(self).spec_source_sample_rate() == old(self).spec_source_sample_rate(),
            final(self).detector().model() == (DetectorModel {
                hysteresis: Hysteresis { is_speaking: false, speech_frames: 0, silence_frames: 0 },
                ring: Seq::<Seq<i16>>::empty(),
            }),
            final(self).pending() == Seq::<i16>::empty(),
    {
        self.vad.reset();
        self.resampled_buffer.clear();
    }

    /// Check if currently detecting speech.
    pub fn is_speaking(&self) -> (b: bool)
        ensures
            b == self.detector().hysteresis().is_speaking,
    {
        self.vad.is_speaking()
    }
}

} // verus!

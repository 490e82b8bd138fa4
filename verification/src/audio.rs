//! Placeholder audio: two sine oscillators whose phases are tracked exactly.
//!
//! A phase is counted in steps of `1 / SAMPLE_RATE` of a cycle, so an
//! oscillator of `frequency` Hz advances by `frequency` steps per sample, and
//! the phase position `p` stands for the sample
//! `0.5 * sin(2 * pi * p / SAMPLE_RATE)`. Turning positions into amplitudes
//! is left to the caller; everything before that is integer arithmetic.

use vstd::prelude::*;

verus! {

/// Samples per second.
pub const SAMPLE_RATE: u32 = 44100;

/// Interleaved channels per frame (stereo).
pub const CHANNELS: u16 = 2;

/// Frames per buffer, that is samples per channel.
pub const BUFFER_SIZE_SAMPLES: usize = 1024;

/// Frequency of the left channel's tone in Hz (the note A4).
pub const LEFT_FREQUENCY: u32 = 440;

/// Frequency of the right channel's tone in Hz (the note E5).
pub const RIGHT_FREQUENCY: u32 = 660;

/// The mathematical state of an oscillator.
pub struct Oscillator {
    /// Position within the cycle, in steps of `1 / SAMPLE_RATE` of a cycle.
    pub phase: nat,
    /// Steps per sample, which is the frequency in Hz.
    pub frequency: nat,
}

impl Oscillator {
    /// An oscillator at the start of its cycle.
    pub open spec fn fresh(frequency: nat) -> Oscillator {
        Oscillator { phase: 0, frequency }
    }

    /// The oscillator after `samples` more samples.
    pub open spec fn after(self, samples: nat) -> Oscillator {
        Oscillator {
            phase: (self.phase + samples * self.frequency) % (SAMPLE_RATE as nat),
            frequency: self.frequency,
        }
    }

    /// Where the phase lies within one cycle, as every reachable phase does.
    pub open spec fn in_cycle(self) -> bool {
        self.phase < SAMPLE_RATE
    }

    /// Taking `first` samples and then `second` is taking `first + second`.
    pub proof fn lemma_after_composes(self, first: nat, second: nat)
        ensures
            self.after(first).after(second) == self.after(first + second),
    {
        let step = self.frequency as int;
        assert((first + second) * step == first * step + second * step) by (nonlinear_arith);
        let reached = self.phase + first * step;
        let further = second * step;
        assert(((reached % 44100) + further) % 44100 == (reached + further) % 44100) by {
            vstd::arithmetic::div_mod::lemma_add_mod_noop(reached, further, 44100);
            vstd::arithmetic::div_mod::lemma_add_mod_noop(reached % 44100, further, 44100);
            vstd::arithmetic::div_mod::lemma_mod_twice(reached, 44100);
        }
    }

    /// A whole number of seconds brings an oscillator within its cycle back
    /// to where it was.
    pub proof fn lemma_period(self, seconds: nat)
        requires
            self.in_cycle(),
        ensures
            self.after(seconds * SAMPLE_RATE as nat) == self,
    {
        let turns = seconds * self.frequency;
        assert(seconds * 44100 * self.frequency == 44100 * turns) by (nonlinear_arith)
            requires
                turns == seconds * self.frequency,
        ;
        vstd::arithmetic::div_mod::lemma_mod_multiples_vanish(
            turns as int,
            self.phase as int,
            44100,
        );
    }
}

/// Phase accumulator of one sine oscillator.
#[derive(Clone, Copy, Debug)]
pub struct SineWaveGenerator {
    phase: u32,
    frequency: u32,
}

impl View for SineWaveGenerator {
    type V = Oscillator;

    closed spec fn view(&self) -> Oscillator {
        Oscillator { phase: self.phase as nat, frequency: self.frequency as nat }
    }
}

impl SineWaveGenerator {
    #[verifier::type_invariant]
    spec fn within_cycle(self) -> bool {
        self.phase < SAMPLE_RATE
    }

    /// An oscillator of `frequency` Hz at the start of its cycle.
    pub fn new(frequency: u32) -> (generator: Self)
        ensures
            generator@ == Oscillator::fresh(frequency as nat),
    {
        SineWaveGenerator { phase: 0, frequency }
    }

    /// The current phase position.
    pub fn phase(&self) -> (phase: u32)
        ensures
            phase == self@.phase,
            phase < SAMPLE_RATE,
    {
        proof {
            use_type_invariant(self);
        }
        self.phase
    }

    /// The frequency in Hz.
    pub fn frequency(&self) -> (frequency: u32)
        ensures
            frequency == self@.frequency,
    {
        self.frequency
    }

    /// Returns the phase position of the next sample and advances the phase
    /// by one sample period, wrapping at the end of the cycle.
    pub fn next_sample(&mut self) -> (position: u32)
        ensures
            position == old(self)@.phase,
            position < SAMPLE_RATE,
            final(self)@ == old(self)@.after(1),
    {
        proof {
            use_type_invariant(&*self);
        }
        let position: u32 = self.phase;
        let advanced: u64 = (self.phase as u64 + self.frequency as u64) % (SAMPLE_RATE as u64);
        self.phase = advanced as u32;
        position
    }
}

/// The two oscillators of the placeholder signal, each absent until the
/// signal is initialized.
#[derive(Clone, Copy, Debug)]
pub struct PlaceholderAudio {
    /// Oscillator of the left channel.
    pub left: Option<SineWaveGenerator>,
    /// Oscillator of the right channel.
    pub right: Option<SineWaveGenerator>,
}

/// The position that stands at `index` in a buffer that starts from the
/// oscillators `left` and `right`: frames in order, left before right.
pub open spec fn buffer_position(left: Oscillator, right: Oscillator, index: int) -> nat {
    if index % 2 == 0 {
        left.after((index / 2) as nat).phase
    } else {
        right.after((index / 2) as nat).phase
    }
}

/// The whole buffer that starts from the oscillators `left` and `right`.
pub open spec fn buffer_positions(left: Oscillator, right: Oscillator) -> Seq<u32> {
    Seq::new(
        (BUFFER_SIZE_SAMPLES * CHANNELS) as nat,
        |index: int| buffer_position(left, right, index) as u32,
    )
}

impl PlaceholderAudio {
    /// The signal before its initialization: no oscillator yet.
    pub fn new() -> (audio: Self)
        ensures
            audio.left is None,
            audio.right is None,
    {
        PlaceholderAudio { left: None, right: None }
    }

    /// Whether both oscillators are there.
    pub open spec fn initialized(self) -> bool {
        self.left is Some && self.right is Some
    }

    /// Whether both oscillators are there, so that the next buffer continues
    /// the signal instead of starting it anew.
    pub fn is_initialized(&self) -> (yes: bool)
        ensures
            yes == self.initialized(),
    {
        self.left.is_some() && self.right.is_some()
    }

    /// Whether the oscillators are freshly initialized ones.
    pub open spec fn is_fresh(self) -> bool {
        &&& self.left matches Some(left)
        &&& left@ == Oscillator::fresh(LEFT_FREQUENCY as nat)
        &&& self.right matches Some(right)
        &&& right@ == Oscillator::fresh(RIGHT_FREQUENCY as nat)
    }

    /// The oscillators that the next buffer starts from: those at hand, or
    /// fresh ones where either is missing.
    pub open spec fn starting(self) -> (Oscillator, Oscillator) {
        if self.initialized() {
            (self.left->0@, self.right->0@)
        } else {
            (
                Oscillator::fresh(LEFT_FREQUENCY as nat),
                Oscillator::fresh(RIGHT_FREQUENCY as nat),
            )
        }
    }
}

/// Puts both oscillators at the start of their cycles, the left one at
/// `LEFT_FREQUENCY` and the right one at `RIGHT_FREQUENCY`.
pub fn init_audio_placeholder(audio: &mut PlaceholderAudio)
    ensures
        final(audio).is_fresh(),
{
    audio.left = Some(SineWaveGenerator::new(LEFT_FREQUENCY));
    audio.right = Some(SineWaveGenerator::new(RIGHT_FREQUENCY));
}

/// Initializes the audio source, which is the placeholder signal.
pub fn init_audio(audio: &mut PlaceholderAudio)
    ensures
        final(audio).is_fresh(),
{
    init_audio_placeholder(audio);
}

/// Generates one buffer of the stereo signal: the phase positions of
/// `BUFFER_SIZE_SAMPLES` frames, interleaved `[L, R, L, R, ...]`.
///
/// Where an oscillator is missing, both are initialized first. Afterwards
/// both have advanced by `BUFFER_SIZE_SAMPLES` samples.
pub fn get_placeholder_audio_buffer(audio: &mut PlaceholderAudio) -> (buffer: Vec<u32>)
    ensures
        buffer@ == buffer_positions(old(audio).starting().0, old(audio).starting().1),
        forall|index: int| 0 <= index < buffer@.len() ==> buffer@[index] < SAMPLE_RATE,
        final(audio).left matches Some(left) && left@ == old(audio).starting().0.after(
            BUFFER_SIZE_SAMPLES as nat,
        ),
        final(audio).right matches Some(right) && right@ == old(audio).starting().1.after(
            BUFFER_SIZE_SAMPLES as nat,
        ),
{
    if !audio.is_initialized() {
        init_audio_placeholder(audio);
    }
    let mut left = audio.left.unwrap();
    let mut right = audio.right.unwrap();
    let ghost left_start = left@;
    let ghost right_start = right@;
    proof {
        use_type_invariant(&left);
        use_type_invariant(&right);
    }
    let mut buffer: Vec<u32> = Vec::with_capacity(BUFFER_SIZE_SAMPLES * (CHANNELS as usize));
    let mut frame: usize = 0;
    while frame < BUFFER_SIZE_SAMPLES
        invariant
            frame <= BUFFER_SIZE_SAMPLES,
            left@ == left_start.after(frame as nat),
            right@ == right_start.after(frame as nat),
            buffer@.len() == 2 * frame,
            forall|index: int|
                0 <= index < buffer@.len() ==> #[trigger] buffer@[index] == buffer_position(
                    left_start,
                    right_start,
                    index,
                ),
        decreases BUFFER_SIZE_SAMPLES - frame,
    {
        proof {
            left_start.lemma_after_composes(frame as nat, 1);
            right_start.lemma_after_composes(frame as nat, 1);
        }
        buffer.push(left.next_sample());
        buffer.push(right.next_sample());
        frame += 1;
    }
    audio.left = Some(left);
    audio.right = Some(right);
    assert(buffer@ =~= buffer_positions(left_start, right_start));
    buffer
}

} // verus!

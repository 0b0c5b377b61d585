//! Finite sample streams.
//!
//! A stream is a counter over the samples of one tone or of one stretch of
//! silence. It is pulled one sample at a time and cannot be rewound.

use vstd::prelude::*;

verus! {

/// Samples per second of every stream.
pub const SAMPLE_RATE: u32 = 44100;

/// Channels of every stream: mono.
pub const CHANNELS: u16 = 1;

/// What a stream plays.
#[derive(Clone, Copy, Debug, PartialEq, Eq, Structural)]
pub enum Tone {
    /// Nothing: a tone of frequency zero.
    Silence,
    /// A sinusoid at the given distance from A4, in semitones.
    Pitch(i32),
}

/// One sample of a stream, before it is turned into an amplitude.
///
/// `Zero` is the amplitude zero. `Sine` stands for half the sine of
/// `2 * pi * f * index / 44100`, where `f` is the frequency of the pitch
/// that lies `semitones` from A4.
#[derive(Clone, Copy, Debug, PartialEq, Eq, Structural)]
pub enum Sample {
    Zero,
    Sine { semitones: i32, index: u64 },
}

/// Samples in a stream of the given length in microseconds: the length times
/// the sample rate, rounded to the nearest whole sample, a half rounding up.
pub open spec fn sample_count(duration_micros: int) -> int {
    (duration_micros * 441 + 5000) / 10000
}

/// The sample that a stream of the given tone holds at an index.
pub open spec fn sample_at(tone: Tone, index: int) -> Sample {
    match tone {
        Tone::Silence => Sample::Zero,
        Tone::Pitch(n) => Sample::Sine { semitones: n, index: index as u64 },
    }
}

/// The mathematical state of a stream.
pub ghost struct StreamState {
    pub tone: Tone,
    pub duration_micros: int,
    pub position: int,
    pub total: int,
}

impl StreamState {
    /// The state of a stream that has not been pulled yet.
    pub open spec fn fresh(tone: Tone, duration_micros: int) -> StreamState {
        StreamState { tone, duration_micros, position: 0, total: sample_count(duration_micros) }
    }

    /// The position never passes the end, and the end is fixed by the length.
    pub open spec fn wf(self) -> bool {
        &&& 0 <= self.duration_micros <= u64::MAX
        &&& self.total == sample_count(self.duration_micros)
        &&& 0 <= self.position <= self.total
    }

    pub open spec fn exhausted(self) -> bool {
        self.position >= self.total
    }

    /// The state after one sample has been pulled.
    pub open spec fn advance(self) -> StreamState {
        StreamState { position: self.position + 1, ..self }
    }

    /// How many samples are still to come.
    pub open spec fn remaining_len(self) -> nat {
        if self.position <= self.total {
            (self.total - self.position) as nat
        } else {
            0
        }
    }

    /// The state after every remaining sample has been pulled.
    pub open spec fn drained(self) -> StreamState {
        StreamState { position: self.position + self.remaining_len(), ..self }
    }

    /// The samples still to come, in the order in which they are pulled.
    pub open spec fn remaining(self) -> Seq<Sample> {
        Seq::new(self.remaining_len(), |i: int| sample_at(self.tone, self.position + i))
    }
}

/// A finite stream of samples of one tone.
#[derive(Debug)]
pub struct SineWave {
    tone: Tone,
    duration_micros: u64,
    current_sample: u64,
    total_samples: u64,
}

/// The number of samples in a stream of the given length.
pub fn samples_for(duration_micros: u64) -> (n: u64)
    ensures
        n == sample_count(duration_micros as int),
{
    let scaled: u128 = duration_micros as u128 * 441 + 5000;
    (scaled / 10000) as u64
}

impl SineWave {
    #[verifier::type_invariant]
    spec fn inv(self) -> bool {
        &&& self.total_samples == sample_count(self.duration_micros as int)
        &&& self.current_sample <= self.total_samples
    }

    pub closed spec fn view(&self) -> StreamState {
        StreamState {
            tone: self.tone,
            duration_micros: self.duration_micros as int,
            position: self.current_sample as int,
            total: self.total_samples as int,
        }
    }

    /// A stream of `tone` that lasts `duration_micros` microseconds, at its
    /// first sample.
    pub fn new(tone: Tone, duration_micros: u64) -> (s: Self)
        ensures
            s@ == StreamState::fresh(tone, duration_micros as int),
    {
        SineWave {
            tone,
            duration_micros,
            current_sample: 0,
            total_samples: samples_for(duration_micros),
        }
    }

    /// Pulls the next sample, or `None` once the stream is exhausted.
    pub fn next(&mut self) -> (r: Option<Sample>)
        ensures
            final(self)@.wf(),
            old(self)@.exhausted() ==> r is None && final(self)@ == old(self)@,
            !old(self)@.exhausted() ==> r == Some(
                sample_at(old(self)@.tone, old(self)@.position),
            ) && final(self)@ == old(self)@.advance(),
    {
        proof {
            use_type_invariant(&*self);
        }
        if self.current_sample >= self.total_samples {
            return None;
        }
        let index: u64 = self.current_sample;
        self.current_sample = index + 1;
        match self.tone {
            Tone::Silence => Some(Sample::Zero),
            Tone::Pitch(n) => Some(Sample::Sine { semitones: n, index }),
        }
    }

    /// Pulls every sample that is left, in order, and leaves the stream
    /// exhausted.
    pub fn drain(&mut self) -> (out: Vec<Sample>)
        ensures
            out@ == old(self)@.remaining(),
            final(self)@ == old(self)@.drained(),
            final(self)@.exhausted(),
    {
        let mut out: Vec<Sample> = Vec::new();
        proof {
            use_type_invariant(&*self);
        }
        loop
            invariant
                self@.wf(),
                old(self)@.wf(),
                self@.drained() == old(self)@.drained(),
                out@ + self@.remaining() == old(self)@.remaining(),
            decreases self@.remaining_len(),
        {
            let ghost before = self@;
            match self.next() {
                Some(s) => {
                    out.push(s);
                    proof {
                        lemma_remaining_unfold(before);
                        assert(out@ + self@.remaining() =~= old(self)@.remaining());
                    }
                },
                None => {
                    assert(out@ =~= out@ + self@.remaining());
                    return out;
                },
            }
        }
    }

    /// The length of the current frame is not declared.
    pub fn current_frame_len(&self) -> (r: Option<usize>)
        ensures
            r is None,
    {
        None
    }

    /// The number of channels: one.
    pub fn channels(&self) -> (r: u16)
        ensures
            r == 1,
    {
        CHANNELS
    }

    /// The sample rate: 44100 samples per second.
    pub fn sample_rate(&self) -> (r: u32)
        ensures
            r == 44100,
    {
        SAMPLE_RATE
    }

    /// The length that the stream was made with, in microseconds.
    pub fn total_duration(&self) -> (r: Option<u64>)
        ensures
            r == Some(self@.duration_micros as u64),
            self@.duration_micros == r.unwrap() as int,
    {
        Some(self.duration_micros)
    }

    /// What the stream plays.
    pub fn tone(&self) -> (r: Tone)
        ensures
            r == self@.tone,
    {
        self.tone
    }

    /// The number of samples that the stream holds from start to end.
    pub fn total_samples(&self) -> (r: u64)
        ensures
            r == self@.total,
            r == sample_count(self@.duration_micros),
    {
        proof {
            use_type_invariant(self);
        }
        self.total_samples
    }

    /// The index of the next sample to be pulled.
    pub fn position(&self) -> (r: u64)
        ensures
            r == self@.position,
            self@.wf(),
    {
        proof {
            use_type_invariant(self);
        }
        self.current_sample
    }
}

/// A stream that is not exhausted has its current sample first, and then what
/// remains after advancing.
pub proof fn lemma_remaining_unfold(s: StreamState)
    requires
        !s.exhausted(),
    ensures
        s.remaining() == seq![sample_at(s.tone, s.position)] + s.advance().remaining(),
{
    assert(s.remaining() =~= seq![sample_at(s.tone, s.position)] + s.advance().remaining());
}

/// A fresh stream holds as many samples as its length times the sample rate,
/// rounded to the nearest whole sample; a stream of length zero holds none.
pub proof fn lemma_fresh_length(tone: Tone, duration_micros: int)
    requires
        0 <= duration_micros,
    ensures
        StreamState::fresh(tone, duration_micros).remaining().len() == sample_count(
            duration_micros,
        ),
        StreamState::fresh(tone, 0).exhausted(),
{
}

/// The sample count is the nearest whole number to the length times the
/// sample rate: with the length in microseconds, that product is
/// `441 * duration_micros / 10000`, and the count is within a half of it.
pub proof fn lemma_sample_count_rounds(duration_micros: int)
    ensures
        10000 * sample_count(duration_micros) - 5000 <= 441 * duration_micros,
        441 * duration_micros < 10000 * sample_count(duration_micros) + 5000,
{
    let x = duration_micros * 441 + 5000;
    assert(x == 10000 * (x / 10000) + x % 10000 && 0 <= x % 10000 < 10000) by (nonlinear_arith);
}

/// Silence is all zeros: every sample of a silent stream is `Sample::Zero`,
/// and there are as many as in a tone of the same length.
pub proof fn lemma_silence(duration_micros: int)
    requires
        0 <= duration_micros,
    ensures
        StreamState::fresh(Tone::Silence, duration_micros).remaining().len() == sample_count(
            duration_micros,
        ),
        forall|i: int|
            0 <= i < sample_count(duration_micros) ==> #[trigger] StreamState::fresh(
                Tone::Silence,
                duration_micros,
            ).remaining()[i] == Sample::Zero,
{
}

} // verus!

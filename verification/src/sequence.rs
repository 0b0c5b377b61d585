//! Laying notes out as streams.
//!
//! Each note becomes a tone of its own length followed by a short silence, so
//! that two tones never meet at a jump in the waveform.

use vstd::prelude::*;
use crate::pitch::{resolve, semitones_from_a4, NoteError};
use crate::stream::{SineWave, StreamState, Tone};

verus! {

/// Length of the silence after each note, in microseconds.
pub const GAP_MICROS: u64 = 5000;

/// One note of a song: a name such as `C#4` and a length in microseconds.
#[derive(Clone, Debug)]
pub struct Note {
    pub note: String,
    pub duration_micros: u64,
}

/// The tone of a note whose name resolves.
pub open spec fn tone_of(name: Seq<char>) -> Tone
    recommends
        resolve(name) is Ok,
{
    Tone::Pitch(resolve(name).unwrap() as i32)
}

/// All names resolve.
pub open spec fn all_resolve(notes: Seq<Note>) -> bool {
    forall|i: int| 0 <= i < notes.len() ==> resolve((#[trigger] notes[i]).note@) is Ok
}

/// `streams` is the playback sequence of `notes`: for each note in order, a
/// fresh tone of its pitch and length, then a fresh silence of the gap length.
pub open spec fn laid_out(notes: Seq<Note>, streams: Seq<SineWave>) -> bool {
    &&& streams.len() == 2 * notes.len()
    &&& forall|i: int|
        0 <= i < notes.len() ==> {
            &&& streams[2 * i]@ == StreamState::fresh(
                tone_of((#[trigger] notes[i]).note@),
                notes[i].duration_micros as int,
            )
            &&& streams[2 * i + 1]@ == StreamState::fresh(Tone::Silence, GAP_MICROS as int)
        }
}

/// `at` is the first note whose name does not resolve, and `error` is why.
pub open spec fn first_failure(notes: Seq<Note>, at: int, error: NoteError) -> bool {
    &&& 0 <= at < notes.len()
    &&& resolve(notes[at].note@) == Err::<int, NoteError>(error)
    &&& all_resolve(notes.take(at))
}

impl Note {
    /// The distance of this note from A4, in semitones.
    pub fn semitones(&self) -> (r: Result<i32, NoteError>)
        ensures
            match r {
                Ok(n) => resolve(self.note@) == Ok::<int, NoteError>(n as int),
                Err(e) => resolve(self.note@) == Err::<int, NoteError>(e),
            },
    {
        semitones_from_a4(self.note.as_str())
    }

    /// The two streams of this note: its tone, then the silence after it.
    pub fn streams(&self) -> (r: Result<(SineWave, SineWave), NoteError>)
        ensures
            match r {
                Ok((tone, gap)) => {
                    &&& resolve(self.note@) is Ok
                    &&& tone@ == StreamState::fresh(
                        tone_of(self.note@),
                        self.duration_micros as int,
                    )
                    &&& gap@ == StreamState::fresh(Tone::Silence, GAP_MICROS as int)
                },
                Err(e) => resolve(self.note@) == Err::<int, NoteError>(e),
            },
    {
        match self.semitones() {
            Ok(n) => Ok(
                (
                    SineWave::new(Tone::Pitch(n), self.duration_micros),
                    SineWave::new(Tone::Silence, GAP_MICROS),
                ),
            ),
            Err(e) => Err(e),
        }
    }
}

/// Lays a song out as its playback sequence.
///
/// Succeeds exactly when every name resolves. Otherwise nothing is laid out,
/// and the error is that of the first note whose name does not resolve.
pub fn playback_sequence(notes: &Vec<Note>) -> (r: Result<Vec<SineWave>, NoteError>)
    ensures
        match r {
            Ok(streams) => all_resolve(notes@) && laid_out(notes@, streams@),
            Err(e) => exists|at: int| first_failure(notes@, at, e),
        },
{
    let mut streams: Vec<SineWave> = Vec::new();
    let mut i: usize = 0;
    while i < notes.len()
        invariant
            i <= notes.len(),
            all_resolve(notes@.take(i as int)),
            laid_out(notes@.take(i as int), streams@),
        decreases notes.len() - i,
    {
        match notes[i].streams() {
            Ok((tone, gap)) => {
                let ghost before = streams@;
                streams.push(tone);
                streams.push(gap);
                proof {
                    let done = notes@.take(i as int + 1);
                    assert forall|j: int| 0 <= j < done.len() implies resolve(
                        (#[trigger] done[j]).note@,
                    ) is Ok by {
                        if j < i {
                            assert(notes@.take(i as int)[j] == done[j]);
                        }
                    }
                    assert forall|j: int| 0 <= j < done.len() implies {
                        &&& streams@[2 * j]@ == StreamState::fresh(
                            tone_of((#[trigger] done[j]).note@),
                            done[j].duration_micros as int,
                        )
                        &&& streams@[2 * j + 1]@ == StreamState::fresh(
                            Tone::Silence,
                            GAP_MICROS as int,
                        )
                    } by {
                        if j < i {
                            assert(notes@.take(i as int)[j] == done[j]);
                            assert(streams@[2 * j] == before[2 * j]);
                            assert(streams@[2 * j + 1] == before[2 * j + 1]);
                        }
                    }
                }
            },
            Err(e) => {
                assert(first_failure(notes@, i as int, e));
                return Err(e);
            },
        }
        i = i + 1;
    }
    assert(notes@.take(i as int) =~= notes@);
    Ok(streams)
}

} // verus!

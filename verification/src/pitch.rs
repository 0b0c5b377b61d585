//! Note names and their distance from A4.

use vstd::prelude::*;

verus! {

/// Semitones in one octave.
pub const OCTAVE_SEMITONES: i32 = 12;

/// The octave that holds the reference pitch A4.
pub const REFERENCE_OCTAVE: i32 = 4;

/// Why a note name could not be resolved.
#[derive(Clone, Copy, Debug, PartialEq, Eq, Structural)]
pub enum NoteError {
    /// The name is neither two nor three characters long.
    InvalidNoteFormat,
    /// The first character is not one of `A` to `G`.
    UnknownPitchLetter,
    /// The middle character of a three-character name is neither `b` nor `#`.
    InvalidAccidental,
    /// The last character is not a decimal digit.
    InvalidOctaveDigit,
}

/// Semitones from A to the given letter within one octave number. The octave
/// number changes between B and C, so C to G lie below the A of their octave.
pub open spec fn letter_offset(c: char) -> Option<int> {
    if c == 'A' {
        Some(0int)
    } else if c == 'B' {
        Some(2int)
    } else if c == 'C' {
        Some(-9int)
    } else if c == 'D' {
        Some(-7int)
    } else if c == 'E' {
        Some(-5int)
    } else if c == 'F' {
        Some(-4int)
    } else if c == 'G' {
        Some(-2int)
    } else {
        None
    }
}

/// Semitones added by an accidental: `b` lowers by one, `#` raises by one.
pub open spec fn accidental_offset(c: char) -> Option<int> {
    if c == 'b' {
        Some(-1int)
    } else if c == '#' {
        Some(1int)
    } else {
        None
    }
}

/// The value of a decimal digit character.
pub open spec fn octave_digit(c: char) -> Option<int> {
    if '0' <= c && c <= '9' {
        Some(c as int - '0' as int)
    } else {
        None
    }
}

/// Distance from A4, in semitones, of a letter with an accidental in an octave.
pub open spec fn semitone_distance(letter: int, accidental: int, octave: int) -> int {
    letter + (octave - 4) * 12 + accidental
}

/// The interval between two pitches, as the twelfth power of the ratio of
/// their frequencies. A semitone is the ratio whose twelfth power is two, so
/// between the pitches `low <= high`, each given by its distance from A4 in
/// semitones, that power is two to the `high - low`.
pub open spec fn interval_pow12(low: int, high: int) -> nat
    recommends
        low <= high,
{
    vstd::arithmetic::power2::pow2((high - low) as nat)
}

/// What a note name resolves to. The length is looked at first, then the
/// accidental, then the octave digit, and the letter last; the first of these
/// that is wrong decides the error.
pub open spec fn resolve(name: Seq<char>) -> Result<int, NoteError> {
    if name.len() == 2 {
        match (octave_digit(name[1]), letter_offset(name[0])) {
            (None, _) => Err(NoteError::InvalidOctaveDigit),
            (Some(_), None) => Err(NoteError::UnknownPitchLetter),
            (Some(octave), Some(letter)) => Ok(semitone_distance(letter, 0, octave)),
        }
    } else if name.len() == 3 {
        match (accidental_offset(name[1]), octave_digit(name[2]), letter_offset(name[0])) {
            (None, _, _) => Err(NoteError::InvalidAccidental),
            (Some(_), None, _) => Err(NoteError::InvalidOctaveDigit),
            (Some(_), Some(_), None) => Err(NoteError::UnknownPitchLetter),
            (Some(accidental), Some(octave), Some(letter)) => Ok(
                semitone_distance(letter, accidental, octave),
            ),
        }
    } else {
        Err(NoteError::InvalidNoteFormat)
    }
}

/// Looks a pitch letter up in the semitone table.
pub fn letter_semitones(c: char) -> (r: Option<i32>)
    ensures
        match r {
            Some(n) => letter_offset(c) == Some(n as int),
            None => letter_offset(c) is None,
        },
{
    match c {
        'A' => Some(0),
        'B' => Some(2),
        'C' => Some(-9),
        'D' => Some(-7),
        'E' => Some(-5),
        'F' => Some(-4),
        'G' => Some(-2),
        _ => None,
    }
}

/// Reads an accidental character.
pub fn accidental_semitones(c: char) -> (r: Option<i32>)
    ensures
        match r {
            Some(n) => accidental_offset(c) == Some(n as int),
            None => accidental_offset(c) is None,
        },
{
    match c {
        'b' => Some(-1),
        '#' => Some(1),
        _ => None,
    }
}

/// Reads a decimal digit character.
pub fn digit_value(c: char) -> (r: Option<i32>)
    ensures
        match r {
            Some(n) => octave_digit(c) == Some(n as int),
            None => octave_digit(c) is None,
        },
{
    if '0' <= c && c <= '9' {
        let code: u32 = c as u32;
        let zero: u32 = '0' as u32;
        Some((code - zero) as i32)
    } else {
        None
    }
}

/// Resolves a note name to its distance from A4 in semitones.
///
/// The frequency of the note is `440 * 2^(n / 12)` hertz for the distance `n`
/// returned here.
pub fn semitones_from_a4(name: &str) -> (r: Result<i32, NoteError>)
    ensures
        match r {
            Ok(n) => resolve(name@) == Ok::<int, NoteError>(n as int),
            Err(e) => resolve(name@) == Err::<int, NoteError>(e),
        },
{
    let len: usize = name.unicode_len();
    if len != 2 && len != 3 {
        return Err(NoteError::InvalidNoteFormat);
    }
    let letter_char: char = name.get_char(0);
    let mut accidental: i32 = 0;
    if len == 3 {
        match accidental_semitones(name.get_char(1)) {
            Some(a) => {
                accidental = a;
            },
            None => {
                return Err(NoteError::InvalidAccidental);
            },
        }
    }
    let octave: i32 = match digit_value(name.get_char(len - 1)) {
        Some(d) => d,
        None => {
            return Err(NoteError::InvalidOctaveDigit);
        },
    };
    let letter: i32 = match letter_semitones(letter_char) {
        Some(l) => l,
        None => {
            return Err(NoteError::UnknownPitchLetter);
        },
    };
    Ok(letter + (octave - REFERENCE_OCTAVE) * OCTAVE_SEMITONES + accidental)
}

/// A name without an accidental resolves with the accidental offset zero.
pub proof fn lemma_natural_note(name: Seq<char>)
    requires
        name.len() == 2,
        letter_offset(name[0]) is Some,
        octave_digit(name[1]) is Some,
    ensures
        resolve(name) == Ok::<int, NoteError>(
            letter_offset(name[0]).unwrap() + (octave_digit(name[1]).unwrap() - 4) * 12,
        ),
{
}

/// A pitch is in unison with itself, its octave has twice its frequency, and
/// every pitch above it has a strictly greater frequency.
pub proof fn lemma_interval(low: int, high: int)
    requires
        low <= high,
    ensures
        interval_pow12(low, low) == 1,
        interval_pow12(low, low + 12) == 4096,
        low < high ==> interval_pow12(low, high) > 1,
{
    vstd::arithmetic::power2::lemma2_to64();
    if low < high {
        vstd::arithmetic::power2::lemma_pow2_strictly_increases(0, (high - low) as nat);
    }
}

/// Intervals stack: the ratio over two steps is the product of the ratios.
pub proof fn lemma_interval_stacks(low: int, middle: int, high: int)
    requires
        low <= middle <= high,
    ensures
        interval_pow12(low, high) == interval_pow12(low, middle) * interval_pow12(middle, high),
{
    vstd::arithmetic::power2::lemma_pow2_adds((middle - low) as nat, (high - middle) as nat);
}

/// With the letter and the accidental fixed, a higher octave digit gives a
/// strictly greater distance from A4, twelve semitones more for each octave,
/// and so a strictly greater frequency.
pub proof fn lemma_octave_monotone(low: Seq<char>, high: Seq<char>)
    requires
        resolve(low) is Ok,
        resolve(high) is Ok,
        low.len() == high.len(),
        low.drop_last() == high.drop_last(),
        octave_digit(low.last()).unwrap() < octave_digit(high.last()).unwrap(),
    ensures
        resolve(low).unwrap() < resolve(high).unwrap(),
        resolve(high).unwrap() - resolve(low).unwrap() == 12 * (octave_digit(
            high.last(),
        ).unwrap() - octave_digit(low.last()).unwrap()),
        interval_pow12(resolve(low).unwrap(), resolve(high).unwrap()) > 1,
{
    assert(low.drop_last()[0] == low[0]);
    assert(high.drop_last()[0] == high[0]);
    if low.len() == 3 {
        assert(low.drop_last()[1] == low[1]);
        assert(high.drop_last()[1] == high[1]);
    }
    lemma_interval(resolve(low).unwrap(), resolve(high).unwrap());
}

/// A sharpened letter and the flattened letter a whole tone above it, in the
/// same octave, lie at the same distance from A4.
pub proof fn lemma_enharmonic(lower: char, upper: char, octave: char)
    requires
        letter_offset(lower) is Some,
        letter_offset(upper) is Some,
        letter_offset(upper).unwrap() == letter_offset(lower).unwrap() + 2,
    ensures
        resolve(seq![lower, '#', octave]) == resolve(seq![upper, 'b', octave]),
{
}

/// Every distance that a name resolves to lies between that of `Cb0` and
/// that of `B#9`.
pub proof fn lemma_distance_bounds(name: Seq<char>)
    requires
        resolve(name) is Ok,
    ensures
        -58 <= resolve(name).unwrap() <= 63,
{
}

/// Each error belongs to one defect of the name, looked for in a fixed order.
pub proof fn lemma_error_cases(name: Seq<char>)
    ensures
        resolve(name) == Err::<int, NoteError>(NoteError::InvalidNoteFormat) <==> name.len() != 2
            && name.len() != 3,
        resolve(name) == Err::<int, NoteError>(NoteError::InvalidAccidental) <==> name.len() == 3
            && accidental_offset(name[1]) is None,
        resolve(name) == Err::<int, NoteError>(NoteError::InvalidOctaveDigit) <==> (name.len() == 2
            || (name.len() == 3 && accidental_offset(name[1]) is Some)) && octave_digit(
            name.last(),
        ) is None,
        resolve(name) == Err::<int, NoteError>(NoteError::UnknownPitchLetter) <==> (name.len() == 2
            || (name.len() == 3 && accidental_offset(name[1]) is Some)) && octave_digit(
            name.last(),
        ) is Some && letter_offset(name[0]) is None,
{
}

} // verus!

use notewave::pitch::{
    accidental_semitones, digit_value, letter_semitones, semitones_from_a4, NoteError,
};

fn hertz(semitones: i32) -> f32 {
    2.0_f32.powf(semitones as f32 / 12.0) * 440.0
}

const LETTERS: [(char, i32); 7] =
    [('A', 0), ('B', 2), ('C', -9), ('D', -7), ('E', -5), ('F', -4), ('G', -2)];

#[test]
fn a4_is_the_reference() {
    assert_eq!(semitones_from_a4("A4"), Ok(0));
    assert_eq!(hertz(semitones_from_a4("A4").unwrap()), 440.0);
}

#[test]
fn an_octave_is_twelve_semitones() {
    assert_eq!(semitones_from_a4("A5"), Ok(12));
    assert_eq!(semitones_from_a4("A3"), Ok(-12));
    assert_eq!(hertz(semitones_from_a4("A5").unwrap()), 880.0);
    assert_eq!(hertz(semitones_from_a4("A3").unwrap()), 220.0);
}

#[test]
fn c_sharp_and_d_flat_coincide() {
    let sharp = semitones_from_a4("C#4").unwrap();
    let flat = semitones_from_a4("Db4").unwrap();
    assert_eq!(sharp, -8);
    assert_eq!(flat, -8);
    assert!((hertz(sharp) - hertz(flat)).abs() < 1e-3);
    assert!((hertz(sharp) - 277.18).abs() < 0.01);
}

#[test]
fn every_whole_tone_has_an_enharmonic_pair() {
    for (lower, upper) in [('A', 'B'), ('C', 'D'), ('D', 'E'), ('F', 'G')] {
        for digit in 0..10 {
            let sharp = format!("{}#{}", lower, digit);
            let flat = format!("{}b{}", upper, digit);
            assert_eq!(semitones_from_a4(&sharp), semitones_from_a4(&flat));
            assert!(semitones_from_a4(&sharp).is_ok());
        }
    }
}

#[test]
fn natural_notes_carry_no_accidental() {
    for (letter, offset) in LETTERS {
        for digit in 0..10 {
            let name = format!("{}{}", letter, digit);
            assert_eq!(semitones_from_a4(&name), Ok(offset + (digit - 4) * 12));
        }
    }
}

#[test]
fn accidentals_move_by_one_semitone() {
    for (letter, offset) in LETTERS {
        for digit in 0..10 {
            let sharp = format!("{}#{}", letter, digit);
            let flat = format!("{}b{}", letter, digit);
            assert_eq!(semitones_from_a4(&sharp), Ok(offset + (digit - 4) * 12 + 1));
            assert_eq!(semitones_from_a4(&flat), Ok(offset + (digit - 4) * 12 - 1));
        }
    }
}

#[test]
fn higher_octave_is_higher_pitch() {
    for (letter, _) in LETTERS {
        for accidental in ["", "b", "#"] {
            for digit in 0..9 {
                let low = semitones_from_a4(&format!("{}{}{}", letter, accidental, digit));
                let high = semitones_from_a4(&format!("{}{}{}", letter, accidental, digit + 1));
                let (low, high) = (low.unwrap(), high.unwrap());
                assert_eq!(high - low, 12);
                assert!(hertz(low) < hertz(high));
            }
        }
    }
}

#[test]
fn octave_number_changes_between_b_and_c() {
    assert_eq!(semitones_from_a4("C4"), Ok(-9));
    assert_eq!(semitones_from_a4("B4"), Ok(2));
    assert_eq!(semitones_from_a4("C5"), Ok(3));
    assert!(hertz(semitones_from_a4("C4").unwrap()) < 440.0);
    assert!((hertz(semitones_from_a4("C4").unwrap()) - 261.63).abs() < 0.01);
}

#[test]
fn lowest_and_highest_names() {
    assert_eq!(semitones_from_a4("Cb0"), Ok(-58));
    assert_eq!(semitones_from_a4("B#9"), Ok(63));
}

#[test]
fn wrong_length_is_a_format_error() {
    assert_eq!(semitones_from_a4(""), Err(NoteError::InvalidNoteFormat));
    assert_eq!(semitones_from_a4("ABCD"), Err(NoteError::InvalidNoteFormat));
    assert_eq!(semitones_from_a4("A"), Err(NoteError::InvalidNoteFormat));
    assert_eq!(semitones_from_a4("C##4"), Err(NoteError::InvalidNoteFormat));
}

#[test]
fn unknown_letter_is_reported() {
    assert_eq!(semitones_from_a4("H4"), Err(NoteError::UnknownPitchLetter));
    assert_eq!(semitones_from_a4("a4"), Err(NoteError::UnknownPitchLetter));
    assert_eq!(semitones_from_a4("H#4"), Err(NoteError::UnknownPitchLetter));
}

#[test]
fn unknown_accidental_is_reported() {
    assert_eq!(semitones_from_a4("Cx4"), Err(NoteError::InvalidAccidental));
    assert_eq!(semitones_from_a4("CB4"), Err(NoteError::InvalidAccidental));
}

#[test]
fn non_digit_octave_is_reported() {
    assert_eq!(semitones_from_a4("C#x"), Err(NoteError::InvalidOctaveDigit));
    assert_eq!(semitones_from_a4("Ax"), Err(NoteError::InvalidOctaveDigit));
    assert_eq!(semitones_from_a4("A\u{ff14}"), Err(NoteError::InvalidOctaveDigit));
}

#[test]
fn first_defect_decides_the_error() {
    assert_eq!(semitones_from_a4("Hx4"), Err(NoteError::InvalidAccidental));
    assert_eq!(semitones_from_a4("Hxx"), Err(NoteError::InvalidAccidental));
    assert_eq!(semitones_from_a4("H#x"), Err(NoteError::InvalidOctaveDigit));
    assert_eq!(semitones_from_a4("Hx"), Err(NoteError::InvalidOctaveDigit));
}

#[test]
fn length_is_counted_in_characters() {
    assert_eq!(semitones_from_a4("\u{e9}4"), Err(NoteError::UnknownPitchLetter));
    assert_eq!(semitones_from_a4("\u{e9}"), Err(NoteError::InvalidNoteFormat));
}

#[test]
fn letter_table() {
    for (letter, offset) in LETTERS {
        assert_eq!(letter_semitones(letter), Some(offset));
    }
    assert_eq!(letter_semitones('H'), None);
    assert_eq!(letter_semitones('c'), None);
}

#[test]
fn accidental_table() {
    assert_eq!(accidental_semitones('b'), Some(-1));
    assert_eq!(accidental_semitones('#'), Some(1));
    assert_eq!(accidental_semitones('x'), None);
}

#[test]
fn digits() {
    assert_eq!(digit_value('0'), Some(0));
    assert_eq!(digit_value('4'), Some(4));
    assert_eq!(digit_value('9'), Some(9));
    assert_eq!(digit_value('/'), None);
    assert_eq!(digit_value(':'), None);
    assert_eq!(digit_value('x'), None);
}

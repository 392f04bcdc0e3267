//! Buzzer notes and melody selection.
//!
//! Notes are equal-tempered (A4 = 440 Hz) from C3 to B4, plus a rest.  A
//! melody is requested by index; out-of-range indices are ignored.
use vstd::prelude::*;

verus! {

/// Number of available melodies: the startup chime, "Never Gonna Give You
/// Up" and the Imperial March.
pub const MELODY_COUNT: usize = 3;

/// Musical note (equal temperament, A4 = 440 Hz).
#[derive(Clone, Copy, PartialEq, Eq, Structural, Debug)]
pub enum Note {
    C3,
    Cs3,
    D3,
    Ds3,
    E3,
    F3,
    Fs3,
    G3,
    Gs3,
    A3,
    As3,
    B3,
    C4,
    Cs4,
    D4,
    Ds4,
    E4,
    F4,
    Fs4,
    G4,
    Gs4,
    A4,
    As4,
    B4,
    /// Silence.
    Rest,
}

/// Frequency of a note in Hz, rounded; 0 for a rest.
pub open spec fn spec_freq_hz(n: Note) -> u32 {
    match n {
        Note::C3 => 131,
        Note::Cs3 => 139,
        Note::D3 => 147,
        Note::Ds3 => 156,
        Note::E3 => 165,
        Note::F3 => 175,
        Note::Fs3 => 185,
        Note::G3 => 196,
        Note::Gs3 => 208,
        Note::A3 => 220,
        Note::As3 => 233,
        Note::B3 => 247,
        Note::C4 => 262,
        Note::Cs4 => 277,
        Note::D4 => 294,
        Note::Ds4 => 311,
        Note::E4 => 330,
        Note::F4 => 349,
        Note::Fs4 => 370,
        Note::G4 => 392,
        Note::Gs4 => 415,
        Note::A4 => 440,
        Note::As4 => 466,
        Note::B4 => 494,
        Note::Rest => 0,
    }
}

/// Position of a pitched note in the chromatic scale from C3 (0) to B4 (23).
pub open spec fn spec_semitone(n: Note) -> int {
    match n {
        Note::C3 => 0,
        Note::Cs3 => 1,
        Note::D3 => 2,
        Note::Ds3 => 3,
        Note::E3 => 4,
        Note::F3 => 5,
        Note::Fs3 => 6,
        Note::G3 => 7,
        Note::Gs3 => 8,
        Note::A3 => 9,
        Note::As3 => 10,
        Note::B3 => 11,
        Note::C4 => 12,
        Note::Cs4 => 13,
        Note::D4 => 14,
        Note::Ds4 => 15,
        Note::E4 => 16,
        Note::F4 => 17,
        Note::Fs4 => 18,
        Note::G4 => 19,
        Note::Gs4 => 20,
        Note::A4 => 21,
        Note::As4 => 22,
        Note::B4 => 23,
        Note::Rest => -1,
    }
}

impl Note {
    /// Frequency in Hz (0 = silence).
    pub fn freq_hz(self) -> (f: u32)
        ensures
            f == spec_freq_hz(self),
    {
        match self {
            Note::C3 => 131,
            Note::Cs3 => 139,
            Note::D3 => 147,
            Note::Ds3 => 156,
            Note::E3 => 165,
            Note::F3 => 175,
            Note::Fs3 => 185,
            Note::G3 => 196,
            Note::Gs3 => 208,
            Note::A3 => 220,
            Note::As3 => 233,
            Note::B3 => 247,
            Note::C4 => 262,
            Note::Cs4 => 277,
            Note::D4 => 294,
            Note::Ds4 => 311,
            Note::E4 => 330,
            Note::F4 => 349,
            Note::Fs4 => 370,
            Note::G4 => 392,
            Note::Gs4 => 415,
            Note::A4 => 440,
            Note::As4 => 466,
            Note::B4 => 494,
            Note::Rest => 0,
        }
    }
}

/// A single step in a melody: a note and how long to play it (ms).
#[derive(Clone, Copy, PartialEq, Eq, Structural, Debug)]
pub struct Tone {
    pub note: Note,
    pub duration_ms: u32,
}

impl Tone {
    pub fn new(note: Note, duration_ms: u32) -> (t: Tone)
        ensures
            t == (Tone { note, duration_ms }),
    {
        Tone { note, duration_ms }
    }
}

/// Trigger melody `index` without blocking the caller: returns the index to
/// hand to the buzzer task, or `None` (silently ignored) when out of range.
pub fn play(index: usize) -> (signal: Option<usize>)
    ensures
        index < MELODY_COUNT ==> signal == Some(index),
        index >= MELODY_COUNT ==> signal is None,
{
    if index < MELODY_COUNT {
        Some(index)
    } else {
        None
    }
}

/// Only a rest is silent, and pitch rises strictly along the chromatic
/// scale: a higher note always sounds at a higher frequency.
pub proof fn lemma_pitch_order(a: Note, b: Note)
    ensures
        (spec_freq_hz(a) == 0) == (a == Note::Rest),
        a != Note::Rest && b != Note::Rest && spec_semitone(a) < spec_semitone(b) ==> spec_freq_hz(
            a,
        ) < spec_freq_hz(b),
        a != Note::Rest ==> 131 <= spec_freq_hz(a) <= 494,
{
}

} // verus!

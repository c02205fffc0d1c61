//! Notes are piano-key indices. The frequency of a note is
//! `440 * 2^((note - 69) / 12)` Hz; this module splits a note into the whole
//! octaves and the semitones that separate it from A4 (note 69), so that the
//! frequency is `440 * 2^octave * 2^(semitone / 12)`.

use vstd::prelude::*;

verus! {

/// The note of concert pitch A4, whose frequency is exactly 440 Hz.
pub const REFERENCE_NOTE: u32 = 69;

/// Whole octaves from A4 to `note` (rounded down).
pub open spec fn octave_of(note: int) -> int {
    (note - REFERENCE_NOTE as int) / 12
}

/// Semitones above the octave `octave_of(note)`, in `0..12`.
pub open spec fn semitone_of(note: int) -> int {
    (note - REFERENCE_NOTE as int) % 12
}

/// Splits `note` into `(octave, semitone)` with
/// `note - 69 == 12 * octave + semitone` and `0 <= semitone < 12`.
pub fn note_position(note: u32) -> (r: (i32, u32))
    ensures
        r.0 as int == octave_of(note as int),
        r.1 as int == semitone_of(note as int),
        12 * r.0 + r.1 == note - REFERENCE_NOTE,
        r.1 < 12,
{
    if note >= REFERENCE_NOTE {
        let d: u32 = note - REFERENCE_NOTE;
        let q: u32 = d / 12;
        let s: u32 = d % 12;
        (q as i32, s)
    } else {
        let b: u32 = REFERENCE_NOTE - note;
        let q: u32 = (b + 11) / 12;
        let s: u32 = 12 * q - b;
        proof {
            assert(12 * q >= b && 12 * q < b + 12);
            let d = note as int - REFERENCE_NOTE as int;
            assert(d == 12 * (-(q as int)) + s as int);
            vstd::arithmetic::div_mod::lemma_fundamental_div_mod_converse(d, 12, -(q as int), s as int);
        }
        (-(q as i32), s)
    }
}

/// Raising a note by twelve semitones adds exactly one octave and keeps the
/// semitone, so its frequency doubles; A4 itself sits at octave 0, semitone 0,
/// which is 440 Hz.
pub proof fn lemma_octave_doubling(n: int)
    ensures
        octave_of(n + 12) == octave_of(n) + 1,
        semitone_of(n + 12) == semitone_of(n),
        octave_of(REFERENCE_NOTE as int) == 0,
        semitone_of(REFERENCE_NOTE as int) == 0,
{
    let d = n - REFERENCE_NOTE as int;
    vstd::arithmetic::div_mod::lemma_fundamental_div_mod(d, 12);
    vstd::arithmetic::div_mod::lemma_fundamental_div_mod_converse(d + 12, 12, d / 12 + 1, d % 12);
}

/// An inclusive range of notes `[min, max]` that comparison notes never leave.
#[derive(Clone, Copy, Debug, PartialEq, Eq)]
pub struct NoteRange {
    pub min: u32,
    pub max: u32,
}

impl NoteRange {
    pub open spec fn wf(&self) -> bool {
        self.min <= self.max
    }

    pub open spec fn contains(&self, note: int) -> bool {
        self.min <= note <= self.max
    }

    /// `note` brought into the range.
    pub open spec fn clamp_spec(&self, note: int) -> int {
        if note < self.min {
            self.min as int
        } else if note > self.max {
            self.max as int
        } else {
            note
        }
    }

    /// One semitone up, held at `max`.
    pub open spec fn raise_spec(&self, note: int) -> int {
        if note + 1 > self.max {
            self.max as int
        } else {
            note + 1
        }
    }

    /// One semitone down, held at `min`.
    pub open spec fn lower_spec(&self, note: int) -> int {
        if note - 1 < self.min {
            self.min as int
        } else {
            note - 1
        }
    }

    /// The range `[min, max]`; `None` when `min > max`.
    pub fn new(min: u32, max: u32) -> (r: Option<NoteRange>)
        ensures
            r == (if min <= max { Some(NoteRange { min, max }) } else { None::<NoteRange> }),
    {
        if min <= max {
            Some(NoteRange { min, max })
        } else {
            None
        }
    }

    /// `note` brought into the range: `max(min, min(note, max))`.
    pub fn clamp(&self, note: i64) -> (r: u32)
        requires
            self.wf(),
        ensures
            r as int == self.clamp_spec(note as int),
            self.contains(r as int),
    {
        if note < self.min as i64 {
            self.min
        } else if note > self.max as i64 {
            self.max
        } else {
            note as u32
        }
    }

    /// One semitone up, held at `max`: `min(note + 1, max)`.
    pub fn raise(&self, note: u32) -> (r: u32)
        requires
            self.wf(),
            self.contains(note as int),
        ensures
            r as int == self.raise_spec(note as int),
            self.contains(r as int),
    {
        if note < self.max {
            note + 1
        } else {
            self.max
        }
    }

    /// One semitone down, held at `min`: `max(note - 1, min)`.
    pub fn lower(&self, note: u32) -> (r: u32)
        requires
            self.wf(),
            self.contains(note as int),
        ensures
            r as int == self.lower_spec(note as int),
            self.contains(r as int),
    {
        if note > self.min {
            note - 1
        } else {
            self.min
        }
    }
}

} // verus!

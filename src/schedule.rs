//! The stimulus schedule and the random starting point of each trial.

use vstd::prelude::*;
use rand::Rng;
use crate::note::NoteRange;

verus! {

/// How far, in semitones, a trial's starting comparison note may lie from its
/// reference note.
pub const OFFSET_SPREAD: i32 = 5;

/// How many reference notes `[min, min + step, ...]` stay within the range.
pub open spec fn schedule_len(range: NoteRange, step: u32) -> nat
    recommends
        range.wf(),
        step > 0,
{
    ((range.max - range.min) / (step as int) + 1) as nat
}

/// The `i`-th reference note of the schedule.
pub open spec fn schedule_note(range: NoteRange, step: u32, i: int) -> int {
    range.min + i * step
}

/// The reference notes `min, min + step, min + 2 * step, ...`, in order, up to
/// the last one that does not exceed `max` (which is `max` itself when reached
/// exactly).
pub fn stimulus_schedule(range: NoteRange, step: u32) -> (r: Vec<u32>)
    requires
        range.wf(),
        step > 0,
    ensures
        r@.len() == schedule_len(range, step),
        forall|i: int| 0 <= i < r@.len() ==> #[trigger] r@[i] == schedule_note(range, step, i),
        forall|i: int| 0 <= i < r@.len() ==> range.contains(r@[i] as int),
        schedule_note(range, step, r@.len() as int) > range.max,
{
    let span: u64 = (range.max - range.min) as u64;
    let count: u64 = span / step as u64 + 1;
    proof {
        let q = span as int / step as int;
        vstd::arithmetic::div_mod::lemma_fundamental_div_mod(span as int, step as int);
        assert(q * step <= span);
        assert((q + 1) * step > span) by (nonlinear_arith)
            requires
                q * step + (span as int) % (step as int) == span,
                (span as int) % (step as int) < step,
        ;
    }
    let mut notes: Vec<u32> = Vec::new();
    let mut i: u64 = 0;
    while i < count
        invariant
            range.wf(),
            step > 0,
            span == range.max - range.min,
            count == schedule_len(range, step),
            (count - 1) * step <= span,
            i <= count,
            notes@.len() == i,
            forall|j: int| 0 <= j < i ==> notes@[j] == schedule_note(range, step, j),
            forall|j: int| 0 <= j < i ==> range.contains(notes@[j] as int),
        decreases count - i,
    {
        assert(i * step <= span) by (nonlinear_arith)
            requires
                i < count,
                (count - 1) * step <= span,
                step > 0,
        ;
        let note: u32 = (range.min as u64 + i * step as u64) as u32;
        notes.push(note);
        i = i + 1;
    }
    notes
}

/// The starting comparison note for `reference` drawn at `offset`:
/// `reference + offset` brought into the range.
pub fn seed_comparison(range: NoteRange, reference: u32, offset: i32) -> (r: u32)
    requires
        range.wf(),
    ensures
        r as int == range.clamp_spec(reference + offset),
        range.contains(r as int),
{
    range.clamp(reference as i64 + offset as i64)
}

/// Relies on rand's `thread_rng` and `Rng::gen_range` over an inclusive range:
/// a value in `[-spread, spread]`, drawn uniformly.
#[verifier::external_body]
pub(crate) fn draw_offset(spread: i32) -> (r: i32)
    requires
        spread >= 0,
    ensures
        -spread <= r <= spread,
{
    rand::thread_rng().gen_range(-spread..=spread)
}

} // verus!

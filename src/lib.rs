//! Decision core of a binaural pitch-matching hearing test: the note model,
//! the stimulus schedule, trial seeding, and the adjustment state machine.
//! Sound output, key capture and result storage are left to the caller.

pub mod note;
pub mod schedule;
pub mod session;

pub use note::{note_position, NoteRange};
pub use schedule::{seed_comparison, stimulus_schedule};
pub use session::{command_of, Command, ResultRecord, Session, SessionPhase, Trial, TrialState};

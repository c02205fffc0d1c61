//! The adjustment state machine of one trial and the session that runs the
//! trials of a schedule in order.
//!
//! A caller drives a session in rounds: `start_trial` hands out the next trial
//! (or `None` when the session is over); while the trial is playing, the
//! caller renders the reference tone on the left channel and the comparison
//! tone on the right one, reads one key, and passes it to `press`, which says
//! whether the trial goes on playing, was locked (the record to persist), or
//! the subject aborted the whole session.

use vstd::prelude::*;
use crate::note::NoteRange;
use crate::schedule::{
    draw_offset, schedule_len, schedule_note, seed_comparison, stimulus_schedule, OFFSET_SPREAD,
};

verus! {

/// The volume a session starts at, in tenths (0.1).
pub const INITIAL_VOLUME_TENTHS: i64 = 1;

/// What a key asks of the trial in progress.
#[derive(Clone, Copy, Debug, PartialEq, Eq, Structural)]
pub enum Command {
    /// `w`: comparison note one semitone up, held at the top of the range.
    Raise,
    /// `d`: comparison note one semitone down, held at the bottom of the range.
    Lower,
    /// `+`: volume up by a tenth.
    VolumeUp,
    /// `-`: volume down by a tenth.
    VolumeDown,
    /// space: play both tones again.
    Replay,
    /// `#`: accept the comparison note as the trial's answer.
    Lock,
    /// `q`: end the session.
    Quit,
    /// Any other key, or one that is not a character.
    Ignore,
}

pub open spec fn command_spec(key: Option<char>) -> Command {
    match key {
        Some('w') => Command::Raise,
        Some('d') => Command::Lower,
        Some('+') => Command::VolumeUp,
        Some('-') => Command::VolumeDown,
        Some(' ') => Command::Replay,
        Some('#') => Command::Lock,
        Some('q') => Command::Quit,
        _ => Command::Ignore,
    }
}

/// The command of a key; `None` stands for a key that is not a character.
pub fn command_of(key: Option<char>) -> (r: Command)
    ensures
        r == command_spec(key),
{
    match key {
        Some('w') => Command::Raise,
        Some('d') => Command::Lower,
        Some('+') => Command::VolumeUp,
        Some('-') => Command::VolumeDown,
        Some(' ') => Command::Replay,
        Some('#') => Command::Lock,
        Some('q') => Command::Quit,
        _ => Command::Ignore,
    }
}

/// A locked answer: the reference note and the comparison note matched to it.
#[derive(Clone, Copy, Debug, PartialEq, Eq, Structural)]
pub struct ResultRecord {
    pub reference_note: u32,
    pub comparison_note: u32,
}

/// The trial in progress: a fixed reference note and the comparison note the
/// subject adjusts.
#[derive(Clone, Copy, Debug, PartialEq, Eq, Structural)]
pub struct Trial {
    pub reference_note: u32,
    pub comparison_note: u32,
}

/// Where a trial stands after a key.
#[derive(Clone, Copy, Debug, PartialEq, Eq, Structural)]
pub enum TrialState {
    /// Still adjusting: play both tones and read the next key.
    Playing,
    /// The subject accepted this record; the trial is over.
    Locked(ResultRecord),
    /// The subject ended the session; no further trials.
    Aborted,
}

/// Where a session stands.
#[derive(Clone, Copy, Debug, PartialEq, Eq, Structural)]
pub enum SessionPhase {
    Running,
    Completed,
    Aborted,
}

/// The comparison note after `cmd`.
pub open spec fn comparison_after(range: NoteRange, note: u32, cmd: Command) -> int {
    match cmd {
        Command::Raise => range.raise_spec(note as int),
        Command::Lower => range.lower_spec(note as int),
        _ => note as int,
    }
}

/// The volume, in tenths, after `cmd`; the step is held at the bounds of
/// `i64`, which no session reaches.
pub open spec fn volume_after(volume: i64, cmd: Command) -> int {
    match cmd {
        Command::VolumeUp => if volume < i64::MAX { volume + 1 } else { volume as int },
        Command::VolumeDown => if volume > i64::MIN { volume - 1 } else { volume as int },
        _ => volume as int,
    }
}

/// The record that locking `trial` produces.
pub open spec fn record_of(trial: Trial) -> ResultRecord {
    ResultRecord { reference_note: trial.reference_note, comparison_note: trial.comparison_note }
}

/// The locked results after `cmd` is applied to `trial`.
pub open spec fn results_after(results: Seq<ResultRecord>, trial: Trial, cmd: Command) -> Seq<
    ResultRecord,
> {
    if cmd == Command::Lock {
        results.push(record_of(trial))
    } else {
        results
    }
}

/// The state of the trial after `cmd`.
pub open spec fn state_after(trial: Trial, cmd: Command) -> TrialState {
    match cmd {
        Command::Lock => TrialState::Locked(record_of(trial)),
        Command::Quit => TrialState::Aborted,
        _ => TrialState::Playing,
    }
}

/// One run of the test over a schedule of reference notes.
pub struct Session {
    /// The range that comparison notes never leave.
    pub range: NoteRange,
    /// The reference notes, in the order they are tested.
    pub schedule: Vec<u32>,
    /// The locked answers, one per finished trial, in order.
    pub results: Vec<ResultRecord>,
    /// The position in `schedule` of the next trial, or of the one in progress.
    pub next_index: usize,
    /// The trial in progress, if any.
    pub trial: Option<Trial>,
    /// The current volume in tenths; it carries over between trials.
    pub volume_tenths: i64,
    pub phase: SessionPhase,
}

impl Session {
    pub open spec fn wf(&self) -> bool {
        &&& self.range.wf()
        &&& forall|i: int|
            0 <= i < self.schedule@.len() ==> self.range.contains(#[trigger] self.schedule@[i] as int)
        &&& self.next_index <= self.schedule@.len()
        &&& self.results@.len() == self.next_index
        &&& forall|i: int|
            0 <= i < self.results@.len() ==> (#[trigger] self.results@[i]).reference_note
                == self.schedule@[i] && self.range.contains(self.results@[i].comparison_note as int)
        &&& self.trial matches Some(t) ==> {
            &&& self.phase == SessionPhase::Running
            &&& self.next_index < self.schedule@.len()
            &&& t.reference_note == self.schedule@[self.next_index as int]
            &&& self.range.contains(t.comparison_note as int)
        }
    }

    /// A trial is in progress.
    pub open spec fn in_trial(&self) -> bool {
        self.trial is Some
    }

    /// A new session over the schedule `range.min, range.min + step, ...`, at
    /// the initial volume, with no trial started and nothing locked.
    pub fn new(range: NoteRange, step: u32) -> (r: Session)
        requires
            range.wf(),
            step > 0,
        ensures
            r.wf(),
            r.range == range,
            r.schedule@.len() == schedule_len(range, step),
            forall|i: int|
                0 <= i < r.schedule@.len() ==> #[trigger] r.schedule@[i] == schedule_note(range, step, i),
            r.results@.len() == 0,
            r.next_index == 0,
            r.trial is None,
            r.volume_tenths == INITIAL_VOLUME_TENTHS,
            r.phase == SessionPhase::Running,
    {
        let schedule: Vec<u32> = stimulus_schedule(range, step);
        Session {
            range,
            schedule,
            results: Vec::new(),
            next_index: 0,
            trial: None,
            volume_tenths: INITIAL_VOLUME_TENTHS,
            phase: SessionPhase::Running,
        }
    }

    /// The schedule has no next trial: every position was tried, or as many
    /// answers were locked as the schedule has notes.
    pub open spec fn schedule_done(&self) -> bool {
        self.next_index >= self.schedule@.len() || self.results@.len() == self.schedule@.len()
    }

    /// Starts the next trial with its comparison note drawn at `offset` from
    /// the reference note and brought into the range.
    /// - A trial already in progress is returned unchanged.
    /// - A session that is not running stays as it is and gives `None`.
    /// - When the schedule is done, the session becomes completed and gives `None`.
    /// - Otherwise the trial at `next_index` begins and is returned.
    pub fn begin_trial(&mut self, offset: i32) -> (r: Option<Trial>)
        requires
            old(self).wf(),
        ensures
            final(self).wf(),
            final(self).range == old(self).range,
            final(self).schedule@ == old(self).schedule@,
            final(self).results@ == old(self).results@,
            final(self).next_index == old(self).next_index,
            final(self).volume_tenths == old(self).volume_tenths,
            old(self).trial is Some ==> r == old(self).trial && *final(self) == *old(self),
            old(self).trial is None && old(self).phase != SessionPhase::Running ==> r is None
                && *final(self) == *old(self),
            old(self).trial is None && old(self).phase == SessionPhase::Running
                && old(self).schedule_done() ==> r is None && final(self).trial is None
                && final(self).phase == SessionPhase::Completed,
            old(self).trial is None && old(self).phase == SessionPhase::Running
                && !old(self).schedule_done() ==> {
                let reference = old(self).schedule@[old(self).next_index as int];
                &&& r == Some(
                    Trial {
                        reference_note: reference,
                        comparison_note: old(self).range.clamp_spec(reference + offset) as u32,
                    },
                )
                &&& final(self).trial == r
                &&& final(self).phase == SessionPhase::Running
            },
    {
        if self.trial.is_some() {
            return self.trial;
        }
        if self.phase != SessionPhase::Running {
            return None;
        }
        if self.next_index >= self.schedule.len() || self.results.len() == self.schedule.len() {
            self.phase = SessionPhase::Completed;
            return None;
        }
        let reference: u32 = self.schedule[self.next_index];
        let comparison: u32 = seed_comparison(self.range, reference, offset);
        let trial = Trial { reference_note: reference, comparison_note: comparison };
        self.trial = Some(trial);
        Some(trial)
    }

    /// Starts the next trial as `begin_trial` does, with an offset drawn at
    /// random from `[-OFFSET_SPREAD, OFFSET_SPREAD]`; a new trial's comparison
    /// note lies in the range whatever was drawn.
    pub fn start_trial(&mut self) -> (r: Option<Trial>)
        requires
            old(self).wf(),
        ensures
            final(self).wf(),
            final(self).range == old(self).range,
            final(self).schedule@ == old(self).schedule@,
            final(self).results@ == old(self).results@,
            final(self).next_index == old(self).next_index,
            final(self).volume_tenths == old(self).volume_tenths,
            old(self).trial is Some ==> r == old(self).trial && *final(self) == *old(self),
            old(self).trial is None && old(self).phase != SessionPhase::Running ==> r is None
                && *final(self) == *old(self),
            old(self).trial is None && old(self).phase == SessionPhase::Running
                && old(self).schedule_done() ==> r is None && final(self).trial is None
                && final(self).phase == SessionPhase::Completed,
            old(self).trial is None && old(self).phase == SessionPhase::Running
                && !old(self).schedule_done() ==> {
                &&& r matches Some(t)
                &&& final(self).trial == r
                &&& final(self).phase == SessionPhase::Running
                &&& t.reference_note == old(self).schedule@[old(self).next_index as int]
                &&& old(self).range.contains(t.comparison_note as int)
                &&& exists|offset: int|
                    -OFFSET_SPREAD <= offset <= OFFSET_SPREAD && t.comparison_note as int
                        == #[trigger] old(self).range.clamp_spec(t.reference_note + offset)
            },
    {
        let offset: i32 = draw_offset(OFFSET_SPREAD);
        let r = self.begin_trial(offset);
        proof {
            if old(self).trial is None && old(self).phase == SessionPhase::Running
                && !old(self).schedule_done() {
                let t = r.unwrap();
                assert(t.comparison_note as int == self.range.clamp_spec(
                    t.reference_note + offset as int,
                ));
            }
        }
        r
    }

    /// Applies one key to the trial in progress.
    /// - `w` / `d` move the comparison note one semitone up / down, held within the range.
    /// - `+` / `-` move the volume by one tenth.
    /// - `#` locks the trial: its record is appended to the results, the
    ///   session moves to the next position, and the record is returned.
    /// - `q` aborts the session, keeping the results locked so far.
    /// - Space and any other key change nothing.
    pub fn press(&mut self, key: Option<char>) -> (r: TrialState)
        requires
            old(self).wf(),
            old(self).in_trial(),
        ensures
            final(self).wf(),
            ({
                let t = old(self).trial.unwrap();
                let cmd = command_spec(key);
                let next = Trial {
                    reference_note: t.reference_note,
                    comparison_note: comparison_after(old(self).range, t.comparison_note, cmd) as u32,
                };
                &&& r == state_after(next, cmd)
                &&& final(self).range == old(self).range
                &&& final(self).schedule@ == old(self).schedule@
                &&& final(self).volume_tenths == volume_after(old(self).volume_tenths, cmd)
                &&& final(self).results@ == results_after(old(self).results@, next, cmd)
                &&& final(self).next_index == if cmd == Command::Lock {
                    old(self).next_index + 1
                } else {
                    old(self).next_index as int
                }
                &&& final(self).trial == if cmd == Command::Lock || cmd == Command::Quit {
                    None
                } else {
                    Some(next)
                }
                &&& final(self).phase == if cmd == Command::Quit {
                    SessionPhase::Aborted
                } else {
                    old(self).phase
                }
            }),
    {
        let t: Trial = match self.trial {
            Some(t) => t,
            None => {
                return TrialState::Playing;
            },
        };
        let cmd: Command = command_of(key);
        match cmd {
            Command::Raise => {
                let c: u32 = self.range.raise(t.comparison_note);
                self.trial = Some(Trial { reference_note: t.reference_note, comparison_note: c });
                TrialState::Playing
            },
            Command::Lower => {
                let c: u32 = self.range.lower(t.comparison_note);
                self.trial = Some(Trial { reference_note: t.reference_note, comparison_note: c });
                TrialState::Playing
            },
            Command::VolumeUp => {
                if self.volume_tenths < i64::MAX {
                    self.volume_tenths = self.volume_tenths + 1;
                }
                TrialState::Playing
            },
            Command::VolumeDown => {
                if self.volume_tenths > i64::MIN {
                    self.volume_tenths = self.volume_tenths - 1;
                }
                TrialState::Playing
            },
            Command::Lock => {
                let scheduled: usize = self.schedule.len();
                assert(self.next_index < scheduled);
                let next: usize = self.next_index + 1;
                let record = ResultRecord {
                    reference_note: t.reference_note,
                    comparison_note: t.comparison_note,
                };
                self.results.push(record);
                self.next_index = next;
                self.trial = None;
                proof {
                    assert forall|i: int| 0 <= i < self.results@.len() implies (
                    #[trigger] self.results@[i]).reference_note == self.schedule@[i]
                        && self.range.contains(self.results@[i].comparison_note as int) by {
                        if i < old(self).results@.len() {
                            assert(self.results@[i] == old(self).results@[i]);
                        }
                    }
                }
                TrialState::Locked(record)
            },
            Command::Quit => {
                self.trial = None;
                self.phase = SessionPhase::Aborted;
                TrialState::Aborted
            },
            _ => TrialState::Playing,
        }
    }
}

/// At the top of the range `w` changes nothing, however often it is pressed;
/// likewise `d` at the bottom.
pub proof fn lemma_adjust_holds_at_bounds(range: NoteRange)
    requires
        range.wf(),
    ensures
        comparison_after(range, range.max, Command::Raise) == range.max,
        comparison_after(range, range.min, Command::Lower) == range.min,
{
}

/// Locking a trial adds exactly one record, which holds the reference note and
/// the comparison note as they stand when `#` is pressed; no other key adds
/// or changes a record.
pub proof fn lemma_lock_appends_one_record(range: NoteRange, results: Seq<ResultRecord>, trial: Trial)
    ensures
        comparison_after(range, trial.comparison_note, Command::Lock) == trial.comparison_note,
        results_after(results, trial, Command::Lock).len() == results.len() + 1,
        results_after(results, trial, Command::Lock).drop_last() == results,
        results_after(results, trial, Command::Lock).last() == (ResultRecord {
            reference_note: trial.reference_note,
            comparison_note: trial.comparison_note,
        }),
        forall|cmd: Command| cmd != Command::Lock ==> #[trigger] results_after(results, trial, cmd) == results,
{
    assert(results.push(record_of(trial)).drop_last() =~= results);
}

/// Pressing `q` during the trial at position `k` of the schedule ends the
/// session with exactly `k` records locked, one for each earlier trial.
pub proof fn lemma_abort_keeps_finished_trials(s: Session, key: Option<char>)
    requires
        s.wf(),
        s.in_trial(),
        command_spec(key) == Command::Quit,
    ensures
        results_after(s.results@, s.trial.unwrap(), command_spec(key)).len() == s.next_index,
        forall|i: int|
            0 <= i < s.next_index ==> (#[trigger] results_after(s.results@, s.trial.unwrap(), command_spec(key))[i]).reference_note
                == s.schedule@[i],
        state_after(s.trial.unwrap(), command_spec(key)) == TrialState::Aborted,
{
}

/// One `+` followed by one `-` brings the volume back to where it was.
pub proof fn lemma_volume_up_down(volume: i64)
    requires
        volume < i64::MAX,
    ensures
        volume_after(volume_after(volume, Command::VolumeUp) as i64, Command::VolumeDown) == volume,
{
}

} // verus!

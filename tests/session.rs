use pitch_match::note::NoteRange;
use pitch_match::session::{
    command_of, Command, ResultRecord, Session, SessionPhase, Trial, TrialState,
};

fn small_session() -> Session {
    Session::new(NoteRange::new(60, 72).unwrap(), 5)
}

fn press_all(s: &mut Session, keys: &str) -> TrialState {
    let mut last = TrialState::Playing;
    for k in keys.chars() {
        last = s.press(Some(k));
    }
    last
}

#[test]
fn keys_map_to_commands() {
    assert_eq!(command_of(Some('w')), Command::Raise);
    assert_eq!(command_of(Some('d')), Command::Lower);
    assert_eq!(command_of(Some('+')), Command::VolumeUp);
    assert_eq!(command_of(Some('-')), Command::VolumeDown);
    assert_eq!(command_of(Some(' ')), Command::Replay);
    assert_eq!(command_of(Some('#')), Command::Lock);
    assert_eq!(command_of(Some('q')), Command::Quit);
    assert_eq!(command_of(Some('W')), Command::Ignore);
    assert_eq!(command_of(Some('x')), Command::Ignore);
    assert_eq!(command_of(None), Command::Ignore);
}

#[test]
fn new_session_starts_at_one_tenth_with_nothing_locked() {
    let s = small_session();
    assert_eq!(s.schedule, vec![60, 65, 70]);
    assert!(s.results.is_empty());
    assert_eq!(s.next_index, 0);
    assert_eq!(s.trial, None);
    assert_eq!(s.volume_tenths, 1);
    assert_eq!(s.phase, SessionPhase::Running);
}

#[test]
fn scenario_lower_three_times_then_lock() {
    let mut s = small_session();
    assert_eq!(s.begin_trial(0), Some(Trial { reference_note: 60, comparison_note: 60 }));
    assert!(matches!(s.press(Some('#')), TrialState::Locked(_)));
    assert_eq!(s.begin_trial(0), Some(Trial { reference_note: 65, comparison_note: 65 }));
    assert!(matches!(s.press(Some('#')), TrialState::Locked(_)));
    assert_eq!(s.begin_trial(0), Some(Trial { reference_note: 70, comparison_note: 70 }));
    assert_eq!(press_all(&mut s, "ddd"), TrialState::Playing);
    assert_eq!(s.trial, Some(Trial { reference_note: 70, comparison_note: 67 }));
    let locked = s.press(Some('#'));
    assert_eq!(
        locked,
        TrialState::Locked(ResultRecord { reference_note: 70, comparison_note: 67 })
    );
    assert_eq!(s.results.last(), Some(&ResultRecord { reference_note: 70, comparison_note: 67 }));
}

#[test]
fn volume_up_then_down_returns() {
    let mut s = small_session();
    s.begin_trial(0);
    assert_eq!(s.volume_tenths, 1);
    s.press(Some('+'));
    assert_eq!(s.volume_tenths, 2);
    assert!((s.volume_tenths as f64 / 10.0 - 0.2).abs() < 1e-9);
    s.press(Some('-'));
    assert_eq!(s.volume_tenths, 1);
    assert!((s.volume_tenths as f64 / 10.0 - 0.1).abs() < 1e-9);
}

#[test]
fn volume_is_not_clamped_and_carries_over() {
    let mut s = small_session();
    s.begin_trial(0);
    press_all(&mut s, "---");
    assert_eq!(s.volume_tenths, -2);
    s.press(Some('#'));
    s.begin_trial(0);
    assert_eq!(s.volume_tenths, -2);
    press_all(&mut s, "+++++");
    assert_eq!(s.volume_tenths, 3);
}

#[test]
fn repeated_raise_at_max_is_unchanged() {
    let mut s = small_session();
    s.begin_trial(0);
    s.press(Some('#'));
    s.begin_trial(0);
    s.press(Some('#'));
    assert_eq!(s.begin_trial(5), Some(Trial { reference_note: 70, comparison_note: 72 }));
    press_all(&mut s, "wwww");
    assert_eq!(s.trial, Some(Trial { reference_note: 70, comparison_note: 72 }));
    s.press(Some('d'));
    assert_eq!(s.trial, Some(Trial { reference_note: 70, comparison_note: 71 }));
}

#[test]
fn repeated_lower_at_min_is_unchanged() {
    let mut s = small_session();
    assert_eq!(s.begin_trial(-5), Some(Trial { reference_note: 60, comparison_note: 60 }));
    press_all(&mut s, "dddd");
    assert_eq!(s.trial, Some(Trial { reference_note: 60, comparison_note: 60 }));
    s.press(Some('w'));
    assert_eq!(s.trial, Some(Trial { reference_note: 60, comparison_note: 61 }));
}

#[test]
fn lock_records_adjusted_not_initial_note() {
    let mut s = small_session();
    assert_eq!(s.begin_trial(-2), Some(Trial { reference_note: 60, comparison_note: 60 }));
    press_all(&mut s, "www d");
    let r = s.press(Some('#'));
    assert_eq!(r, TrialState::Locked(ResultRecord { reference_note: 60, comparison_note: 62 }));
    assert_eq!(s.results, vec![ResultRecord { reference_note: 60, comparison_note: 62 }]);
    assert_eq!(s.next_index, 1);
    assert_eq!(s.trial, None);
}

#[test]
fn replay_and_other_keys_change_nothing() {
    let mut s = small_session();
    s.begin_trial(1);
    assert_eq!(s.press(Some(' ')), TrialState::Playing);
    assert_eq!(s.press(Some('x')), TrialState::Playing);
    assert_eq!(s.press(None), TrialState::Playing);
    assert_eq!(s.trial, Some(Trial { reference_note: 60, comparison_note: 61 }));
    assert_eq!(s.volume_tenths, 1);
    assert!(s.results.is_empty());
}

#[test]
fn abort_in_second_trial_keeps_one_record() {
    let mut s = small_session();
    s.begin_trial(0);
    s.press(Some('#'));
    s.begin_trial(0);
    s.press(Some('w'));
    assert_eq!(s.press(Some('q')), TrialState::Aborted);
    assert_eq!(s.phase, SessionPhase::Aborted);
    assert_eq!(s.results.len(), 1);
    assert_eq!(s.trial, None);
    assert_eq!(s.begin_trial(0), None);
    assert_eq!(s.results.len(), 1);
}

#[test]
fn abort_in_first_trial_keeps_nothing() {
    let mut s = small_session();
    s.begin_trial(3);
    assert_eq!(s.press(Some('q')), TrialState::Aborted);
    assert!(s.results.is_empty());
    assert_eq!(s.start_trial(), None);
}

#[test]
fn session_completes_after_last_lock() {
    let mut s = small_session();
    for _ in 0..3 {
        assert!(s.begin_trial(0).is_some());
        assert!(matches!(s.press(Some('#')), TrialState::Locked(_)));
    }
    assert_eq!(s.phase, SessionPhase::Running);
    assert_eq!(s.begin_trial(0), None);
    assert_eq!(s.phase, SessionPhase::Completed);
    let refs: Vec<u32> = s.results.iter().map(|r| r.reference_note).collect();
    assert_eq!(refs, vec![60, 65, 70]);
}

#[test]
fn begin_trial_keeps_trial_in_progress() {
    let mut s = small_session();
    let first = s.begin_trial(2);
    assert_eq!(s.begin_trial(-4), first);
    assert_eq!(s.start_trial(), first);
}

#[test]
fn random_trials_start_within_range_and_spread() {
    let range = NoteRange::new(51, 108).unwrap();
    let mut s = Session::new(range, 1);
    let mut offsets = std::collections::BTreeSet::new();
    while let Some(t) = s.start_trial() {
        assert!(t.comparison_note >= 51 && t.comparison_note <= 108);
        let offset = t.comparison_note as i64 - t.reference_note as i64;
        assert!((-5..=5).contains(&offset));
        if t.reference_note >= 56 && t.reference_note <= 103 {
            offsets.insert(offset);
        }
        s.press(Some('#'));
    }
    assert_eq!(s.results.len(), 58);
    assert!(offsets.len() > 1);
}

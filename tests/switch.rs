use bambu_launcher::store::{FileOp, ProfileStore, Snapshot, CONFIG_FILE};
use bambu_launcher::switch::{
    conclude, listing_shows_running, next, start, Action, Event, Outcome, Question, SwitchState,
    GRACEFUL_CHECKS,
};

fn store_a_active() -> ProfileStore {
    ProfileStore {
        active: Some(b"1".to_vec()),
        snapshots: vec![
            Snapshot { name: String::from("A"), content: b"1".to_vec() },
            Snapshot { name: String::from("B"), content: b"2".to_vec() },
        ],
    }
}

fn run_events(mut state: SwitchState, events: &[Event]) -> (SwitchState, Action) {
    let mut action = Action::ReadKey;
    for e in events {
        let (s, a) = next(state, *e);
        state = s;
        action = a;
    }
    (state, action)
}

#[test]
fn same_profile_keeps_current() {
    let (state, action) = start("A", "A");
    assert_eq!(action, Action::Finish(Outcome::KeptCurrent));
    assert_eq!(next(state, Event::Running(false)).1, Action::Finish(Outcome::KeptCurrent));
    let (_, action) = start("", "");
    assert_eq!(action, Action::Finish(Outcome::KeptCurrent));
}

#[test]
fn unlinked_asks_first() {
    let (state, action) = start("", "B");
    assert_eq!(action, Action::Ask(Question::Unlinked));
    assert_eq!(next(state, Event::Key('x')), (SwitchState::AskUnlinked, Action::ReadKey));
    assert_eq!(next(state, Event::Key('k')).1, Action::Finish(Outcome::KeptCurrent));
    assert_eq!(next(state, Event::Key('q')).1, Action::Finish(Outcome::Cancelled));
    assert_eq!(next(state, Event::Key('o')), (SwitchState::CheckBeforeClose, Action::CheckRunning));
}

#[test]
fn not_running_switches_at_once() {
    let (state, action) = start("A", "B");
    assert_eq!(action, Action::CheckRunning);
    assert_eq!(next(state, Event::Running(false)).1, Action::Finish(Outcome::Switched));
}

#[test]
fn running_keep_current() {
    let (state, _) = start("A", "B");
    let (state, action) = next(state, Event::Running(true));
    assert_eq!(action, Action::Ask(Question::CloseRunning));
    assert_eq!(next(state, Event::Key('k')).1, Action::Finish(Outcome::KeptCurrent));
}

#[test]
fn close_and_switch_when_process_stops() {
    let mut store = store_a_active();
    let (state, _) = start(&store.current_profile().0, "B");
    let (_, action) = run_events(
        state,
        &[Event::Running(true), Event::Key('c'), Event::Running(true), Event::Running(true), Event::Running(false)],
    );
    assert_eq!(action, Action::Finish(Outcome::Switched));
    let ops = conclude(&mut store, "B", Outcome::Switched).unwrap();
    assert_eq!(
        ops[1],
        FileOp::HardLink {
            source: String::from("BambuNetworkEngine.conf_B"),
            target: String::from(CONFIG_FILE),
        }
    );
    assert_eq!(store.current_profile().0, "B");
}

#[test]
fn cancel_after_timeout_leaves_active_file() {
    let mut store = store_a_active();
    let (state, _) = start(&store.current_profile().0, "B");
    let (state, action) = run_events(state, &[Event::Running(true), Event::Key('c')]);
    assert_eq!(action, Action::CheckRunning);
    let (mut state, action) = next(state, Event::Running(true));
    assert_eq!(action, Action::StopGracefully);
    for _ in 1..GRACEFUL_CHECKS {
        let (s, a) = next(state, Event::Running(true));
        assert_eq!(a, Action::WaitAndCheck);
        state = s;
    }
    let (state, action) = next(state, Event::Running(true));
    assert_eq!(action, Action::Ask(Question::NotClosing));
    let (_, action) = next(state, Event::Key('q'));
    assert_eq!(action, Action::Finish(Outcome::Cancelled));
    assert!(conclude(&mut store, "B", Outcome::Cancelled).unwrap().is_empty());
    assert_eq!(store.active, Some(b"1".to_vec()));
    assert_eq!(store.current_profile().0, "A");
}

#[test]
fn manual_and_forced_waits() {
    let s = SwitchState::AskNotClosing;
    let (m, a) = next(s, Event::Key('m'));
    assert_eq!((m, a), (SwitchState::ManualWait, Action::CheckRunning));
    assert_eq!(next(m, Event::Running(true)), (SwitchState::ManualWait, Action::WaitAndCheck));
    assert_eq!(next(m, Event::Running(false)).1, Action::Finish(Outcome::Switched));
    let (f, a) = next(s, Event::Key('k'));
    assert_eq!((f, a), (SwitchState::ForcedWait, Action::StopForcefully));
    assert_eq!(next(f, Event::Running(true)), (SwitchState::ForcedWait, Action::WaitAndCheck));
    assert_eq!(next(f, Event::Running(false)).1, Action::Finish(Outcome::Switched));
}

#[test]
fn stopped_before_graceful_request() {
    let (state, _) = run_events(SwitchState::AskClose, &[Event::Key('c')]);
    assert_eq!(next(state, Event::Running(false)).1, Action::Finish(Outcome::Switched));
}

#[test]
fn listing_detects_image_name() {
    assert!(listing_shows_running("bambu-studio.exe    1234 Console  1  200,000 K"));
    assert!(!listing_shows_running("INFO: No tasks are running which match the specified criteria."));
    assert!(!listing_shows_running(""));
}

#[test]
fn conclude_kept_or_unknown() {
    let mut store = store_a_active();
    assert!(conclude(&mut store, "B", Outcome::KeptCurrent).unwrap().is_empty());
    assert_eq!(store.active, Some(b"1".to_vec()));
    assert!(conclude(&mut store, "Z", Outcome::Switched).is_err());
    assert_eq!(store.active, Some(b"1".to_vec()));
}

//! Deciding a profile switch: whether the active file is repointed, kept
//! or the whole run is cancelled, and how a running instance of the
//! application is brought to a stop first. The decisions are a state
//! machine: each step takes the answer to the last action (a key pressed,
//! whether the process runs) and gives the next state and action.
use vstd::prelude::*;

use crate::store::{FileOp, ProfileError, ProfileStore, snapshot_name, CONFIG_FILE};

verus! {

/// Image name of the application's process.
pub const TARGET_IMAGE: &'static str = "bambu-studio.exe";

/// How many times the process is checked, one interval apart, after a
/// graceful stop was requested, before the user is asked what to do.
pub const GRACEFUL_CHECKS: u32 = 5;

/// How a switch ends.
#[derive(PartialEq, Eq, Structural, Clone, Copy, Debug)]
pub enum Outcome {
    /// The active file is to be pointed at the requested profile.
    Switched,
    /// The active file stays as it is.
    KeptCurrent,
    /// The user cancelled: the whole run ends.
    Cancelled,
}

/// A question put to the user, answered by one key.
#[derive(PartialEq, Eq, Structural, Clone, Copy, Debug)]
pub enum Question {
    /// The active file matches no profile: keep it (`k`), overwrite it (`o`)
    /// or cancel (`q`).
    Unlinked,
    /// The application runs: close it and switch (`c`), keep the current
    /// profile (`k`) or cancel (`q`).
    CloseRunning,
    /// The application did not close in time: wait for it (`m`), stop it
    /// by force (`k`) or cancel (`q`).
    NotClosing,
}

/// What the caller does next; all but `Finish` are answered by an `Event`.
#[derive(PartialEq, Eq, Structural, Clone, Copy, Debug)]
pub enum Action {
    /// Put the question, then read a key.
    Ask(Question),
    /// Read another key: the last one answered nothing.
    ReadKey,
    /// Report whether the process runs.
    CheckRunning,
    /// Request a graceful stop, wait one interval, report whether it runs.
    StopGracefully,
    /// Wait one interval, report whether the process runs.
    WaitAndCheck,
    /// Stop the process by force, report whether it runs.
    StopForcefully,
    /// The switch is over.
    Finish(Outcome),
}

/// The answer to an action.
#[derive(PartialEq, Eq, Structural, Clone, Copy, Debug)]
pub enum Event {
    /// The key the user pressed.
    Key(char),
    /// Whether the process runs.
    Running(bool),
}

/// Where a switch stands.
#[derive(PartialEq, Eq, Structural, Clone, Copy, Debug)]
pub enum SwitchState {
    /// Waiting for the answer to `Question::Unlinked`.
    AskUnlinked,
    /// Waiting to learn whether the application runs.
    CheckBeforeClose,
    /// Waiting for the answer to `Question::CloseRunning`.
    AskClose,
    /// Closing was chosen; waiting to learn whether it still runs.
    CheckBeforeStop,
    /// A graceful stop was requested; `checks_left` more checks follow
    /// before the user is asked.
    Graceful { checks_left: u32 },
    /// Waiting for the answer to `Question::NotClosing`.
    AskNotClosing,
    /// Waiting, without bound, for the user to close the application.
    ManualWait,
    /// Waiting, without bound, for a forced stop to take effect.
    ForcedWait,
    /// The switch is over.
    Done { outcome: Outcome },
}

/// The end of a switch with outcome `o`.
pub open spec fn finish(o: Outcome) -> (SwitchState, Action) {
    (SwitchState::Done { outcome: o }, Action::Finish(o))
}

/// How a switch from profile `current` to profile `requested` begins.
pub open spec fn start_spec(current: Seq<char>, requested: Seq<char>) -> (SwitchState, Action) {
    if requested == current {
        finish(Outcome::KeptCurrent)
    } else if current.len() == 0 {
        (SwitchState::AskUnlinked, Action::Ask(Question::Unlinked))
    } else {
        (SwitchState::CheckBeforeClose, Action::CheckRunning)
    }
}

/// One step of a switch: the state and action that follow state `s` on event `e`.
pub open spec fn next_spec(s: SwitchState, e: Event) -> (SwitchState, Action) {
    match s {
        SwitchState::Done { outcome } => finish(outcome),
        SwitchState::AskUnlinked => match e {
            Event::Key('k') => finish(Outcome::KeptCurrent),
            Event::Key('o') => (SwitchState::CheckBeforeClose, Action::CheckRunning),
            Event::Key('q') => finish(Outcome::Cancelled),
            _ => (s, Action::ReadKey),
        },
        SwitchState::AskClose => match e {
            Event::Key('c') => (SwitchState::CheckBeforeStop, Action::CheckRunning),
            Event::Key('k') => finish(Outcome::KeptCurrent),
            Event::Key('q') => finish(Outcome::Cancelled),
            _ => (s, Action::ReadKey),
        },
        SwitchState::AskNotClosing => match e {
            Event::Key('m') => (SwitchState::ManualWait, Action::CheckRunning),
            Event::Key('k') => (SwitchState::ForcedWait, Action::StopForcefully),
            Event::Key('q') => finish(Outcome::Cancelled),
            _ => (s, Action::ReadKey),
        },
        _ => match e {
            Event::Key(_) => (s, Action::CheckRunning),
            Event::Running(false) => finish(Outcome::Switched),
            Event::Running(true) => match s {
                SwitchState::CheckBeforeClose => (SwitchState::AskClose, Action::Ask(Question::CloseRunning)),
                SwitchState::CheckBeforeStop => (
                    SwitchState::Graceful { checks_left: (GRACEFUL_CHECKS - 1) as u32 },
                    Action::StopGracefully,
                ),
                SwitchState::Graceful { checks_left } => if checks_left == 0 {
                    (SwitchState::AskNotClosing, Action::Ask(Question::NotClosing))
                } else {
                    (SwitchState::Graceful { checks_left: (checks_left - 1) as u32 }, Action::WaitAndCheck)
                },
                _ => (s, Action::WaitAndCheck),
            },
        },
    }
}

/// Begins a switch from profile `current` (empty: the active file matches
/// no profile) to profile `requested`.
pub fn start(current: &str, requested: &str) -> (r: (SwitchState, Action))
    ensures
        r == start_spec(current@, requested@),
{
    if requested.to_owned() == current.to_owned() {
        (SwitchState::Done { outcome: Outcome::KeptCurrent }, Action::Finish(Outcome::KeptCurrent))
    } else if current.is_empty() {
        (SwitchState::AskUnlinked, Action::Ask(Question::Unlinked))
    } else {
        (SwitchState::CheckBeforeClose, Action::CheckRunning)
    }
}

/// Takes one step of a switch.
pub fn next(s: SwitchState, e: Event) -> (r: (SwitchState, Action))
    ensures
        r == next_spec(s, e),
{
    let kept = (SwitchState::Done { outcome: Outcome::KeptCurrent }, Action::Finish(Outcome::KeptCurrent));
    let cancelled = (SwitchState::Done { outcome: Outcome::Cancelled }, Action::Finish(Outcome::Cancelled));
    let switched = (SwitchState::Done { outcome: Outcome::Switched }, Action::Finish(Outcome::Switched));
    match s {
        SwitchState::Done { outcome } => (s, Action::Finish(outcome)),
        SwitchState::AskUnlinked => match e {
            Event::Key('k') => kept,
            Event::Key('o') => (SwitchState::CheckBeforeClose, Action::CheckRunning),
            Event::Key('q') => cancelled,
            _ => (s, Action::ReadKey),
        },
        SwitchState::AskClose => match e {
            Event::Key('c') => (SwitchState::CheckBeforeStop, Action::CheckRunning),
            Event::Key('k') => kept,
            Event::Key('q') => cancelled,
            _ => (s, Action::ReadKey),
        },
        SwitchState::AskNotClosing => match e {
            Event::Key('m') => (SwitchState::ManualWait, Action::CheckRunning),
            Event::Key('k') => (SwitchState::ForcedWait, Action::StopForcefully),
            Event::Key('q') => cancelled,
            _ => (s, Action::ReadKey),
        },
        _ => match e {
            Event::Key(_) => (s, Action::CheckRunning),
            Event::Running(false) => switched,
            Event::Running(true) => match s {
                SwitchState::CheckBeforeClose => (SwitchState::AskClose, Action::Ask(Question::CloseRunning)),
                SwitchState::CheckBeforeStop => (
                    SwitchState::Graceful { checks_left: GRACEFUL_CHECKS - 1 },
                    Action::StopGracefully,
                ),
                SwitchState::Graceful { checks_left } => if checks_left == 0 {
                    (SwitchState::AskNotClosing, Action::Ask(Question::NotClosing))
                } else {
                    (SwitchState::Graceful { checks_left: checks_left - 1 }, Action::WaitAndCheck)
                },
                _ => (s, Action::WaitAndCheck),
            },
        },
    }
}

/// Where the requested profile is the current one, the switch ends at once
/// with `KeptCurrent`: it asks for no process action and no file change,
/// whatever is reported afterwards.
pub proof fn lemma_same_profile_keeps_current(current: Seq<char>, requested: Seq<char>)
    requires
        requested == current,
    ensures
        start_spec(current, requested) == finish(Outcome::KeptCurrent),
        forall|e: Event|
            next_spec(start_spec(current, requested).0, e) == finish(Outcome::KeptCurrent),
{
}

/// A switch ends with `Switched`, so that the active file is repointed,
/// only right after a report that the application does not run.
pub proof fn lemma_switched_only_when_stopped(s: SwitchState, e: Event)
    requires
        !(s is Done),
        next_spec(s, e).1 == Action::Finish(Outcome::Switched),
    ensures
        e == Event::Running(false),
{
}

/// A switch is cancelled only by the user's `q`.
pub proof fn lemma_cancelled_only_by_user(s: SwitchState, e: Event)
    requires
        !(s is Done),
        next_spec(s, e).1 == Action::Finish(Outcome::Cancelled),
    ensures
        e == Event::Key('q'),
{
}

/// Whether `needle` occurs in `haystack`.
pub open spec fn occurs_in(needle: Seq<char>, haystack: Seq<char>) -> bool {
    exists|i: int|
        0 <= i && i + needle.len() <= haystack.len() && #[trigger] haystack.subrange(i, i + needle.len()) == needle
}

/// Relies on `str::contains` with a `&str` pattern: true exactly where the
/// pattern is a sub-slice of the string.
#[verifier::external_body]
fn str_contains(haystack: &str, needle: &str) -> (r: bool)
    ensures
        r == occurs_in(needle@, haystack@),
{
    haystack.contains(needle)
}

/// Whether a process listing, filtered by image name, shows the application.
pub fn listing_shows_running(listing: &str) -> (r: bool)
    ensures
        r == occurs_in(TARGET_IMAGE@, listing@),
{
    str_contains(listing, TARGET_IMAGE)
}

/// The state that `k` reports in a row that the application still runs
/// lead to from `s`.
pub open spec fn after_running_reports(s: SwitchState, k: nat) -> SwitchState
    decreases k,
{
    if k == 0 {
        s
    } else {
        after_running_reports(next_spec(s, Event::Running(true)).0, (k - 1) as nat)
    }
}

/// The wait for a graceful stop is bounded: once closing was chosen and the
/// application found running, the user is asked what to do after
/// `GRACEFUL_CHECKS` further reports that it still runs.
pub proof fn lemma_graceful_wait_bounded()
    ensures
        after_running_reports(SwitchState::CheckBeforeStop, GRACEFUL_CHECKS as nat + 1)
            == SwitchState::AskNotClosing,
        forall|k: nat|
            1 <= k <= GRACEFUL_CHECKS ==> #[trigger] after_running_reports(
                SwitchState::CheckBeforeStop,
                k,
            ) is Graceful,
{
    reveal_with_fuel(after_running_reports, 7);
    assert forall|k: nat| 1 <= k <= GRACEFUL_CHECKS implies #[trigger] after_running_reports(
        SwitchState::CheckBeforeStop,
        k,
    ) is Graceful by {
        reveal_with_fuel(after_running_reports, 7);
    }
}

/// Ends a switch to `requested` that came out as `outcome`: on `Switched`
/// the active file is pointed at the requested snapshot (see
/// `ProfileStore::repoint`); otherwise nothing changes and no file
/// operation comes back.
pub fn conclude(store: &mut ProfileStore, requested: &str, outcome: Outcome) -> (r: Result<
    Vec<FileOp>,
    ProfileError,
>)
    ensures
        outcome != Outcome::Switched ==> (r matches Ok(ops) && ops@.len() == 0) && final(store)@
            == old(store)@,
        outcome == Outcome::Switched && !old(store)@.has_profile(requested@) ==> r == Err::<
            Vec<FileOp>,
            ProfileError,
        >(ProfileError::NotFound) && final(store)@ == old(store)@,
        outcome == Outcome::Switched && old(store)@.has_profile(requested@) ==> (r matches Ok(ops)
            && ops@.len() == 2 && (ops@[0] matches FileOp::Remove { file } && file@ == CONFIG_FILE@)
            && (ops@[1] matches FileOp::HardLink { source, target } && source@ == snapshot_name(
            requested@) && target@ == CONFIG_FILE@)) && final(store)@ == old(store)@.switched(
            requested@),
{
    if outcome == Outcome::Switched {
        store.repoint(requested)
    } else {
        Ok(Vec::new())
    }
}

} // verus!

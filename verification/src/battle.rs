//! The sandbox battle's controls: what a bound key does in the battle, the double tap
//! that restarts it, the failure line the battle reports, the terms prompt, and when a
//! battle may be played.

use vstd::prelude::*;
use crate::text::same_text;

verus! {

/// The item a speed-up key uses.
pub const SPEED_UP_ITEM: i32 = 0;
/// The item a cat-CPU key uses.
pub const CAT_CPU_ITEM: i32 = 3;
/// The item a sniper key uses.
pub const SNIPER_ITEM: i32 = 5;
/// The longest gap between the two taps of a restart (ms).
pub const RESTART_WINDOW_MS: u64 = 400;

/// What a key is bound to.
#[derive(Clone, Copy, Debug, PartialEq, Eq, Structural)]
pub enum Bind {
    Slot(u8),
    SpeedUp,
    CatCpu,
    Sniper,
    Worker,
    Cannon,
    ZoomOut,
    ZoomIn,
    Left,
    Right,
    Pause,
    Restart,
}

/// What the battle is told to do.
#[derive(Clone, Copy, Debug, PartialEq, Eq, Structural)]
pub enum Action {
    Slot(i32),
    Item(i32),
    Worker,
    Cannon,
    ZoomOut,
    ZoomIn,
    PanLeft,
    PanRight,
    Pause,
}

/// The battle action of a binding; a restart is no action of its own.
pub open spec fn spec_action_of(bind: Bind) -> Option<Action> {
    match bind {
        Bind::Slot(slot) => Some(Action::Slot(slot as i32)),
        Bind::SpeedUp => Some(Action::Item(SPEED_UP_ITEM)),
        Bind::CatCpu => Some(Action::Item(CAT_CPU_ITEM)),
        Bind::Sniper => Some(Action::Item(SNIPER_ITEM)),
        Bind::Worker => Some(Action::Worker),
        Bind::Cannon => Some(Action::Cannon),
        Bind::ZoomOut => Some(Action::ZoomOut),
        Bind::ZoomIn => Some(Action::ZoomIn),
        Bind::Left => Some(Action::PanLeft),
        Bind::Right => Some(Action::PanRight),
        Bind::Pause => Some(Action::Pause),
        Bind::Restart => None,
    }
}

/// The battle action of a binding.
pub fn action_of(bind: Bind) -> (a: Option<Action>)
    ensures
        a == spec_action_of(bind),
{
    match bind {
        Bind::Slot(slot) => Some(Action::Slot(slot as i32)),
        Bind::SpeedUp => Some(Action::Item(SPEED_UP_ITEM)),
        Bind::CatCpu => Some(Action::Item(CAT_CPU_ITEM)),
        Bind::Sniper => Some(Action::Item(SNIPER_ITEM)),
        Bind::Worker => Some(Action::Worker),
        Bind::Cannon => Some(Action::Cannon),
        Bind::ZoomOut => Some(Action::ZoomOut),
        Bind::ZoomIn => Some(Action::ZoomIn),
        Bind::Left => Some(Action::PanLeft),
        Bind::Right => Some(Action::PanRight),
        Bind::Pause => Some(Action::Pause),
        Bind::Restart => None,
    }
}

/// What a key does to the battle.
#[derive(Clone, Copy, Debug, PartialEq, Eq, Structural)]
pub enum KeyOutcome {
    /// Nothing: no battle runs, the key is unbound, or it is the first tap of a restart.
    Ignored,
    /// The action is pressed (`true`) or released.
    Send(Action, bool),
    /// The battle starts over.
    Restart,
}

/// What a key does, and the time of the restart tap kept afterwards: a bound key is
/// passed on while a battle runs; a restart takes two presses within the window (a
/// release changes nothing).
pub open spec fn spec_key(tapped: Option<u64>, bind: Option<Bind>, pressed: bool, now: u64, running: bool) -> (Option<u64>, KeyOutcome) {
    if !running || bind is None {
        (tapped, KeyOutcome::Ignored)
    } else {
        match spec_action_of(bind.unwrap()) {
            Some(action) => (tapped, KeyOutcome::Send(action, pressed)),
            None => if !pressed {
                (tapped, KeyOutcome::Ignored)
            } else {
                let doubled = match tapped {
                    Some(at) => (if now >= at { now - at } else { 0 }) <= RESTART_WINDOW_MS,
                    None => false,
                };
                if doubled { (None, KeyOutcome::Restart) } else { (Some(now), KeyOutcome::Ignored) }
            },
        }
    }
}

/// The sandbox battle's state outside the battle itself: whether the terms prompt is
/// open, the failure line shown and the one last reported, and the last restart tap.
pub struct Battle {
    pub prompt_open: bool,
    pub status: String,
    pub reported: String,
    pub tapped: Option<u64>,
}

impl Battle {
    /// A sandbox with the terms prompt open or not and nothing reported.
    pub fn new(prompt_open: bool) -> (b: Battle)
        ensures
            b.prompt_open == prompt_open,
            b.status@.len() == 0,
            b.reported@.len() == 0,
            b.tapped is None,
    {
        Battle { prompt_open, status: String::new(), reported: String::new(), tapped: None }
    }

    /// The terms are agreed to: the prompt closes; the caller records the agreement.
    pub fn agree(&mut self) -> (acknowledged: bool)
        ensures
            acknowledged,
            !final(self).prompt_open,
            final(self).status == old(self).status,
            final(self).reported == old(self).reported,
            final(self).tapped == old(self).tapped,
    {
        self.prompt_open = false;
        true
    }

    /// The terms are refused: the prompt closes without an agreement.
    pub fn disagree(&mut self)
        ensures
            !final(self).prompt_open,
            final(self).status == old(self).status,
            final(self).reported == old(self).reported,
            final(self).tapped == old(self).tapped,
    {
        self.prompt_open = false;
    }

    /// A battle begins: nothing is reported yet.
    pub fn start(&mut self)
        ensures
            final(self).status@.len() == 0,
            final(self).reported@.len() == 0,
            final(self).prompt_open == old(self).prompt_open,
            final(self).tapped == old(self).tapped,
    {
        self.status = String::new();
        self.reported = String::new();
    }

    /// A key named by its binding (`None` if unbound) is pressed or released at `now`
    /// (ms) while a battle runs or not (see [`spec_key`]).
    pub fn key(&mut self, bind: Option<Bind>, pressed: bool, now: u64, running: bool) -> (outcome: KeyOutcome)
        ensures
            (final(self).tapped, outcome) == spec_key(old(self).tapped, bind, pressed, now, running),
            final(self).prompt_open == old(self).prompt_open,
            final(self).status == old(self).status,
            final(self).reported == old(self).reported,
    {
        if !running {
            return KeyOutcome::Ignored;
        }
        let bind = match bind {
            Some(b) => b,
            None => return KeyOutcome::Ignored,
        };
        match action_of(bind) {
            Some(action) => KeyOutcome::Send(action, pressed),
            None => {
                if !pressed {
                    return KeyOutcome::Ignored;
                }
                let doubled = match self.tapped {
                    Some(at) => (if now >= at { now - at } else { 0 }) <= RESTART_WINDOW_MS,
                    None => false,
                };
                if doubled {
                    self.tapped = None;
                    KeyOutcome::Restart
                } else {
                    self.tapped = Some(now);
                    KeyOutcome::Ignored
                }
            },
        }
    }

    /// The battle's failure line at a tick (empty when there is none, or when the battle
    /// faulted and a prompt says so): a line that differs from the last reported is shown
    /// and remembered. Returns whether a new line is shown, for which the caller starts
    /// the timer that clears it.
    pub fn report(&mut self, failure: &str) -> (shown: bool)
        ensures
            failure@ != old(self).reported@ ==> final(self).status@ == failure@ && final(self).reported@ == failure@
                && shown == (failure@.len() > 0),
            failure@ == old(self).reported@ ==> final(self).status == old(self).status
                && final(self).reported == old(self).reported && !shown,
            final(self).prompt_open == old(self).prompt_open,
            final(self).tapped == old(self).tapped,
    {
        if same_text(failure, self.reported.as_str()) {
            return false;
        }
        self.reported = String::from_str(failure);
        self.status = String::from_str(failure);
        failure.unicode_len() > 0
    }

    /// The shown failure line runs out.
    pub fn status_expired(&mut self)
        ensures
            final(self).status@.len() == 0,
            final(self).prompt_open == old(self).prompt_open,
            final(self).reported == old(self).reported,
            final(self).tapped == old(self).tapped,
    {
        self.status = String::new();
    }
}

/// Whether a battle may be played: a stage is chosen and the current lineup (if any)
/// fields a unit. `fielded` is the number of the current lineup's slots.
pub fn playable(staged: bool, fielded: Option<usize>) -> (b: bool)
    ensures
        b == (staged && (fielded matches Some(n) && n > 0)),
{
    staged && match fielded {
        Some(n) => n > 0,
        None => false,
    }
}

/// A restart takes two presses of the restart key within the window; a third press
/// starts the count again.
pub proof fn law_restart_needs_a_double_tap(first: u64, second: u64)
    requires
        first <= second,
        second - first <= RESTART_WINDOW_MS,
    ensures
        spec_key(None, Some(Bind::Restart), true, first, true) == (Some(first), KeyOutcome::Ignored),
        spec_key(Some(first), Some(Bind::Restart), true, second, true) == (None::<u64>, KeyOutcome::Restart),
{
}

} // verus!

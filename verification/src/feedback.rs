//! Short-lived feedback: a value held until a timer expires it, as used by buttons that
//! ask "Are You Sure?" before acting and by notices that fade.

use vstd::prelude::*;
use vstd::std_specs::cmp::PartialEqSpec;

verus! {

/// The label of a button that waits for its confirming press.
pub const CONFIRM_LABEL: &'static str = "Are You Sure?";

/// The short form of the confirmation label.
pub const CONFIRM_SHORT_LABEL: &'static str = "Confirm?";

/// The label shown when an action failed.
pub const FAILURE_LABEL: &'static str = "Failed!";

/// The label shown when no action applies.
pub const NO_ACTIONS_LABEL: &'static str = "No actions available";

/// A value held until it expires. The timer that expires it runs outside; a newer value
/// replaces the older one (and its timer).
#[derive(Debug, Clone)]
pub struct Slot<T> {
    pub value: Option<T>,
}

impl<T> Slot<T> {
    /// An empty slot.
    pub fn new() -> (s: Slot<T>)
        ensures
            s.value is None,
    {
        Slot { value: None }
    }

    /// Holds `value` (replacing any held one) until it expires.
    pub fn set(&mut self, value: T)
        ensures
            final(self).value == Some(value),
    {
        self.value = Some(value);
    }

    /// The timer ran out: the value is dropped.
    pub fn expire(&mut self)
        ensures
            final(self).value is None,
    {
        self.value = None;
    }

    /// The value is dropped before its time.
    pub fn clear(&mut self)
        ensures
            final(self).value is None,
    {
        self.value = None;
    }

    /// The held value, if any.
    pub fn get(&self) -> (r: Option<&T>)
        ensures
            r matches Some(v) ==> self.value == Some(*v),
            r is None <==> self.value is None,
    {
        match &self.value {
            Some(v) => Some(v),
            None => None,
        }
    }

    /// Whether a value is held.
    pub fn is_set(&self) -> (b: bool)
        ensures
            b == self.value is Some,
    {
        self.value.is_some()
    }

    /// The button's label: the confirmation prompt while a value is held, else `idle`.
    pub fn confirm_label<'a>(&self, idle: &'a str) -> (s: &'a str)
        ensures
            self.value is Some ==> s@ == CONFIRM_LABEL@,
            self.value is None ==> s@ == idle@,
    {
        if self.is_set() { CONFIRM_LABEL } else { idle }
    }
}

/// Whether `held` holds a value equal to `value`, by the type's own equality.
pub open spec fn holds<T: PartialEq>(held: Option<T>, value: T) -> bool {
    match held {
        Some(v) => v.eq_spec(&value),
        None => false,
    }
}

impl<T: PartialEq> Slot<T> {
    /// Whether the slot holds `value`. Where the type's equality is not known to follow
    /// its specification, only an empty slot is known to answer `false`.
    pub fn armed_for(&self, value: &T) -> (b: bool)
        ensures
            T::obeys_eq_spec() ==> b == holds(self.value, *value),
            self.value is None ==> !b,
    {
        match &self.value {
            Some(v) => v.eq(value),
            None => false,
        }
    }

    /// Consumes the held `value`: returns whether it was held, and then drops it; a slot
    /// that holds something else, or nothing, is left as it is.
    pub fn take(&mut self, value: &T) -> (taken: bool)
        ensures
            T::obeys_eq_spec() ==> taken == holds(old(self).value, *value),
            old(self).value is None ==> !taken,
            taken ==> final(self).value is None,
            !taken ==> final(self).value == old(self).value,
    {
        if !self.armed_for(value) {
            return false;
        }
        self.clear();
        true
    }
}

} // verus!

//! The errors found while starting up, shown one kind at a time until each is
//! acknowledged: running from a temporary folder, clashing file names, and a file watcher
//! that could not start.

use vstd::prelude::*;
use crate::watcher::Lapse;

verus! {

/// Files that share one name, none of which was loaded.
#[derive(Debug, Clone)]
pub struct Conflict {
    pub key: String,
    pub paths: Vec<String>,
}

/// What the errors popup shows; one kind at a time, in this order of precedence.
#[derive(Debug, Clone, Copy, PartialEq, Eq, Structural)]
pub enum Shown {
    Volatile,
    Conflicts,
    Watcher,
}

/// Which kinds of error still wait for acknowledgement.
#[derive(Debug, Clone, Copy, PartialEq, Eq, Structural)]
pub struct Pending {
    pub volatile: bool,
    pub conflicts: bool,
    pub watcher: bool,
}

/// Whether anything waits for acknowledgement.
pub open spec fn spec_open(p: Pending) -> bool {
    p.volatile || p.conflicts || p.watcher
}

/// One acknowledgement clears the kind that is shown: the temporary folder first, then
/// the clashes, then the watcher.
pub open spec fn spec_acknowledge(p: Pending) -> Pending {
    if p.volatile {
        Pending { volatile: false, ..p }
    } else if p.conflicts {
        Pending { conflicts: false, ..p }
    } else {
        Pending { watcher: false, ..p }
    }
}

/// The kind shown while something waits.
pub open spec fn spec_shown(p: Pending) -> Option<Shown> {
    if p.volatile {
        Some(Shown::Volatile)
    } else if p.conflicts {
        Some(Shown::Conflicts)
    } else if p.watcher {
        Some(Shown::Watcher)
    } else {
        None
    }
}

/// The errors found at start-up.
#[derive(Debug, Clone)]
pub struct InitErrors {
    pub conflicts: Vec<Conflict>,
    /// Names whose copy in the game folder is held back too.
    pub withheld: Vec<String>,
    pub watcher_failed: Option<Lapse>,
    pub watcher_shown: bool,
    /// The temporary folder the application runs from.
    pub volatile: Option<String>,
}

impl InitErrors {
    /// What waits for acknowledgement.
    pub open spec fn pending(self) -> Pending {
        Pending {
            volatile: self.volatile is Some,
            conflicts: self.conflicts@.len() > 0,
            watcher: self.watcher_shown,
        }
    }

    /// No error found.
    pub fn new() -> (e: InitErrors)
        ensures
            e.pending() == (Pending { volatile: false, conflicts: false, watcher: false }),
            e.watcher_failed is None,
            e.withheld@.len() == 0,
    {
        InitErrors { conflicts: Vec::new(), withheld: Vec::new(), watcher_failed: None, watcher_shown: false, volatile: None }
    }

    /// The application runs from the temporary folder `home`.
    pub fn report_volatile(&mut self, home: String)
        ensures
            final(self).volatile == Some(home),
            final(self).conflicts@ == old(self).conflicts@,
            final(self).withheld@ == old(self).withheld@,
            final(self).watcher_failed == old(self).watcher_failed,
            final(self).watcher_shown == old(self).watcher_shown,
    {
        self.volatile = Some(home);
    }

    /// The name clashes of the latest index; ignored ones are dropped.
    pub fn report_conflicts(&mut self, conflicts: Vec<Conflict>, withheld: Vec<String>, ignored: bool)
        ensures
            final(self).conflicts@ == if ignored { Seq::empty() } else { conflicts@ },
            final(self).withheld@ == if ignored { Seq::empty() } else { withheld@ },
            final(self).volatile == old(self).volatile,
            final(self).watcher_failed == old(self).watcher_failed,
            final(self).watcher_shown == old(self).watcher_shown,
    {
        if ignored {
            self.conflicts = Vec::new();
            self.withheld = Vec::new();
        } else {
            self.conflicts = conflicts;
            self.withheld = withheld;
        }
    }

    /// The file watcher could not start; the failure is shown unless ignored.
    pub fn report_watcher_failure(&mut self, lapse: Lapse, ignored: bool)
        ensures
            final(self).watcher_failed == Some(lapse),
            final(self).watcher_shown == !ignored,
            final(self).volatile == old(self).volatile,
            final(self).conflicts@ == old(self).conflicts@,
            final(self).withheld@ == old(self).withheld@,
    {
        self.watcher_failed = Some(lapse);
        self.watcher_shown = !ignored;
    }

    /// Whether the file watcher failed to start.
    pub fn watcher_failed(&self) -> (b: bool)
        ensures
            b == self.watcher_failed is Some,
    {
        self.watcher_failed.is_some()
    }

    /// The setting to ignore the watcher's failure changed: the failure shows again
    /// exactly when there is one and it is no longer ignored.
    pub fn refresh_watcher(&mut self, ignored: bool)
        ensures
            final(self).watcher_shown == (old(self).watcher_failed is Some && !ignored),
            final(self).watcher_failed == old(self).watcher_failed,
            final(self).volatile == old(self).volatile,
            final(self).conflicts@ == old(self).conflicts@,
            final(self).withheld@ == old(self).withheld@,
    {
        self.watcher_shown = self.watcher_failed.is_some() && !ignored;
    }

    /// Whether the popup is open: something waits for acknowledgement.
    pub fn is_open(&self) -> (b: bool)
        ensures
            b == spec_open(self.pending()),
    {
        self.volatile.is_some() || self.conflicts.len() > 0 || self.watcher_shown
    }

    /// What the popup shows, if it is open.
    pub fn shown(&self) -> (s: Option<Shown>)
        ensures
            s == spec_shown(self.pending()),
    {
        if self.volatile.is_some() {
            Some(Shown::Volatile)
        } else if self.conflicts.len() > 0 {
            Some(Shown::Conflicts)
        } else if self.watcher_shown {
            Some(Shown::Watcher)
        } else {
            None
        }
    }

    /// The user acknowledged what is shown: it is cleared, and the next kind shows.
    pub fn acknowledge(&mut self)
        ensures
            final(self).pending() == spec_acknowledge(old(self).pending()),
            final(self).watcher_failed == old(self).watcher_failed,
            final(self).withheld@ == old(self).withheld@,
            old(self).volatile is None && old(self).conflicts@.len() > 0 ==> final(self).conflicts@.len() == 0,
            old(self).volatile is Some ==> final(self).conflicts@ == old(self).conflicts@,
    {
        if self.volatile.is_some() {
            self.volatile = None;
            return;
        }
        if self.conflicts.len() > 0 {
            self.conflicts = Vec::new();
            return;
        }
        self.watcher_shown = false;
    }

    /// Whether the clash under `key` also holds back the copy in the game folder.
    pub fn is_withheld(&self, key: &str) -> (b: bool)
        ensures
            b == exists|i: int| 0 <= i < self.withheld@.len() && #[trigger] self.withheld@[i]@ == key@,
    {
        let mut i: usize = 0;
        while i < self.withheld.len()
            invariant
                i <= self.withheld.len(),
                forall|k: int| 0 <= k < i ==> #[trigger] self.withheld@[k]@ != key@,
            decreases self.withheld.len() - i,
        {
            if crate::text::same_text(self.withheld[i].as_str(), key) {
                return true;
            }
            i = i + 1;
        }
        false
    }
}

/// The paragraphs explaining why the file watcher is off.
pub open spec fn spec_watcher_text(lapse: Option<Lapse>) -> Seq<Seq<char>> {
    match lapse {
        Some(Lapse::Crowded) => seq![
            "Failed to start the File Watcher because this system has no free watch slots left. Live reload has been disabled for this session."@,
            "Close other watching applications or Battle Cats Complete instances and restart, or raise the system's watch limit."@,
        ],
        _ => seq![
            "Failed to start the File Watcher. Live reload has been disabled for this session, so edits made to game/ or mods/ outside the app will not be picked up until you restart it."@,
        ],
    }
}

/// The paragraphs explaining why the file watcher is off.
pub fn watcher_text(lapse: Option<Lapse>) -> (v: Vec<&'static str>)
    ensures
        v@.len() == spec_watcher_text(lapse).len(),
        forall|i: int| 0 <= i < v@.len() ==> #[trigger] v@[i]@ == spec_watcher_text(lapse)[i],
{
    match lapse {
        Some(Lapse::Crowded) => vec![
            "Failed to start the File Watcher because this system has no free watch slots left. Live reload has been disabled for this session.",
            "Close other watching applications or Battle Cats Complete instances and restart, or raise the system's watch limit.",
        ],
        _ => vec![
            "Failed to start the File Watcher. Live reload has been disabled for this session, so edits made to game/ or mods/ outside the app will not be picked up until you restart it.",
        ],
    }
}

/// Errors are acknowledged one kind at a time, in a fixed order: while the temporary
/// folder warning waits, only it is shown and only it is cleared; then the clashes; then
/// the watcher.
pub proof fn law_acknowledge_in_order(p: Pending)
    ensures
        p.volatile ==> spec_shown(p) == Some(Shown::Volatile)
            && spec_acknowledge(p) == (Pending { volatile: false, ..p }),
        !p.volatile && p.conflicts ==> spec_shown(p) == Some(Shown::Conflicts)
            && spec_acknowledge(p) == (Pending { conflicts: false, ..p }),
        !p.volatile && !p.conflicts && p.watcher ==> spec_shown(p) == Some(Shown::Watcher)
            && !spec_open(spec_acknowledge(p)),
{
}

/// Three acknowledgements always close the popup, and it shows something whenever it is
/// open.
pub proof fn law_three_acknowledgements_close(p: Pending)
    ensures
        !spec_open(spec_acknowledge(spec_acknowledge(spec_acknowledge(p)))),
        spec_open(p) <==> spec_shown(p) is Some,
{
}

} // verus!

//! The home page's changelog popup: fetching the release notes once, which version's
//! notes are shown, and what stands in their place while they load or after a failure.

use vstd::prelude::*;
use crate::text::same_text;

verus! {

/// One version's release notes.
#[derive(Debug, Clone)]
pub struct Notes {
    pub version: String,
    pub body: String,
}

/// Whether the selection names `v`.
pub open spec fn selected_is(o: Option<String>, v: Seq<char>) -> bool {
    match o {
        Some(s) => s@ == v,
        None => false,
    }
}

/// The changelog popup.
#[derive(Debug, Clone)]
pub struct Changelog {
    pub open: bool,
    pub loading: bool,
    pub error: bool,
    pub releases: Vec<Notes>,
    pub selected: Option<String>,
}

/// The position of the first release notes for `version` at or after `i`, or the length.
pub open spec fn first_notes(releases: Seq<Notes>, version: Seq<char>, i: int) -> int
    decreases releases.len() - i,
{
    if i >= releases.len() {
        releases.len() as int
    } else if releases[i].version@ == version {
        i
    } else {
        first_notes(releases, version, i + 1)
    }
}

/// The notes shown for the selected version: the first release of that version, or a
/// placeholder.
pub open spec fn spec_body(releases: Seq<Notes>, selected: Option<String>) -> Seq<char> {
    match selected {
        Some(v) => {
            let k = first_notes(releases, v@, 0);
            if k < releases.len() { releases[k].body@ } else { "No notes available."@ }
        },
        None => "No notes available."@,
    }
}

/// What stands in place of the notes: a failure message, a loading message, or nothing.
pub open spec fn spec_placeholder(c: Changelog) -> Option<Seq<char>> {
    if c.error {
        Some("Couldn't connect to GitHub"@)
    } else if c.loading {
        Some("Loading..."@)
    } else {
        None
    }
}

proof fn lemma_first_notes(releases: Seq<Notes>, version: Seq<char>, i: int)
    requires
        0 <= i <= releases.len(),
    ensures
        i <= first_notes(releases, version, i) <= releases.len(),
        first_notes(releases, version, i) < releases.len() ==> releases[first_notes(releases, version, i)].version@ == version,
        forall|j: int| i <= j < first_notes(releases, version, i) ==> releases[j].version@ != version,
    decreases releases.len() - i,
{
    if i < releases.len() && releases[i].version@ != version {
        lemma_first_notes(releases, version, i + 1);
    }
}

impl Changelog {
    /// Closed, nothing fetched.
    pub fn new() -> (c: Changelog)
        ensures
            !c.open && !c.loading && !c.error,
            c.releases@.len() == 0,
            c.selected is None,
    {
        Changelog { open: false, loading: false, error: false, releases: Vec::new(), selected: None }
    }

    /// The popup was opened; returns whether the notes must be fetched now: only when
    /// none were fetched and no fetch runs.
    pub fn open(&mut self) -> (fetch: bool)
        ensures
            final(self).open,
            fetch == (old(self).releases@.len() == 0 && !old(self).loading),
            fetch ==> final(self).loading && !final(self).error,
            !fetch ==> final(self).loading == old(self).loading && final(self).error == old(self).error,
            final(self).releases@ == old(self).releases@,
            final(self).selected == old(self).selected,
    {
        self.open = true;
        if self.releases.len() == 0 && !self.loading {
            self.loading = true;
            self.error = false;
            return true;
        }
        false
    }

    /// The popup was closed.
    pub fn close(&mut self)
        ensures
            !final(self).open,
            final(self).loading == old(self).loading,
            final(self).releases@ == old(self).releases@,
            final(self).selected == old(self).selected,
    {
        self.open = false;
    }

    /// The notes arrived. The running version's notes are selected when present, else the
    /// newest; with no notes at all, a placeholder release is shown.
    pub fn fetched(&mut self, releases: Vec<Notes>, current: &str)
        ensures
            !final(self).loading,
            !final(self).error,
            final(self).open == old(self).open,
            releases@.len() == 0 ==> final(self).releases@.len() == 1
                && final(self).releases@[0].version@ == "Unknown"@
                && final(self).releases@[0].body@ == "No releases found."@
                && selected_is(final(self).selected, "Unknown"@),
            releases@.len() > 0 ==> final(self).releases@ == releases@ && (
                if first_notes(releases@, current@, 0) < releases@.len() {
                    selected_is(final(self).selected, current@)
                } else {
                    selected_is(final(self).selected, releases@[0].version@)
                }
            ),
    {
        self.loading = false;
        self.error = false;
        self.releases = releases;
        let ghost rs = self.releases@;
        let mut i: usize = 0;
        while i < self.releases.len() && !same_text(self.releases[i].version.as_str(), current)
            invariant
                i <= rs.len(),
                rs == self.releases@,
                first_notes(rs, current@, 0) == first_notes(rs, current@, i as int),
            decreases self.releases.len() - i,
        {
            i = i + 1;
        }
        if i < self.releases.len() {
            self.selected = Some(String::from_str(current));
            return;
        }
        if self.releases.len() > 0 {
            self.selected = Some(self.releases[0].version.clone());
            return;
        }
        self.releases.push(Notes { version: String::from_str("Unknown"), body: String::from_str("No releases found.") });
        self.selected = Some(String::from_str("Unknown"));
    }

    /// The notes could not be fetched.
    pub fn failed(&mut self)
        ensures
            !final(self).loading,
            final(self).error,
            final(self).open == old(self).open,
            final(self).releases@ == old(self).releases@,
            final(self).selected == old(self).selected,
    {
        self.loading = false;
        self.error = true;
    }

    /// Another version was chosen.
    pub fn select(&mut self, version: String)
        ensures
            final(self).selected == Some(version),
            final(self).releases@ == old(self).releases@,
            final(self).loading == old(self).loading,
            final(self).error == old(self).error,
    {
        self.selected = Some(version);
    }

    /// The notes shown for the selected version.
    pub fn body(&self) -> (s: String)
        ensures
            s@ == spec_body(self.releases@, self.selected),
    {
        let v = match &self.selected {
            None => return String::from_str("No notes available."),
            Some(v) => v,
        };
        let ghost rs = self.releases@;
        let mut i: usize = 0;
        while i < self.releases.len() && !same_text(self.releases[i].version.as_str(), v.as_str())
            invariant
                i <= rs.len(),
                rs == self.releases@,
                first_notes(rs, v@, 0) == first_notes(rs, v@, i as int),
            decreases self.releases.len() - i,
        {
            i = i + 1;
        }
        if i < self.releases.len() {
            self.releases[i].body.clone()
        } else {
            String::from_str("No notes available.")
        }
    }

    /// What stands in place of the notes, if anything.
    pub fn placeholder(&self) -> (r: Option<&'static str>)
        ensures
            r matches Some(s) ==> spec_placeholder(*self) == Some(s@),
            r is None <==> spec_placeholder(*self) is None,
    {
        if self.error {
            Some("Couldn't connect to GitHub")
        } else if self.loading {
            Some("Loading...")
        } else {
            None
        }
    }
}

} // verus!

//! The loading state of the sprite sheets that icons are cut from: which sheets must be
//! (re)loaded, and what a finished load leaves behind.

use vstd::prelude::*;

verus! {

/// Where one sprite sheet stands. The pixels themselves stay with the window system; this
/// keeps what decides whether the sheet is loaded again.
#[derive(Debug, Clone, Copy, PartialEq, Eq, Structural)]
pub struct SheetStatus {
    /// A load runs.
    pub loading: bool,
    /// The last load failed, or the sheet has no cut file.
    pub failed: bool,
    /// The files changed since the sheet was loaded.
    pub stale: bool,
    /// A texture was made from the sheet.
    pub has_texture: bool,
    /// The loaded sheet carries pixel data.
    pub has_image: bool,
}

/// A sheet never loaded.
pub open spec fn spec_blank() -> SheetStatus {
    SheetStatus { loading: false, failed: false, stale: false, has_texture: false, has_image: false }
}

/// Whether a sheet must be loaded: not while a load runs; when stale, or when it has no
/// texture and has not failed.
pub open spec fn spec_needs_load(s: SheetStatus) -> bool {
    !s.loading && (s.stale || (!s.has_texture && !s.failed))
}

/// The sheet has no cut file: it is given up on until marked stale.
pub open spec fn spec_unavailable(s: SheetStatus) -> SheetStatus {
    SheetStatus { loading: false, stale: false, failed: true, ..s }
}

/// A load finished with a sheet (`Some`, telling whether it carries pixels) or without
/// one (`None`). Without a sheet, or without pixels, the sheet counts as failed; with
/// pixels it gets a texture.
pub open spec fn spec_applied(s: SheetStatus, result: Option<bool>) -> SheetStatus {
    match result {
        None => SheetStatus { loading: false, stale: false, failed: true, ..s },
        Some(false) => SheetStatus { loading: false, stale: false, failed: true, has_image: false, ..s },
        Some(true) => SheetStatus { loading: false, stale: false, failed: false, has_image: true, has_texture: true },
    }
}

impl SheetStatus {
    /// A sheet never loaded.
    pub fn new() -> (s: SheetStatus)
        ensures
            s == spec_blank(),
    {
        SheetStatus { loading: false, failed: false, stale: false, has_texture: false, has_image: false }
    }

    /// Whether a load runs.
    pub fn is_loading(&self) -> (b: bool)
        ensures
            b == self.loading,
    {
        self.loading
    }

    /// Whether the sheet failed to load.
    pub fn has_failed(&self) -> (b: bool)
        ensures
            b == self.failed,
    {
        self.failed
    }

    /// Whether the sheet has settled: failed, or loaded with pixels.
    pub fn is_settled(&self) -> (b: bool)
        ensures
            b == (self.failed || self.has_image),
    {
        self.failed || self.has_image
    }

    /// The files changed: the sheet is loaded again when next asked for, and a running
    /// load no longer counts.
    pub fn mark_stale(&mut self)
        ensures
            *final(self) == (SheetStatus { stale: true, loading: false, ..*old(self) }),
    {
        self.stale = true;
        self.loading = false;
    }

    /// The sheet has no cut file.
    pub fn mark_unavailable(&mut self)
        ensures
            *final(self) == spec_unavailable(*old(self)),
    {
        self.loading = false;
        self.stale = false;
        self.failed = true;
    }

    /// Whether the sheet must be loaded.
    pub fn needs_load(&self) -> (b: bool)
        ensures
            b == spec_needs_load(*self),
    {
        if self.loading {
            return false;
        }
        self.stale || (!self.has_texture && !self.failed)
    }

    /// A load was dispatched.
    pub fn begin_load(&mut self)
        ensures
            *final(self) == (SheetStatus { loading: true, ..*old(self) }),
    {
        self.loading = true;
    }

    /// A load finished; see [`spec_applied`].
    pub fn apply(&mut self, result: Option<bool>)
        ensures
            *final(self) == spec_applied(*old(self), result),
    {
        self.loading = false;
        self.stale = false;
        self.failed = false;
        match result {
            None => {
                self.failed = true;
            },
            Some(false) => {
                self.has_image = false;
                self.failed = true;
            },
            Some(true) => {
                self.has_image = true;
                self.has_texture = true;
            },
        }
    }
}

/// The state of sheet `i` before planning: as it was, or blank when the list grows.
pub open spec fn spec_prior(old: Seq<SheetStatus>, i: int) -> SheetStatus {
    if i < old.len() { old[i] } else { spec_blank() }
}

/// The state of sheet `i` after planning, given whether it has a cut file.
pub open spec fn spec_planned(s: SheetStatus, has_cut: bool) -> SheetStatus {
    if !spec_needs_load(s) {
        s
    } else if has_cut {
        SheetStatus { loading: true, ..s }
    } else {
        spec_unavailable(s)
    }
}

/// Brings the sheets in line with the sheet files found (`has_cut[i]` tells whether
/// file `i` has its cut file): the list takes one entry per file, and every sheet that
/// needs a load either starts one or, without a cut file, is given up on. Returns the
/// positions whose load starts, in increasing order.
pub fn plan_loads(sheets: &mut Vec<SheetStatus>, has_cut: &Vec<bool>) -> (starts: Vec<usize>)
    ensures
        final(sheets)@.len() == has_cut@.len(),
        forall|i: int| 0 <= i < has_cut@.len() ==> #[trigger] final(sheets)@[i]
            == spec_planned(spec_prior(old(sheets)@, i), has_cut@[i]),
        forall|a: int, b: int| 0 <= a < b < starts@.len() ==> starts@[a] < starts@[b],
        forall|i: int| 0 <= i < has_cut@.len() ==> (starts@.contains(i as usize)
            <==> (spec_needs_load(spec_prior(old(sheets)@, i)) && has_cut@[i])),
        forall|a: int| 0 <= a < starts@.len() ==> starts@[a] < has_cut@.len(),
{
    let n = has_cut.len();
    let ghost before = sheets@;
    if sheets.len() > n {
        sheets.truncate(n);
    } else if sheets.len() < n {
        sheets.resize(n, SheetStatus::new());
    }
    assert forall|i: int| 0 <= i < n implies #[trigger] sheets@[i] == spec_prior(before, i) by {
        if i >= before.len() {
            assert(vstd::pervasive::cloned::<SheetStatus>(spec_blank(), sheets@[i]));
        } else if before.len() < n {
            assert(sheets@.subrange(0, before.len() as int)[i] == before[i]);
        }
    }
    let mut starts: Vec<usize> = Vec::new();
    let mut i: usize = 0;
    while i < n
        invariant
            n == has_cut@.len(),
            sheets@.len() == n,
            i <= n,
            forall|k: int| 0 <= k < i ==> #[trigger] sheets@[k] == spec_planned(spec_prior(before, k), has_cut@[k]),
            forall|k: int| i <= k < n ==> #[trigger] sheets@[k] == spec_prior(before, k),
            forall|a: int, b: int| 0 <= a < b < starts@.len() ==> starts@[a] < starts@[b],
            forall|a: int| 0 <= a < starts@.len() ==> starts@[a] < i,
            forall|k: int| 0 <= k < i ==> (#[trigger] starts@.contains(k as usize)
                <==> (spec_needs_load(spec_prior(before, k)) && has_cut@[k])),
        decreases n - i,
    {
        let mut s = sheets[i];
        let ghost prior = s;
        let ghost old_starts = starts@;
        if s.needs_load() {
            if has_cut[i] {
                s.begin_load();
                starts.push(i);
            } else {
                s.mark_unavailable();
            }
        }
        sheets[i] = s;
        proof {
            assert forall|k: int| 0 <= k < i implies (#[trigger] starts@.contains(k as usize) <==> old_starts.contains(k as usize)) by {
                if starts@.contains(k as usize) {
                    let j = choose|j: int| 0 <= j < starts@.len() && starts@[j] == k as usize;
                    if j < old_starts.len() {
                        assert(old_starts[j] == k as usize);
                    }
                }
                if old_starts.contains(k as usize) {
                    let j = choose|j: int| 0 <= j < old_starts.len() && old_starts[j] == k as usize;
                    assert(starts@[j] == k as usize);
                }
            }
            if starts@.len() > old_starts.len() {
                assert(starts@[old_starts.len() as int] == i);
            } else {
                if starts@.contains(i) {
                    let j = choose|j: int| 0 <= j < starts@.len() && starts@[j] == i;
                    assert(old_starts[j] < i);
                }
            }
        }
        i = i + 1;
    }
    starts
}

/// A sheet that failed stays failed, and is not loaded again, until the files change
/// and it is marked stale.
pub proof fn law_failed_sheet_waits_for_change(s: SheetStatus)
    requires
        s.failed,
        !s.stale,
    ensures
        !spec_needs_load(s),
        spec_needs_load(SheetStatus { stale: true, loading: false, ..s }),
{
}

/// A sheet with a running load is never loaded twice.
pub proof fn law_no_double_load(s: SheetStatus, has_cut: bool)
    requires
        s.loading,
    ensures
        spec_planned(s, has_cut) == s,
{
}

/// The first sheet at or after `i` that is unsettled or holds the icon, or the length.
pub open spec fn first_stop(settled: Seq<bool>, holds: Seq<bool>, i: int) -> int
    decreases settled.len() - i,
{
    if i >= settled.len() {
        settled.len() as int
    } else if !settled[i] || holds[i] {
        i
    } else {
        first_stop(settled, holds, i + 1)
    }
}

/// The sheet an icon is cut from: the sheets are tried in order, and the first settled
/// sheet holding the icon gives it, unless an unsettled sheet comes first (then the icon
/// is not cut yet).
pub open spec fn spec_icon_sheet(settled: Seq<bool>, holds: Seq<bool>) -> Option<int> {
    let k = first_stop(settled, holds, 0);
    if k < settled.len() && settled[k] { Some(k) } else { None }
}

/// The sheet an icon is cut from; `settled[i]` tells whether sheet `i` has settled and
/// `holds[i]` whether it holds the icon.
pub fn icon_sheet(settled: &Vec<bool>, holds: &Vec<bool>) -> (r: Option<usize>)
    requires
        holds@.len() == settled@.len(),
    ensures
        match spec_icon_sheet(settled@, holds@) {
            Some(k) => r == Some(k as usize),
            None => r is None,
        },
{
    let mut i: usize = 0;
    while i < settled.len() && settled[i] && !holds[i]
        invariant
            i <= settled@.len(),
            holds@.len() == settled@.len(),
            first_stop(settled@, holds@, 0) == first_stop(settled@, holds@, i as int),
        decreases settled.len() - i,
    {
        i = i + 1;
    }
    if i < settled.len() && settled[i] {
        Some(i)
    } else {
        None
    }
}

} // verus!

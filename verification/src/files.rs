//! The file browser: which mount and file are shown, in which view, and what stands in
//! place of the file list when there is nothing to list.

use vstd::prelude::*;
use crate::text::same_text;
use crate::watcher::GAME;

verus! {

/// How the files of a mount are listed.
#[derive(Debug, Clone, Copy, PartialEq, Eq, Structural)]
pub enum Mode {
    Tree,
    Flat,
    Pack,
}

/// A view's name in the view picker.
pub open spec fn spec_mode_label(mode: Mode) -> Seq<char> {
    match mode {
        Mode::Tree => "Tree"@,
        Mode::Flat => "Flat"@,
        Mode::Pack => "Pack"@,
    }
}

impl Mode {
    /// The view's name in the view picker.
    pub fn label(self) -> (s: &'static str)
        ensures
            s@ == spec_mode_label(self),
    {
        match self {
            Mode::Tree => "Tree",
            Mode::Flat => "Flat",
            Mode::Pack => "Pack",
        }
    }
}

impl Default for Mode {
    /// The tree view.
    fn default() -> (m: Mode)
        ensures
            m == Mode::Tree,
    {
        Mode::Tree
    }
}

/// The views in the order the picker offers them.
pub open spec fn spec_all_modes() -> Seq<Mode> {
    seq![Mode::Tree, Mode::Flat, Mode::Pack]
}

/// The views in the order the picker offers them.
pub fn all_modes() -> (v: Vec<Mode>)
    ensures
        v@ == spec_all_modes(),
{
    let v = vec![Mode::Tree, Mode::Flat, Mode::Pack];
    assert(v@ =~= spec_all_modes());
    v
}

/// Why the manifest of packed files could not be read.
#[derive(Debug, Clone, Copy, PartialEq, Eq, Structural)]
pub enum PackFault {
    Missing,
    Malformed,
}

/// Where the manifest of packed files stands.
#[derive(Debug, Clone, Copy, PartialEq, Eq, Structural)]
pub enum PackState {
    Unknown,
    Building,
    Ready,
    Faulted(PackFault),
}

/// The notice shown when the pack view is asked for before the manifest can serve it.
pub open spec fn spec_pack_notice(state: PackState) -> Option<Seq<char>> {
    match state {
        PackState::Unknown | PackState::Building => Some("Import manifest building\nReverting to previous selection"@),
        PackState::Ready => None,
        PackState::Faulted(PackFault::Missing) => Some("Import manifest missing\nReverting to previous selection"@),
        PackState::Faulted(PackFault::Malformed) => Some("Import manifest malformed\nReverting to previous selection"@),
    }
}

impl PackState {
    /// Whether the pack view can be offered: only with a manifest in hand.
    pub fn offers_pack(self) -> (b: bool)
        ensures
            b == (self == PackState::Ready),
    {
        match self {
            PackState::Ready => true,
            _ => false,
        }
    }

    /// The notice shown when the pack view is asked for now.
    pub fn notice(self) -> (r: Option<&'static str>)
        ensures
            r matches Some(s) ==> spec_pack_notice(self) == Some(s@),
            r is None <==> spec_pack_notice(self) is None,
    {
        match self {
            PackState::Unknown | PackState::Building => Some("Import manifest building\nReverting to previous selection"),
            PackState::Ready => None,
            PackState::Faulted(PackFault::Missing) => Some("Import manifest missing\nReverting to previous selection"),
            PackState::Faulted(PackFault::Malformed) => Some("Import manifest malformed\nReverting to previous selection"),
        }
    }
}

/// What stands where the file list goes.
#[derive(Debug, Clone, Copy, PartialEq, Eq, Structural)]
pub enum Content {
    Rows,
    NoMounts,
    MountMissing,
    NoFiles,
}

/// The message shown in place of the list, if any.
pub open spec fn spec_content_label(c: Content) -> Option<Seq<char>> {
    match c {
        Content::Rows => None,
        Content::NoMounts => Some("No Mounts Available"@),
        Content::MountMissing => Some("Selected Mount Missing from Memory"@),
        Content::NoFiles => Some("No Files Found on Mount"@),
    }
}

impl Content {
    /// The message shown in place of the list, if any.
    pub fn label(self) -> (r: Option<&'static str>)
        ensures
            r matches Some(s) ==> spec_content_label(self) == Some(s@),
            r is None <==> spec_content_label(self) is None,
    {
        match self {
            Content::Rows => None,
            Content::NoMounts => Some("No Mounts Available"),
            Content::MountMissing => Some("Selected Mount Missing from Memory"),
            Content::NoFiles => Some("No Files Found on Mount"),
        }
    }
}

/// What choosing a view did.
#[derive(Debug, Clone, Copy, PartialEq, Eq)]
pub enum ModeChange {
    /// The view cannot be had now; show this notice.
    Notice(&'static str),
    /// The view was already shown.
    Unchanged,
    /// The view changed: the list is rebuilt from the top.
    Switched,
}

/// A changed file as the browser sees it: the mount it lies in and whether it is the
/// file on show.
#[derive(Debug, Clone)]
pub struct Changed {
    pub mount: Option<String>,
    pub is_selected: bool,
}

/// What a batch of changed files means for the browser.
#[derive(Debug, Clone, Copy, PartialEq, Eq, Structural)]
pub struct Impact {
    /// A changed file lies in the mount on show: the list is rebuilt.
    pub mounted: bool,
    /// The file on show changed: its view is reloaded.
    pub touched: bool,
}

/// How the list is settled for the mount on show.
#[derive(Debug, Clone, Copy, PartialEq, Eq, Structural)]
pub enum Rebuild {
    /// Nothing to list; this stands in its place.
    Settled(Content),
    /// The tree is to be rebuilt; it shows rows when it has any, else the empty notice.
    Tree,
}

/// What opening a row of the tree did.
#[derive(Debug, Clone, Copy, PartialEq, Eq, Structural)]
pub enum Activation {
    Nothing,
    /// A folder opened or closed.
    Toggled,
    /// A file was put on show; `recenter` when it already was.
    Selected { recenter: bool },
}

/// The browser's state apart from the listing itself.
#[derive(Debug, Clone)]
pub struct Browser {
    pub mounts: Vec<String>,
    pub mount: Option<String>,
    pub mode: Mode,
    /// The file on show, as a path relative to the mount.
    pub selected: Option<String>,
    pub content: Content,
    pub sidebar_open: bool,
    /// Whether the sidebar slides in when the page is entered.
    pub entered: bool,
    /// Whether the remembered mount and file are still to be checked against the index.
    pub verify: bool,
    /// Whether the game mount may be written to.
    pub unlocked: bool,
    pub pack_state: PackState,
    /// The modification stamp of the manifest last indexed.
    pub pack_stamp: Option<u64>,
    /// An indexing of the manifest runs.
    pub pack_pending: bool,
}

/// Whether the optional mount `o` is `m`.
pub open spec fn is_mount(o: Option<String>, m: Seq<char>) -> bool {
    match o {
        Some(x) => x@ == m,
        None => false,
    }
}

/// Whether the optional mount `o` is set and missing from `v`.
pub open spec fn unlisted(o: Option<String>, v: Seq<String>) -> bool {
    match o {
        Some(m) => !lists(v, m@),
        None => false,
    }
}

/// Whether `v` names `m`.
pub open spec fn lists(v: Seq<String>, m: Seq<char>) -> bool {
    exists|i: int| 0 <= i < v.len() && #[trigger] v[i]@ == m
}

impl Browser {
    /// Whether the mount on show is no longer among the indexed mounts.
    pub open spec fn spec_stale(self) -> bool {
        self.mounts@.len() > 0 && unlisted(self.mount, self.mounts@)
    }

    /// An empty browser in the tree view.
    pub fn new() -> (b: Browser)
        ensures
            b.mounts@.len() == 0,
            b.mount is None,
            b.mode == Mode::Tree,
            b.selected is None,
            b.content == Content::NoMounts,
            b.sidebar_open,
            b.entered,
            !b.verify,
            !b.unlocked,
            b.pack_state == PackState::Unknown,
            b.pack_stamp is None,
            !b.pack_pending,
    {
        Browser {
            mounts: Vec::new(),
            mount: None,
            mode: Mode::Tree,
            selected: None,
            content: Content::NoMounts,
            sidebar_open: true,
            entered: true,
            verify: false,
            unlocked: false,
            pack_state: PackState::Unknown,
            pack_stamp: None,
            pack_pending: false,
        }
    }

    /// Whether `m` is among the indexed mounts.
    fn is_listed(&self, m: &str) -> (b: bool)
        ensures
            b == lists(self.mounts@, m@),
    {
        let mut i: usize = 0;
        while i < self.mounts.len()
            invariant
                i <= self.mounts.len(),
                forall|k: int| 0 <= k < i ==> #[trigger] self.mounts@[k]@ != m@,
            decreases self.mounts.len() - i,
        {
            if same_text(self.mounts[i].as_str(), m) {
                return true;
            }
            i = i + 1;
        }
        false
    }

    /// Whether the mount on show is no longer among the indexed mounts.
    pub fn stale(&self) -> (b: bool)
        ensures
            b == self.spec_stale(),
    {
        if self.mounts.len() == 0 {
            return false;
        }
        match &self.mount {
            None => false,
            Some(m) => !self.is_listed(m.as_str()),
        }
    }

    /// Whether the file on show may be written: any mount but the game's, which only
    /// when unlocked.
    pub fn writable(&self) -> (b: bool)
        ensures
            b == (self.mount matches Some(m) && (self.unlocked || m@ != GAME@)),
    {
        match &self.mount {
            None => false,
            Some(m) => self.unlocked || !same_text(m.as_str(), GAME),
        }
    }

    /// The mount remembered for the next start: none while the one on show is stale.
    pub fn remembered_mount(&self) -> (r: Option<String>)
        ensures
            self.spec_stale() ==> r is None,
            !self.spec_stale() ==> r == self.mount,
    {
        if self.stale() { None } else { self.mount.clone() }
    }

    /// A mount was chosen; returns whether it changed (the file on show is then
    /// dropped).
    pub fn select_mount(&mut self, mount: String) -> (changed: bool)
        ensures
            changed == !(old(self).mount matches Some(m) && m@ == mount@),
            changed ==> final(self).mount == Some(mount) && final(self).selected is None,
            !changed ==> final(self).mount == old(self).mount && final(self).selected == old(self).selected,
            final(self).mode == old(self).mode,
            final(self).mounts@ == old(self).mounts@,
            final(self).pack_state == old(self).pack_state,
    {
        let same = match &self.mount {
            Some(m) => same_text(m.as_str(), mount.as_str()),
            None => false,
        };
        if same {
            return false;
        }
        self.mount = Some(mount);
        self.selected = None;
        true
    }

    /// A view was chosen. The pack view needs a manifest in hand; without one, the
    /// notice that says why is shown and nothing changes.
    pub fn select_mode(&mut self, mode: Mode) -> (change: ModeChange)
        ensures
            mode == Mode::Pack && old(self).pack_state != PackState::Ready ==> (change matches ModeChange::Notice(s)
                && spec_pack_notice(old(self).pack_state) == Some(s@) && final(self).mode == old(self).mode),
            !(mode == Mode::Pack && old(self).pack_state != PackState::Ready) ==> (
                if old(self).mode == mode { change == ModeChange::Unchanged } else { change == ModeChange::Switched }
            ) && final(self).mode == mode,
            final(self).mode == Mode::Pack ==> old(self).mode == Mode::Pack || old(self).pack_state == PackState::Ready,
            final(self).mount == old(self).mount,
            final(self).selected == old(self).selected,
            final(self).pack_state == old(self).pack_state,
    {
        if mode == Mode::Pack && !self.pack_state.offers_pack() {
            match self.pack_state.notice() {
                Some(text) => return ModeChange::Notice(text),
                None => return ModeChange::Unchanged,
            }
        }
        if self.mode == mode {
            return ModeChange::Unchanged;
        }
        self.mode = mode;
        ModeChange::Switched
    }

    /// Asks for the manifest to be indexed; `stamp` is its modification stamp now.
    /// Returns whether an indexing starts: not while one runs, nor when the manifest is
    /// unchanged since a known result.
    pub fn probe_packs(&mut self, stamp: Option<u64>) -> (start: bool)
        ensures
            start == !(old(self).pack_pending || (old(self).pack_stamp == stamp && old(self).pack_state != PackState::Unknown)),
            start ==> final(self).pack_pending && final(self).pack_stamp == stamp
                && final(self).pack_state == PackState::Building,
            !start ==> final(self).pack_pending == old(self).pack_pending
                && final(self).pack_stamp == old(self).pack_stamp
                && final(self).pack_state == old(self).pack_state,
            final(self).mode == old(self).mode,
            final(self).mount == old(self).mount,
            final(self).selected == old(self).selected,
    {
        if self.pack_pending || (self.pack_stamp == stamp && self.pack_state != PackState::Unknown) {
            return false;
        }
        self.pack_pending = true;
        self.pack_stamp = stamp;
        self.pack_state = PackState::Building;
        true
    }

    /// The manifest changed on import: its state is forgotten and it is probed again.
    pub fn reload_packs(&mut self, stamp: Option<u64>) -> (start: bool)
        ensures
            start == !old(self).pack_pending,
            start ==> final(self).pack_state == PackState::Building && final(self).pack_stamp == stamp,
            !start ==> final(self).pack_state == PackState::Unknown,
            final(self).mode == old(self).mode,
    {
        self.pack_state = PackState::Unknown;
        self.probe_packs(stamp)
    }

    /// The manifest was indexed (`Ok`) or could not be (`Err`). A failure while the pack
    /// view is shown falls back to the tree view. Returns whether the list must be
    /// rebuilt: when the pack view is (still) shown, or after the fall-back.
    pub fn pack_indexed(&mut self, result: Result<(), PackFault>) -> (reindex: bool)
        ensures
            !final(self).pack_pending,
            final(self).mode == Mode::Pack ==> final(self).pack_state == PackState::Ready,
            result is Ok ==> final(self).pack_state == PackState::Ready
                && final(self).mode == old(self).mode
                && reindex == (old(self).mode == Mode::Pack),
            result matches Err(f) ==> final(self).pack_state == PackState::Faulted(f)
                && final(self).mode == (if old(self).mode == Mode::Pack { Mode::Tree } else { old(self).mode })
                && reindex == (old(self).mode == Mode::Pack),
            final(self).mount == old(self).mount,
            final(self).selected == old(self).selected,
    {
        self.pack_pending = false;
        let fell_back = match result {
            Ok(()) => {
                self.pack_state = PackState::Ready;
                false
            },
            Err(fault) => {
                self.pack_state = PackState::Faulted(fault);
                let stranded = self.mode == Mode::Pack;
                if stranded {
                    self.mode = Mode::Tree;
                }
                stranded
            },
        };
        self.mode == Mode::Pack || fell_back
    }

    /// The sidebar was opened or closed; it does not slide in again on its own.
    pub fn toggle_sidebar(&mut self)
        ensures
            final(self).sidebar_open == !old(self).sidebar_open,
            !final(self).entered,
            final(self).mount == old(self).mount,
            final(self).selected == old(self).selected,
            final(self).mode == old(self).mode,
    {
        self.sidebar_open = !self.sidebar_open;
        self.entered = false;
    }

    /// A row of the tree is opened: `row` is whether it is a folder and its path, as the
    /// tree reads it (none when no mount is shown or the row is gone). A folder opens or
    /// closes; a file is put on show, and opening the file already on show recentres it.
    pub fn activate(&mut self, row: Option<(bool, String)>) -> (a: Activation)
        ensures
            match row {
                Some((true, _)) if old(self).mount is Some => a == Activation::Toggled && final(self).selected == old(self).selected,
                Some((false, path)) if old(self).mount is Some => a == (Activation::Selected {
                        recenter: old(self).selected matches Some(s) && s@ == path@,
                    }) && final(self).selected == Some(path),
                _ => a == Activation::Nothing && final(self).selected == old(self).selected,
            },
            final(self).mount == old(self).mount,
            final(self).mode == old(self).mode,
    {
        if self.mount.is_none() {
            return Activation::Nothing;
        }
        match row {
            Some((folder, path)) => {
                if folder {
                    return Activation::Toggled;
                }
                let repeat = match &self.selected {
                    Some(s) => same_text(s.as_str(), path.as_str()),
                    None => false,
                };
                self.selected = Some(path);
                Activation::Selected { recenter: repeat }
            },
            None => Activation::Nothing,
        }
    }

    /// The file on show was put away; returns whether there was one.
    pub fn deselect(&mut self) -> (had: bool)
        ensures
            had == old(self).selected is Some,
            final(self).selected is None,
            final(self).mount == old(self).mount,
            final(self).mode == old(self).mode,
    {
        let had = self.selected.is_some();
        self.selected = None;
        had
    }

    /// The page is synchronised with the index's mounts. Once a build has validated the
    /// index, a remembered mount that is gone is dropped along with its file, and a
    /// remembered file is to be revealed; a browser without a mount takes the first one.
    /// Returns whether the remembered file is to be revealed in the tree.
    pub fn sync(&mut self, keys: Vec<String>, validated: bool) -> (uncover: bool)
        ensures
            final(self).mounts@ == keys@,
            final(self).entered,
            ({
                let checks = old(self).verify && validated && keys@.len() > 0;
                let stale = keys@.len() > 0 && unlisted(old(self).mount, keys@);
                let dropped = checks && stale;
                &&& final(self).verify == (old(self).verify && !checks)
                &&& uncover == (checks && !stale && old(self).selected is Some)
                &&& if dropped || old(self).mount is None {
                    final(self).mount == (if keys@.len() > 0 { Some(keys@[0]) } else { None::<String> })
                        && final(self).selected is None
                } else {
                    final(self).mount == old(self).mount && final(self).selected == old(self).selected
                }
            }),
            final(self).mode == old(self).mode,
    {
        self.entered = true;
        self.mounts = keys;
        let mut uncover = false;
        if self.verify && validated && self.mounts.len() > 0 {
            self.verify = false;
            if self.stale() {
                self.mount = None;
                self.selected = None;
            } else if self.selected.is_some() {
                uncover = true;
            }
        }
        if self.mount.is_none() {
            self.mount = if self.mounts.len() > 0 { Some(self.mounts[0].clone()) } else { None };
            self.selected = None;
        }
        uncover
    }

    /// What a batch of changed files means: whether any lies in the mount on show, and
    /// whether the file on show is among them.
    pub fn impact(&self, changed: &Vec<Changed>) -> (r: Impact)
        ensures
            r.mounted == (self.mount matches Some(m)
                && exists|i: int| 0 <= i < changed@.len() && is_mount((#[trigger] changed@[i]).mount, m@)),
            r.touched == (self.mount matches Some(m)
                && exists|i: int| 0 <= i < changed@.len() && is_mount((#[trigger] changed@[i]).mount, m@)
                    && changed@[i].is_selected),
    {
        let mut r = Impact { mounted: false, touched: false };
        let m = match &self.mount {
            None => return r,
            Some(m) => m,
        };
        let mut i: usize = 0;
        while i < changed.len()
            invariant
                i <= changed.len(),
                self.mount == Some(*m),
                r.mounted == exists|k: int| 0 <= k < i && is_mount((#[trigger] changed@[k]).mount, m@),
                r.touched == exists|k: int| 0 <= k < i && is_mount((#[trigger] changed@[k]).mount, m@)
                    && changed@[k].is_selected,
            decreases changed.len() - i,
        {
            let here = match &changed[i].mount {
                Some(c) => same_text(c.as_str(), m.as_str()),
                None => false,
            };
            if here {
                r.mounted = true;
                if changed[i].is_selected {
                    r.touched = true;
                }
            }
            i = i + 1;
        }
        r
    }

    /// Settles what stands in the list's place before the tree is rebuilt.
    /// `selected_present` says whether the file on show is still indexed, `count` how
    /// many files the mount holds. A stale mount or a vanished file drops the file on
    /// show.
    pub fn settle(&mut self, selected_present: bool, count: usize) -> (r: Rebuild)
        ensures
            old(self).mounts@.len() == 0 ==> r == Rebuild::Settled(Content::NoMounts)
                && final(self).selected == old(self).selected,
            old(self).mounts@.len() > 0 && old(self).spec_stale() ==> r == Rebuild::Settled(Content::MountMissing)
                && final(self).selected is None,
            old(self).mounts@.len() > 0 && !old(self).spec_stale() && old(self).mount is None
                ==> r == Rebuild::Settled(Content::NoFiles) && final(self).selected == old(self).selected,
            old(self).mounts@.len() > 0 && !old(self).spec_stale() && old(self).mount is Some ==> (
                final(self).selected == (if old(self).selected is Some && !selected_present { None } else { old(self).selected })
                && r == (if count == 0 { Rebuild::Settled(Content::NoFiles) } else { Rebuild::Tree })
            ),
            r matches Rebuild::Settled(c) ==> final(self).content == c,
            final(self).mount == old(self).mount,
            final(self).mode == old(self).mode,
            final(self).mounts@ == old(self).mounts@,
    {
        if self.mounts.len() == 0 {
            self.content = Content::NoMounts;
            return Rebuild::Settled(Content::NoMounts);
        }
        if self.stale() {
            self.selected = None;
            self.content = Content::MountMissing;
            return Rebuild::Settled(Content::MountMissing);
        }
        if self.mount.is_none() {
            self.content = Content::NoFiles;
            return Rebuild::Settled(Content::NoFiles);
        }
        if self.selected.is_some() && !selected_present {
            self.selected = None;
        }
        if count == 0 {
            self.content = Content::NoFiles;
            return Rebuild::Settled(Content::NoFiles);
        }
        Rebuild::Tree
    }

    /// The tree was rebuilt: rows show when it has any, else the empty notice.
    pub fn populated(&mut self, populated: bool)
        ensures
            final(self).content == (if populated { Content::Rows } else { Content::NoFiles }),
            final(self).mount == old(self).mount,
            final(self).selected == old(self).selected,
            final(self).mode == old(self).mode,
    {
        self.content = if populated { Content::Rows } else { Content::NoFiles };
    }
}

/// The header's label for a file on show: the mount, the separator, the file's name.
pub open spec fn spec_selection_label(mount: Seq<char>, name: Seq<char>) -> Seq<char> {
    mount + " :: "@ + name
}

/// The header's label for a file on show.
pub fn selection_label(mount: &str, name: &str) -> (s: String)
    ensures
        s@ == spec_selection_label(mount@, name@),
{
    let mut s = String::new();
    crate::text::push_str(&mut s, mount);
    crate::text::push_str(&mut s, crate::theme::HEADER_SEPARATOR);
    crate::text::push_str(&mut s, name);
    proof {
        reveal_strlit(" :: ");
    }
    s
}

} // verus!

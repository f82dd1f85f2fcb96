//! The application's pages and the stack of open popups.

use vstd::prelude::*;
use crate::updater::{UpdateStatus, Updater};
use crate::lifecycle::{spec_idle, Indexing, Reveal};

verus! {

/// A page of the application, one per sidebar tab.
#[derive(PartialEq, Eq, Clone, Copy, Debug, Structural)]
pub enum Page {
    Home,
    Cats,
    Enemies,
    Stages,
    Mods,
    Files,
    Import,
    Mining,
    Studio,
    Utilities,
    Help,
    Settings,
}

/// The label of a page's tab.
pub open spec fn spec_tab_name(page: Page) -> Seq<char> {
    match page {
        Page::Home => "Home"@,
        Page::Cats => "Cats"@,
        Page::Enemies => "Enemies"@,
        Page::Stages => "Stages"@,
        Page::Mods => "Mods"@,
        Page::Files => "Files"@,
        Page::Import => "Import"@,
        Page::Mining => "Mining"@,
        Page::Studio => "Studio"@,
        Page::Utilities => "Utilities"@,
        Page::Help => "Help"@,
        Page::Settings => "Settings"@,
    }
}

/// The pages in sidebar order.
pub open spec fn spec_all_pages() -> Seq<Page> {
    seq![
        Page::Home, Page::Cats, Page::Enemies, Page::Stages, Page::Mods, Page::Files,
        Page::Import, Page::Mining, Page::Studio, Page::Utilities, Page::Help, Page::Settings,
    ]
}

impl Page {
    /// The label of the page's tab.
    pub fn tab_name(self) -> (s: &'static str)
        ensures
            s@ == spec_tab_name(self),
    {
        match self {
            Page::Home => "Home",
            Page::Cats => "Cats",
            Page::Enemies => "Enemies",
            Page::Stages => "Stages",
            Page::Mods => "Mods",
            Page::Files => "Files",
            Page::Import => "Import",
            Page::Mining => "Mining",
            Page::Studio => "Studio",
            Page::Utilities => "Utilities",
            Page::Help => "Help",
            Page::Settings => "Settings",
        }
    }

    /// Whether the page is only offered to users who enabled nightly features; no page
    /// is at present.
    pub fn nightly(self) -> (b: bool)
        ensures
            !b,
    {
        false
    }
}

/// The pages in sidebar order.
pub fn all_pages() -> (v: Vec<Page>)
    ensures
        v@ == spec_all_pages(),
{
    let v = vec![
        Page::Home, Page::Cats, Page::Enemies, Page::Stages, Page::Mods, Page::Files,
        Page::Import, Page::Mining, Page::Studio, Page::Utilities, Page::Help, Page::Settings,
    ];
    assert(v@ =~= spec_all_pages());
    v
}

/// The pages that have a sidebar tab: every page, less the nightly ones unless nightly
/// features are enabled.
pub fn sidebar_pages(enable_nightly: bool) -> (v: Vec<Page>)
    ensures
        v@ == spec_all_pages(),
{
    let all = all_pages();
    let mut v: Vec<Page> = Vec::new();
    let mut i: usize = 0;
    while i < all.len()
        invariant
            all@ == spec_all_pages(),
            i <= all.len(),
            v@ == all@.take(i as int),
        decreases all.len() - i,
    {
        let page = all[i];
        if !(page.nightly() && !enable_nightly) {
            v.push(page);
        }
        i = i + 1;
        assert(v@ =~= all@.take(i as int));
    }
    assert(all@.take(all@.len() as int) =~= all@);
    v
}

/// The sidebar of page tabs, which slides in and out; it starts open.
#[derive(Clone, Copy, Debug, PartialEq, Eq, Structural)]
pub struct Sidebar {
    pub open: bool,
}

impl Sidebar {
    /// The sidebar at start-up: open.
    pub fn new() -> (s: Sidebar)
        ensures
            s.open,
    {
        Sidebar { open: true }
    }

    /// The toggle button was pressed: an open sidebar closes, a closed one opens.
    pub fn toggle(&mut self)
        ensures
            final(self).open == !old(self).open,
    {
        self.open = !self.open;
    }

    /// The toggle button's arrow: pointing right (to slide it out) while open, left
    /// while closed.
    pub fn arrow(&self) -> (s: &'static str)
        ensures
            s@ == if self.open { "\u{25B6}"@ } else { "\u{25C0}"@ },
    {
        if self.open { "\u{25B6}" } else { "\u{25C0}" }
    }
}

/// The popups that the main window can show.
#[derive(Clone, Copy, Debug, PartialEq, Eq, Structural)]
pub enum ActivePopup {
    InitErrors,
    Updater,
    VersionNotice,
    HomeChangelog,
    CatExport,
    CatFilter,
    EnemyExport,
    EnemyFilter,
    StageFilter,
    ModsImport,
    ModsExport,
    SettingsKeys,
    SettingsExceptions,
    SettingsPem,
    UtilityExport,
    UtilitySettings,
    StudioManage,
    StudioOnion,
    StudioShipout,
    StudioExport,
}

/// The kind of a popup window, which keys its layer and stored size.
#[derive(Clone, Copy, Debug, PartialEq, Eq, Structural)]
pub enum PopupKind {
    InitErrors,
    Updater,
    Notice,
    Changelog,
    CatAnimationExport,
    CatFilter,
    EnemyAnimationExport,
    EnemyFilter,
    StageFilter,
    ModImport,
    ModExport,
    Keys,
    Exceptions,
    Pem,
    UtilityAnimationExport,
    UtilityAnimationSettings,
    StudioManage,
    StudioOnion,
    StudioShipout,
    Animator,
}

/// The kind that each popup claims.
pub open spec fn spec_kind(p: ActivePopup) -> PopupKind {
    match p {
        ActivePopup::InitErrors => PopupKind::InitErrors,
        ActivePopup::Updater => PopupKind::Updater,
        ActivePopup::VersionNotice => PopupKind::Notice,
        ActivePopup::HomeChangelog => PopupKind::Changelog,
        ActivePopup::CatExport => PopupKind::CatAnimationExport,
        ActivePopup::CatFilter => PopupKind::CatFilter,
        ActivePopup::EnemyExport => PopupKind::EnemyAnimationExport,
        ActivePopup::EnemyFilter => PopupKind::EnemyFilter,
        ActivePopup::StageFilter => PopupKind::StageFilter,
        ActivePopup::ModsImport => PopupKind::ModImport,
        ActivePopup::ModsExport => PopupKind::ModExport,
        ActivePopup::SettingsKeys => PopupKind::Keys,
        ActivePopup::SettingsExceptions => PopupKind::Exceptions,
        ActivePopup::SettingsPem => PopupKind::Pem,
        ActivePopup::UtilityExport => PopupKind::UtilityAnimationExport,
        ActivePopup::UtilitySettings => PopupKind::UtilityAnimationSettings,
        ActivePopup::StudioManage => PopupKind::StudioManage,
        ActivePopup::StudioOnion => PopupKind::StudioOnion,
        ActivePopup::StudioShipout => PopupKind::StudioShipout,
        ActivePopup::StudioExport => PopupKind::Animator,
    }
}

/// Every popup, in declaration order.
pub open spec fn spec_all_popups() -> Seq<ActivePopup> {
    seq![
        ActivePopup::InitErrors, ActivePopup::Updater, ActivePopup::VersionNotice, ActivePopup::HomeChangelog,
        ActivePopup::CatExport, ActivePopup::CatFilter, ActivePopup::EnemyExport, ActivePopup::EnemyFilter,
        ActivePopup::StageFilter, ActivePopup::ModsImport, ActivePopup::ModsExport, ActivePopup::SettingsKeys,
        ActivePopup::SettingsExceptions, ActivePopup::SettingsPem, ActivePopup::UtilityExport, ActivePopup::UtilitySettings,
        ActivePopup::StudioManage, ActivePopup::StudioOnion, ActivePopup::StudioShipout, ActivePopup::StudioExport,
    ]
}

/// The page on which a popup is shown, or `None` for those shown on every page.
pub open spec fn spec_home_page(p: ActivePopup) -> Option<Page> {
    match p {
        ActivePopup::InitErrors | ActivePopup::Updater | ActivePopup::VersionNotice => None,
        ActivePopup::HomeChangelog => Some(Page::Home),
        ActivePopup::CatExport | ActivePopup::CatFilter => Some(Page::Cats),
        ActivePopup::EnemyExport | ActivePopup::EnemyFilter => Some(Page::Enemies),
        ActivePopup::StageFilter => Some(Page::Stages),
        ActivePopup::ModsImport | ActivePopup::ModsExport => Some(Page::Mods),
        ActivePopup::SettingsKeys | ActivePopup::SettingsExceptions | ActivePopup::SettingsPem => Some(Page::Settings),
        ActivePopup::UtilityExport | ActivePopup::UtilitySettings => Some(Page::Utilities),
        ActivePopup::StudioManage | ActivePopup::StudioOnion | ActivePopup::StudioShipout | ActivePopup::StudioExport => Some(Page::Studio),
    }
}

impl ActivePopup {
    /// The kind this popup claims.
    pub fn kind(self) -> (k: PopupKind)
        ensures
            k == spec_kind(self),
    {
        match self {
            ActivePopup::InitErrors => PopupKind::InitErrors,
            ActivePopup::Updater => PopupKind::Updater,
            ActivePopup::VersionNotice => PopupKind::Notice,
            ActivePopup::HomeChangelog => PopupKind::Changelog,
            ActivePopup::CatExport => PopupKind::CatAnimationExport,
            ActivePopup::CatFilter => PopupKind::CatFilter,
            ActivePopup::EnemyExport => PopupKind::EnemyAnimationExport,
            ActivePopup::EnemyFilter => PopupKind::EnemyFilter,
            ActivePopup::StageFilter => PopupKind::StageFilter,
            ActivePopup::ModsImport => PopupKind::ModImport,
            ActivePopup::ModsExport => PopupKind::ModExport,
            ActivePopup::SettingsKeys => PopupKind::Keys,
            ActivePopup::SettingsExceptions => PopupKind::Exceptions,
            ActivePopup::SettingsPem => PopupKind::Pem,
            ActivePopup::UtilityExport => PopupKind::UtilityAnimationExport,
            ActivePopup::UtilitySettings => PopupKind::UtilityAnimationSettings,
            ActivePopup::StudioManage => PopupKind::StudioManage,
            ActivePopup::StudioOnion => PopupKind::StudioOnion,
            ActivePopup::StudioShipout => PopupKind::StudioShipout,
            ActivePopup::StudioExport => PopupKind::Animator,
        }
    }

    /// The page the popup belongs to, or `None` when it shows on every page.
    pub fn home_page(self) -> (r: Option<Page>)
        ensures
            r == spec_home_page(self),
    {
        match self {
            ActivePopup::InitErrors | ActivePopup::Updater | ActivePopup::VersionNotice => None,
            ActivePopup::HomeChangelog => Some(Page::Home),
            ActivePopup::CatExport | ActivePopup::CatFilter => Some(Page::Cats),
            ActivePopup::EnemyExport | ActivePopup::EnemyFilter => Some(Page::Enemies),
            ActivePopup::StageFilter => Some(Page::Stages),
            ActivePopup::ModsImport | ActivePopup::ModsExport => Some(Page::Mods),
            ActivePopup::SettingsKeys | ActivePopup::SettingsExceptions | ActivePopup::SettingsPem => Some(Page::Settings),
            ActivePopup::UtilityExport | ActivePopup::UtilitySettings => Some(Page::Utilities),
            ActivePopup::StudioManage | ActivePopup::StudioOnion | ActivePopup::StudioShipout | ActivePopup::StudioExport => Some(Page::Studio),
        }
    }
}

/// Every popup.
pub fn all_popups() -> (v: Vec<ActivePopup>)
    ensures
        v@ == spec_all_popups(),
{
    let v = vec![
        ActivePopup::InitErrors, ActivePopup::Updater, ActivePopup::VersionNotice, ActivePopup::HomeChangelog,
        ActivePopup::CatExport, ActivePopup::CatFilter, ActivePopup::EnemyExport, ActivePopup::EnemyFilter,
        ActivePopup::StageFilter, ActivePopup::ModsImport, ActivePopup::ModsExport, ActivePopup::SettingsKeys,
        ActivePopup::SettingsExceptions, ActivePopup::SettingsPem, ActivePopup::UtilityExport, ActivePopup::UtilitySettings,
        ActivePopup::StudioManage, ActivePopup::StudioOnion, ActivePopup::StudioShipout, ActivePopup::StudioExport,
    ];
    assert(v@ =~= spec_all_popups());
    v
}

/// Every kind is claimed by at most one popup: two live popups never share a layer.
pub proof fn law_kinds_are_distinct(a: ActivePopup, b: ActivePopup)
    requires
        a != b,
    ensures
        spec_kind(a) != spec_kind(b),
{
}

/// Every popup is listed, exactly once.
pub proof fn law_all_popups_listed(p: ActivePopup)
    ensures
        spec_all_popups().contains(p),
        spec_all_popups().no_duplicates(),
{
    let all = spec_all_popups();
    let i: int = match p {
        ActivePopup::InitErrors => 0,
        ActivePopup::Updater => 1,
        ActivePopup::VersionNotice => 2,
        ActivePopup::HomeChangelog => 3,
        ActivePopup::CatExport => 4,
        ActivePopup::CatFilter => 5,
        ActivePopup::EnemyExport => 6,
        ActivePopup::EnemyFilter => 7,
        ActivePopup::StageFilter => 8,
        ActivePopup::ModsImport => 9,
        ActivePopup::ModsExport => 10,
        ActivePopup::SettingsKeys => 11,
        ActivePopup::SettingsExceptions => 12,
        ActivePopup::SettingsPem => 13,
        ActivePopup::UtilityExport => 14,
        ActivePopup::UtilitySettings => 15,
        ActivePopup::StudioManage => 16,
        ActivePopup::StudioOnion => 17,
        ActivePopup::StudioShipout => 18,
        ActivePopup::StudioExport => 19,
    };
    assert(all[i] == p);
}

/// The open popups, in the order they were opened; each at most once.
#[derive(Debug, Clone)]
pub struct Popups {
    active: Vec<ActivePopup>,
}

impl Popups {
    /// The open popups, in the order they were opened.
    pub closed spec fn view(self) -> Seq<ActivePopup> {
        self.active@
    }

    /// No popup is open twice.
    pub open spec fn wf(self) -> bool {
        self.view().no_duplicates()
    }

    /// No popup open.
    pub fn new() -> (p: Popups)
        ensures
            p.wf(),
            p.view() == Seq::<ActivePopup>::empty(),
    {
        let p = Popups { active: Vec::new() };
        assert(p.view() =~= Seq::<ActivePopup>::empty());
        p
    }

    /// Whether a popup is open.
    pub fn is_open(&self, popup: ActivePopup) -> (b: bool)
        ensures
            b == self.view().contains(popup),
    {
        let mut i: usize = 0;
        while i < self.active.len()
            invariant
                i <= self.active@.len(),
                forall|j: int| 0 <= j < i ==> self.active@[j] != popup,
            decreases self.active.len() - i,
        {
            if self.active[i] == popup {
                return true;
            }
            i = i + 1;
        }
        false
    }

    /// The open popups, in the order they were opened.
    pub fn open_popups(&self) -> (v: Vec<ActivePopup>)
        ensures
            v@ == self.view(),
    {
        self.active.clone()
    }

    /// Brings the popup's open state in line with `open`. Opening a popup that is not
    /// open yet appends it (it is raised above the others: the result says so); opening
    /// an open one changes nothing; closing removes it.
    pub fn sync(&mut self, popup: ActivePopup, open: bool) -> (raised: bool)
        requires
            old(self).wf(),
        ensures
            final(self).wf(),
            open && !old(self).view().contains(popup) ==> raised && final(self).view() == old(self).view().push(popup),
            open && old(self).view().contains(popup) ==> !raised && final(self).view() == old(self).view(),
            !open ==> !raised && final(self).view() == old(self).view().filter(|a: ActivePopup| a != popup),
    {
        if open {
            if self.is_open(popup) {
                return false;
            }
            let ghost before = self.active@;
            self.active.push(popup);
            proof { crate::seqs::lemma_push_unique(before, popup); }
            return true;
        }
        let ghost before = self.active@;
        let ghost pred = |a: ActivePopup| a != popup;
        let mut kept: Vec<ActivePopup> = Vec::new();
        let mut i: usize = 0;
        while i < self.active.len()
            invariant
                i <= self.active@.len(),
                before == self.active@,
                forall|x: ActivePopup| #[trigger] pred(x) == (x != popup),
                kept@ == before.take(i as int).filter(pred),
            decreases self.active.len() - i,
        {
            let a = self.active[i];
            proof {
                assert(before.take(i + 1) =~= before.take(i as int).push(a));
                before.take(i as int).lemma_filter_push(a, pred);
            }
            if a != popup {
                kept.push(a);
            }
            i = i + 1;
        }
        assert(before.take(before.len() as int) =~= before);
        proof { lemma_filter_unique(before, pred); }
        self.active = kept;
        false
    }
}

/// Whether an open popup is drawn: the error and updater popups always (they draw
/// themselves only when they have something to say), the version notice once the window
/// has its size, an export popup on its page while its export is visible, any other
/// popup on its page.
pub open spec fn spec_popup_shows(p: ActivePopup, page: Page, measured: bool, export_visible: bool) -> bool {
    match p {
        ActivePopup::InitErrors | ActivePopup::Updater => true,
        ActivePopup::VersionNotice => measured,
        ActivePopup::CatExport | ActivePopup::EnemyExport | ActivePopup::UtilityExport =>
            spec_home_page(p) == Some(page) && export_visible,
        _ => spec_home_page(p) == Some(page),
    }
}

/// Whether an open popup is drawn on `page`; `export_visible` tells whether that page's
/// export view is showing.
pub fn popup_shows(p: ActivePopup, page: Page, measured: bool, export_visible: bool) -> (b: bool)
    ensures
        b == spec_popup_shows(p, page, measured, export_visible),
{
    match p {
        ActivePopup::InitErrors | ActivePopup::Updater => true,
        ActivePopup::VersionNotice => measured,
        ActivePopup::CatExport | ActivePopup::EnemyExport | ActivePopup::UtilityExport =>
            p.home_page() == Some(page) && export_visible,
        _ => p.home_page() == Some(page),
    }
}

impl Popups {
    /// The open popups drawn on `page`, in the order they were opened.
    pub fn shown(&self, page: Page, measured: bool, export_visible: bool) -> (v: Vec<ActivePopup>)
        ensures
            v@ == self.view().filter(|a: ActivePopup| spec_popup_shows(a, page, measured, export_visible)),
    {
        let ghost pred = |a: ActivePopup| spec_popup_shows(a, page, measured, export_visible);
        let mut v: Vec<ActivePopup> = Vec::new();
        let mut i: usize = 0;
        while i < self.active.len()
            invariant
                i <= self.active@.len(),
                forall|x: ActivePopup| #[trigger] pred(x) == spec_popup_shows(x, page, measured, export_visible),
                v@ == self.active@.take(i as int).filter(pred),
            decreases self.active.len() - i,
        {
            let a = self.active[i];
            proof {
                assert(self.active@.take(i + 1) =~= self.active@.take(i as int).push(a));
                self.active@.take(i as int).lemma_filter_push(a, pred);
            }
            if popup_shows(a, page, measured, export_visible) {
                v.push(a);
            }
            i = i + 1;
        }
        assert(self.active@.take(self.active@.len() as int) =~= self.active@);
        v
    }
}

proof fn lemma_filter_unique(s: Seq<ActivePopup>, pred: spec_fn(ActivePopup) -> bool)
    requires
        s.no_duplicates(),
    ensures
        s.filter(pred).no_duplicates(),
    decreases s.len(),
{
    if s.len() > 0 {
        let init = s.drop_last();
        assert(init.no_duplicates());
        lemma_filter_unique(init, pred);
        assert(s =~= init.push(s.last()));
        init.lemma_filter_push(s.last(), pred);
        if pred(s.last()) {
            assert(!init.contains(s.last()));
            if init.filter(pred).contains(s.last()) {
                init.lemma_filter_contains_rev(pred, s.last());
            }
            crate::seqs::lemma_push_unique(init.filter(pred), s.last());
        }
    }
}

/// Whether a key press asks to undo: the command modifier held with "z", in either case.
pub open spec fn spec_undo_key(command: bool, typed: Seq<char>) -> bool {
    command && typed.len() == 1 && (typed[0] == 'z' || typed[0] == 'Z')
}

/// Whether a key press asks to undo.
pub fn undo_key(command: bool, typed: &str) -> (b: bool)
    ensures
        b == spec_undo_key(command, typed@),
{
    if !command {
        return false;
    }
    let v = crate::text::chars_of(typed);
    v.len() == 1 && (v[0] == 'z' || v[0] == 'Z')
}

/// What a page needs when it is entered.
#[derive(PartialEq, Eq, Clone, Copy, Debug, Structural)]
pub enum Entry {
    /// The home page shows whether game data is present.
    HomeStatus,
    /// The file browser syncs with the mounted files.
    SyncFiles,
    /// The roster checks its sprite sheets and scrolls its list, filter and export panels
    /// back to where they were.
    RestoreRoster,
    /// The stage browser enters.
    EnterStages,
    /// The export panel scrolls back to where it was.
    RestoreExport,
    /// The mining page enters with the current tables.
    EnterMining,
    /// The import page enters.
    EnterImport,
    /// The help page scrolls back to where it was.
    RestoreHelp,
    Nothing,
}

/// What moving from one page to another asks for: whether the file browser is left,
/// whether the studio's work is flushed, and what the new page needs.
pub open spec fn spec_navigation(from: Page, to: Page) -> (bool, bool, Entry) {
    let leave_files = from == Page::Files && to != Page::Files;
    let flush_studio = from == Page::Studio && to != Page::Studio;
    let entry = match to {
        Page::Home => Entry::HomeStatus,
        Page::Files => Entry::SyncFiles,
        Page::Cats => Entry::RestoreRoster,
        Page::Enemies => Entry::RestoreRoster,
        Page::Stages => Entry::EnterStages,
        Page::Utilities => Entry::RestoreExport,
        Page::Studio => Entry::RestoreExport,
        Page::Mining => Entry::EnterMining,
        Page::Import => Entry::EnterImport,
        Page::Help => Entry::RestoreHelp,
        _ => Entry::Nothing,
    };
    (leave_files, flush_studio, entry)
}

/// What moving from `from` to `to` asks for (see [`spec_navigation`]).
pub fn navigation(from: Page, to: Page) -> (r: (bool, bool, Entry))
    ensures
        r == spec_navigation(from, to),
{
    let leave_files = from == Page::Files && to != Page::Files;
    let flush_studio = from == Page::Studio && to != Page::Studio;
    let entry = match to {
        Page::Home => Entry::HomeStatus,
        Page::Files => Entry::SyncFiles,
        Page::Cats => Entry::RestoreRoster,
        Page::Enemies => Entry::RestoreRoster,
        Page::Stages => Entry::EnterStages,
        Page::Utilities => Entry::RestoreExport,
        Page::Studio => Entry::RestoreExport,
        Page::Mining => Entry::EnterMining,
        Page::Import => Entry::EnterImport,
        Page::Help => Entry::RestoreHelp,
        _ => Entry::Nothing,
    };
    (leave_files, flush_studio, entry)
}

/// Whether the home page's game-data status is refreshed: only once the file index is
/// ready and no rebuild runs. The result is what the home page is told, if anything:
/// whether the game data is empty.
pub fn home_status(vault_ready: bool, rebuilding: bool, game_files: usize) -> (r: Option<bool>)
    ensures
        r == (if !vault_ready || rebuilding { None } else { Some(game_files == 0) }),
{
    if !vault_ready || rebuilding {
        return None;
    }
    Some(game_files == 0)
}

/// Navigating to the page already shown neither leaves the file browser nor flushes the
/// studio.
pub proof fn law_staying_put_leaves_nothing(page: Page)
    ensures
        !spec_navigation(page, page).0,
        !spec_navigation(page, page).1,
{
}

/// After the updater opened or closed its prompt, the popup stack follows it: the
/// updater popup is open exactly when the prompt is (see [`Popups::sync`]).
pub fn sync_updater_popup(popups: &mut Popups, updater: &Updater)
    requires
        old(popups).wf(),
    ensures
        final(popups).wf(),
        final(popups).view().contains(ActivePopup::Updater) == updater.popup_open,
        updater.popup_open && !old(popups).view().contains(ActivePopup::Updater) ==>
            final(popups).view() == old(popups).view().push(ActivePopup::Updater),
        updater.popup_open && old(popups).view().contains(ActivePopup::Updater) ==> final(popups).view() == old(popups).view(),
        !updater.popup_open ==> final(popups).view() == old(popups).view().filter(|a: ActivePopup| a != ActivePopup::Updater),
{
    let ghost before = popups.view();
    popups.sync(ActivePopup::Updater, updater.popup_open);
    proof {
        if updater.popup_open {
            if !before.contains(ActivePopup::Updater) {
                assert(popups.view()[before.len() as int] == ActivePopup::Updater);
            }
        } else {
            let pred = |a: ActivePopup| a != ActivePopup::Updater;
            let after = before.filter(pred);
            assert(popups.view() == after);
            if after.contains(ActivePopup::Updater) {
                let i = choose|i: int| 0 <= i < after.len() && after[i] == ActivePopup::Updater;
                before.lemma_filter_pred(pred, i);
            }
        }
    }
}

/// The updater prompt is opened or closed, and the popup stack with it; the update
/// status and the "Never" button are left as they are.
pub fn set_updater_popup(popups: &mut Popups, updater: &mut Updater, open: bool)
    requires
        old(popups).wf(),
    ensures
        final(popups).wf(),
        final(updater).popup_open == open,
        final(updater).status == old(updater).status,
        final(updater).never_armed == old(updater).never_armed,
        final(popups).view().contains(ActivePopup::Updater) == open,
        open && !old(popups).view().contains(ActivePopup::Updater) ==>
            final(popups).view() == old(popups).view().push(ActivePopup::Updater),
        open && old(popups).view().contains(ActivePopup::Updater) ==> final(popups).view() == old(popups).view(),
        !open ==> final(popups).view() == old(popups).view().filter(|a: ActivePopup| a != ActivePopup::Updater),
{
    updater.popup_open = open;
    sync_updater_popup(popups, updater);
}

/// No two pages share a tab name.
pub proof fn law_tab_names_are_distinct(a: Page, b: Page)
    requires
        a != b,
    ensures
        spec_tab_name(a) != spec_tab_name(b),
{
    reveal_strlit("Home");
    reveal_strlit("Cats");
    reveal_strlit("Enemies");
    reveal_strlit("Stages");
    reveal_strlit("Mods");
    reveal_strlit("Files");
    reveal_strlit("Import");
    reveal_strlit("Mining");
    reveal_strlit("Studio");
    reveal_strlit("Utilities");
    reveal_strlit("Help");
    reveal_strlit("Settings");
    let x = spec_tab_name(a);
    let y = spec_tab_name(b);
    if x.len() == y.len() {
        assert(x[0] != y[0] || x[1] != y[1] || x[2] != y[2]);
    }
}

/// The page the application opens on.
pub fn start_page() -> (p: Page)
    ensures
        p == Page::Home,
{
    Page::Home
}

/// What the application holds when it starts: the home page, an open sidebar, no popup,
/// an idle updater with its popup closed, a file index not yet ready and at rest with
/// nothing held back, and a window not yet shown.
pub struct AppStart {
    pub page: Page,
    pub sidebar: Sidebar,
    pub popups: Popups,
    pub updater: Updater,
    pub vault_ready: bool,
    pub indexing: Indexing,
    pub reveal: Reveal,
}

impl AppStart {
    /// The start state.
    pub fn new() -> (s: AppStart)
        ensures
            s.page == Page::Home,
            s.sidebar.open,
            s.popups.wf(),
            s.popups.view() == Seq::<ActivePopup>::empty(),
            s.updater.status matches UpdateStatus::Idle,
            !s.updater.popup_open,
            !s.updater.never_armed,
            !s.vault_ready,
            s.indexing.state == spec_idle(),
            s.indexing.replay@.len() == 0,
            s.reveal == (Reveal { frames_painted: 0, window_shown: false }),
    {
        AppStart {
            page: start_page(),
            sidebar: Sidebar::new(),
            popups: Popups::new(),
            updater: Updater::new(),
            vault_ready: false,
            indexing: Indexing::new(),
            reveal: Reveal::new(),
        }
    }
}

} // verus!

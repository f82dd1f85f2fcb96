//! Update checks: which published release this build should install, and the small
//! state machine behind the update prompt.

use vstd::prelude::*;
use crate::text::{chars_of, push_char, push_str, same_text, string_of_range};

verus! {

/// Why an update check failed.
#[derive(Debug, Clone, Copy, PartialEq, Eq)]
pub enum CheckFailure {
    RateLimited,
    InvalidUrl,
    Unknown,
    Install,
}

/// How a request to the release host failed.
#[derive(Debug, Clone, Copy, PartialEq, Eq)]
pub enum HostErrorKind {
    RateLimited,
    InvalidUrl,
    Network,
    Malformed,
}

/// The reason reported for a failed request to the release host.
pub open spec fn spec_failure_of(kind: HostErrorKind) -> CheckFailure {
    match kind {
        HostErrorKind::RateLimited => CheckFailure::RateLimited,
        HostErrorKind::InvalidUrl => CheckFailure::InvalidUrl,
        HostErrorKind::Network => CheckFailure::Unknown,
        HostErrorKind::Malformed => CheckFailure::Unknown,
    }
}

/// The reason reported for a failed request to the release host.
pub fn failure_of(kind: HostErrorKind) -> (r: CheckFailure)
    ensures
        r == spec_failure_of(kind),
{
    match kind {
        HostErrorKind::RateLimited => CheckFailure::RateLimited,
        HostErrorKind::InvalidUrl => CheckFailure::InvalidUrl,
        HostErrorKind::Network | HostErrorKind::Malformed => CheckFailure::Unknown,
    }
}

/// A failed check: the reason shown to the user and a detail for the log.
#[derive(Debug, Clone)]
pub struct CheckError {
    pub reason: CheckFailure,
    pub detail: String,
}

/// The release to install: the newest published version, and the one this build can
/// install now (which is older when the newest ships no asset this build understands).
#[derive(Debug, Clone)]
pub struct UpdateTarget {
    pub latest: String,
    pub version: String,
    pub tag: String,
    pub asset: String,
}

/// A published release.
#[derive(Debug, Clone)]
pub struct Release {
    pub tag_name: String,
    pub prerelease: bool,
    pub assets: Vec<String>,
}

/// The desktop system a build runs on.
#[derive(Debug, Clone, Copy, PartialEq, Eq)]
pub enum Platform {
    Windows,
    Mac,
    Linux,
}

/// The name of a platform in release asset names.
pub open spec fn spec_platform_name(p: Platform) -> Seq<char> {
    match p {
        Platform::Windows => "windows"@,
        Platform::Mac => "mac"@,
        Platform::Linux => "linux"@,
    }
}

/// The name of a platform in release asset names.
pub fn platform_name(p: Platform) -> (s: &'static str)
    ensures
        s@ == spec_platform_name(p),
{
    match p {
        Platform::Windows => "windows",
        Platform::Mac => "mac",
        Platform::Linux => "linux",
    }
}

/// What the running build is: its own version, the version of its core, and its platform.
#[derive(Debug, Clone)]
pub struct Build {
    pub version: String,
    pub core_version: String,
    pub platform: Platform,
}

/// The version part of a tag: the tag without one leading `v`.
pub open spec fn spec_version(tag: Seq<char>) -> Seq<char> {
    if tag.len() > 0 && tag[0] == 'v' {
        tag.drop_first()
    } else {
        tag
    }
}

/// Whether a tag names a version: its version part starts with a digit.
pub open spec fn spec_versioned(tag: Seq<char>) -> bool {
    let v = spec_version(tag);
    v.len() > 0 && '0' <= v[0] && v[0] <= '9'
}

/// The version of a release: its tag without the leading `v`.
pub fn version_of(tag: &str) -> (v: String)
    ensures
        v@ == spec_version(tag@),
{
    let chars = chars_of(tag);
    if chars.len() > 0 && chars[0] == 'v' {
        let v = string_of_range(&chars, 1, chars.len());
        assert(v@ =~= spec_version(tag@));
        v
    } else {
        let v = string_of_range(&chars, 0, chars.len());
        assert(v@ =~= spec_version(tag@));
        v
    }
}

/// Whether a release tag names a version.
pub fn is_versioned(tag: &str) -> (b: bool)
    ensures
        b == spec_versioned(tag@),
{
    let chars = chars_of(tag);
    let start: usize = if chars.len() > 0 && chars[0] == 'v' { 1 } else { 0 };
    assert(spec_version(tag@) =~= chars@.subrange(start as int, chars@.len() as int));
    start < chars.len() && '0' <= chars[start] && chars[start] <= '9'
}

/// Whether `other` is a strictly greater semantic version than `current`; `None` when
/// either of them is not a semantic version.
pub uninterp spec fn semver_greater(current: Seq<char>, other: Seq<char>) -> Option<bool>;

/// Compares two version strings by `self_update::version::bump_is_greater`, which parses
/// both as semantic versions and tells whether `other` is greater. The contract names the
/// result: it depends on the two strings alone; a parse failure gives `None`. It also
/// says that a version is never greater than itself: the same text parses to the same
/// version, and semver's ordering is strict.
#[verifier::external_body]
fn bump_is_greater(current: &str, other: &str) -> (r: Option<bool>)
    ensures
        r == semver_greater(current@, other@),
        current@ == other@ ==> r != Some(true),
{
    self_update::version::bump_is_greater(current, other).ok()
}

/// Whether a release is an upgrade over `current`: a versioned, final release whose
/// version is greater. An unreadable version counts as no upgrade.
pub open spec fn spec_is_upgrade(current: Seq<char>, r: Release) -> bool {
    &&& spec_versioned(r.tag_name@)
    &&& !r.prerelease
    &&& semver_greater(current, spec_version(r.tag_name@)) == Some(true)
}

/// Whether a release is an upgrade over the running version. A release of the running
/// version is never an upgrade.
pub fn is_upgrade(current: &str, release: &Release) -> (b: bool)
    ensures
        b == spec_is_upgrade(current@, *release),
        spec_version(release.tag_name@) == current@ ==> !b,
{
    if !is_versioned(release.tag_name.as_str()) || release.prerelease {
        return false;
    }
    let version = version_of(release.tag_name.as_str());
    match bump_is_greater(current, version.as_str()) {
        Some(greater) => greater,
        None => false,
    }
}

/// The asset names a build can install, in order of preference.
pub open spec fn spec_candidates(build: Build) -> Seq<Seq<char>> {
    let platform = spec_platform_name(build.platform);
    seq![
        "bcc_"@ + platform + ".zip"@,
        "bcc_gui_"@ + build.version@ + "="@ + build.core_version@ + "_"@ + platform + ".zip"@,
    ]
}

/// The asset names a build can install, in order of preference.
pub fn asset_candidates(build: &Build) -> (v: Vec<String>)
    ensures
        v@.map_values(|s: String| s@) == spec_candidates(*build),
{
    let platform = platform_name(build.platform);
    let mut short = String::new();
    push_str(&mut short, "bcc_");
    push_str(&mut short, platform);
    push_str(&mut short, ".zip");
    let mut long = String::new();
    push_str(&mut long, "bcc_gui_");
    push_str(&mut long, build.version.as_str());
    push_str(&mut long, "=");
    push_str(&mut long, build.core_version.as_str());
    push_str(&mut long, "_");
    push_str(&mut long, platform);
    push_str(&mut long, ".zip");
    let mut v = Vec::new();
    v.push(short);
    v.push(long);
    assert(v@.map_values(|s: String| s@) =~= spec_candidates(*build));
    v
}

/// The first of `candidates` that `assets` contains.
pub open spec fn spec_matching(candidates: Seq<Seq<char>>, assets: Seq<Seq<char>>) -> Option<Seq<char>>
    decreases candidates.len(),
{
    if candidates.len() == 0 {
        None
    } else if assets.contains(candidates[0]) {
        Some(candidates[0])
    } else {
        spec_matching(candidates.drop_first(), assets)
    }
}

/// The names of a list of strings.
pub open spec fn texts(v: Seq<String>) -> Seq<Seq<char>> {
    v.map_values(|s: String| s@)
}

fn has_asset(assets: &Vec<String>, name: &String) -> (b: bool)
    ensures
        b == texts(assets@).contains(name@),
{
    let mut i: usize = 0;
    while i < assets.len()
        invariant
            i <= assets@.len(),
            forall|j: int| 0 <= j < i ==> texts(assets@)[j] != name@,
        decreases assets.len() - i,
    {
        if assets[i] == *name {
            assert(texts(assets@)[i as int] == name@);
            return true;
        }
        i = i + 1;
    }
    false
}

/// The first candidate asset that a release ships.
pub fn matching_asset(release: &Release, candidates: &Vec<String>) -> (r: Option<String>)
    ensures
        r matches Some(a) ==> spec_matching(texts(candidates@), texts(release.assets@)) == Some(a@),
        r is None ==> spec_matching(texts(candidates@), texts(release.assets@)) is None,
{
    let ghost cs = texts(candidates@);
    let mut i: usize = 0;
    assert(cs.skip(0) =~= cs);
    while i < candidates.len()
        invariant
            i <= candidates@.len(),
            cs == texts(candidates@),
            spec_matching(cs, texts(release.assets@)) == spec_matching(cs.skip(i as int), texts(release.assets@)),
        decreases candidates.len() - i,
    {
        assert(cs.skip(i as int)[0] == candidates@[i as int]@);
        if has_asset(&release.assets, &candidates[i]) {
            return Some(candidates[i].clone());
        }
        assert(cs.skip(i as int).drop_first() =~= cs.skip(i + 1));
        i = i + 1;
    }
    None
}

/// The position of the first release at or after `i` that is an upgrade, or the length.
pub open spec fn first_upgrade(rs: Seq<Release>, current: Seq<char>, i: int) -> int
    decreases rs.len() - i,
{
    if i >= rs.len() {
        rs.len() as int
    } else if spec_is_upgrade(current, rs[i]) {
        i
    } else {
        first_upgrade(rs, current, i + 1)
    }
}

/// The position of the first release at or after `i` that is an upgrade and ships an
/// asset this build can install, or the length.
pub open spec fn first_installable(rs: Seq<Release>, current: Seq<char>, cands: Seq<Seq<char>>, i: int) -> int
    decreases rs.len() - i,
{
    if i >= rs.len() {
        rs.len() as int
    } else if spec_is_upgrade(current, rs[i]) && spec_matching(cands, texts(rs[i].assets@)) is Some {
        i
    } else {
        first_installable(rs, current, cands, i + 1)
    }
}

proof fn lemma_first_upgrade_bounds(rs: Seq<Release>, current: Seq<char>, i: int)
    requires
        0 <= i <= rs.len(),
    ensures
        i <= first_upgrade(rs, current, i) <= rs.len(),
        first_upgrade(rs, current, i) < rs.len() ==> spec_is_upgrade(current, rs[first_upgrade(rs, current, i)]),
        forall|j: int| i <= j < first_upgrade(rs, current, i) ==> !spec_is_upgrade(current, #[trigger] rs[j]),
    decreases rs.len() - i,
{
    if i < rs.len() && !spec_is_upgrade(current, rs[i]) {
        lemma_first_upgrade_bounds(rs, current, i + 1);
    }
}

proof fn lemma_first_installable_bounds(rs: Seq<Release>, current: Seq<char>, cands: Seq<Seq<char>>, i: int)
    requires
        0 <= i <= rs.len(),
    ensures
        i <= first_installable(rs, current, cands, i) <= rs.len(),
        first_installable(rs, current, cands, i) < rs.len() ==> spec_is_upgrade(current, rs[first_installable(rs, current, cands, i)])
            && spec_matching(cands, texts(rs[first_installable(rs, current, cands, i)].assets@)) is Some,
        forall|j: int| i <= j < first_installable(rs, current, cands, i)
            ==> !(spec_is_upgrade(current, #[trigger] rs[j]) && spec_matching(cands, texts(rs[j].assets@)) is Some),
    decreases rs.len() - i,
{
    if i < rs.len() && !(spec_is_upgrade(current, rs[i]) && spec_matching(cands, texts(rs[i].assets@)) is Some) {
        lemma_first_installable_bounds(rs, current, cands, i + 1);
    }
}

/// The log detail when no upgrade ships an asset this build can install.
pub open spec fn stranded_detail(tag: Seq<char>, current: Seq<char>) -> Seq<char> {
    tag + " is newer than v"@ + current + ", but no release above it ships an asset this build can install"@
}

/// What picking reads from the list: the latest version reported is that of the first
/// upgrade in the list, and the release installed is the first upgrade that ships an
/// asset this build can install; no release before either is what it was taken for.
/// So there is no upgrade at all exactly when the first upgrade is past the end.
pub proof fn law_picks_the_first_upgrades(releases: Seq<Release>, build: Build)
    ensures
        ({
            let cur = build.version@;
            let cands = spec_candidates(build);
            let l = first_upgrade(releases, cur, 0);
            let k = first_installable(releases, cur, cands, 0);
            &&& 0 <= l <= k <= releases.len()
            &&& l < releases.len() ==> spec_is_upgrade(cur, releases[l])
            &&& forall|j: int| 0 <= j < l ==> !spec_is_upgrade(cur, #[trigger] releases[j])
            &&& k < releases.len() ==> spec_is_upgrade(cur, releases[k])
                && spec_matching(cands, texts(releases[k].assets@)) is Some
            &&& forall|j: int| 0 <= j < k
                ==> !(spec_is_upgrade(cur, #[trigger] releases[j]) && spec_matching(cands, texts(releases[j].assets@)) is Some)
        }),
{
    let cur = build.version@;
    let cands = spec_candidates(build);
    lemma_first_upgrade_bounds(releases, cur, 0);
    lemma_first_installable_bounds(releases, cur, cands, 0);
    let l = first_upgrade(releases, cur, 0);
    let k = first_installable(releases, cur, cands, 0);
    if k < l {
        assert(!spec_is_upgrade(cur, releases[k]));
    }
}

/// The short asset name of each platform, as the published releases spell it.
pub open spec fn published_asset(p: Platform) -> Seq<char> {
    match p {
        Platform::Windows => "bcc_windows.zip"@,
        Platform::Mac => "bcc_mac.zip"@,
        Platform::Linux => "bcc_linux.zip"@,
    }
}

/// A build looks first for the asset the releases publish for its platform
/// (`bcc_windows.zip`, `bcc_mac.zip` or `bcc_linux.zip`); so when the newest upgrade in
/// the list ships that asset, picking installs exactly that release and asset.
pub proof fn law_builds_find_their_published_asset(releases: Seq<Release>, build: Build, r: Result<Option<UpdateTarget>, CheckError>)
    requires
        spec_selected(releases, build, r),
    ensures
        spec_candidates(build)[0] == published_asset(build.platform),
        ({
            let l = first_upgrade(releases, build.version@, 0);
            l < releases.len() && texts(releases[l].assets@).contains(published_asset(build.platform)) ==> (
                r matches Ok(Some(t)) && t.asset@ == published_asset(build.platform)
                    && t.tag@ == releases[l].tag_name@ && t.version@ == spec_version(releases[l].tag_name@))
        }),
{
    reveal_strlit("bcc_");
    reveal_strlit(".zip");
    reveal_strlit("windows");
    reveal_strlit("mac");
    reveal_strlit("linux");
    reveal_strlit("bcc_windows.zip");
    reveal_strlit("bcc_mac.zip");
    reveal_strlit("bcc_linux.zip");
    let name = published_asset(build.platform);
    assert(spec_candidates(build)[0] =~= name);
    let cur = build.version@;
    let cands = spec_candidates(build);
    let l = first_upgrade(releases, cur, 0);
    lemma_first_upgrade_bounds(releases, cur, 0);
    lemma_first_installable_bounds(releases, cur, cands, 0);
    law_picks_the_first_upgrades(releases, build);
    if l < releases.len() && texts(releases[l].assets@).contains(name) {
        assert(spec_matching(cands, texts(releases[l].assets@)) == Some(name));
        let k = first_installable(releases, cur, cands, 0);
        assert(k == l);
    }
}

/// Whether `r` is what picking from `releases` gives: see [`select_target`].
pub open spec fn spec_selected(releases: Seq<Release>, build: Build, r: Result<Option<UpdateTarget>, CheckError>) -> bool {
    let rs = releases;
    let cur = build.version@;
    let cands = spec_candidates(build);
    let l = first_upgrade(rs, cur, 0);
    let k = first_installable(rs, cur, cands, 0);
    if l == rs.len() {
        r matches Ok(None)
    } else if k == rs.len() {
        r matches Err(e) && e.reason == CheckFailure::Unknown && e.detail@ == stranded_detail(rs[l].tag_name@, cur)
    } else {
        r matches Ok(Some(t)) && t.latest@ == spec_version(rs[l].tag_name@) && t.version@ == spec_version(rs[k].tag_name@)
            && t.tag@ == rs[k].tag_name@ && Some(t.asset@) == spec_matching(cands, texts(rs[k].assets@))
    }
}

/// Picks the release to install from a list of releases, newest first. The newest
/// upgrade is reported as the latest version; the release installed is the newest
/// upgrade that ships an asset this build understands, so that a renamed asset on the
/// newest release does not strand older builds. Releases that are not upgrades (older
/// or equal versions, pre-releases, unversioned tags) are never picked. No upgrade at
/// all gives `Ok(None)`; upgrades none of which can be installed give an error.
pub fn select_target(releases: &Vec<Release>, build: &Build) -> (r: Result<Option<UpdateTarget>, CheckError>)
    ensures
        spec_selected(releases@, *build, r),
{
    let ghost rs = releases@;
    let ghost cur = build.version@;
    let candidates = asset_candidates(build);
    let ghost cands = texts(candidates@);
    assert(cands == spec_candidates(*build));
    let current = build.version.as_str();
    let mut i: usize = 0;
    while i < releases.len() && !is_upgrade(current, &releases[i])
        invariant
            i <= rs.len(),
            rs == releases@,
            cur == current@,
            first_upgrade(rs, cur, 0) == first_upgrade(rs, cur, i as int),
        decreases releases.len() - i,
    {
        i = i + 1;
    }
    if i == releases.len() {
        return Ok(None);
    }
    let latest = i;
    assert(first_upgrade(rs, cur, 0) == latest);
    let mut j: usize = 0;
    while j < latest
        invariant
            j <= latest,
            latest < rs.len(),
            rs == releases@,
            cur == current@,
            first_upgrade(rs, cur, 0) == latest,
            first_installable(rs, cur, cands, 0) == first_installable(rs, cur, cands, j as int),
        decreases latest - j,
    {
        proof { lemma_not_upgrade_before(rs, cur, j as int, latest as int); }
        j = j + 1;
    }
    let mut k: usize = latest;
    while k < releases.len()
        invariant
            latest <= k <= rs.len(),
            latest < rs.len(),
            rs == releases@,
            cur == current@,
            cur == build.version@,
            cands == texts(candidates@),
            cands == spec_candidates(*build),
            first_upgrade(rs, cur, 0) == latest,
            first_installable(rs, cur, cands, 0) == first_installable(rs, cur, cands, k as int),
        decreases releases.len() - k,
    {
        if is_upgrade(current, &releases[k]) {
            match matching_asset(&releases[k], &candidates) {
                Some(asset) => {
                    assert(first_installable(rs, cur, cands, k as int) == k);
                    return Ok(Some(UpdateTarget {
                        latest: version_of(releases[latest].tag_name.as_str()),
                        version: version_of(releases[k].tag_name.as_str()),
                        tag: releases[k].tag_name.clone(),
                        asset,
                    }));
                },
                None => {},
            }
        }
        k = k + 1;
    }
    let mut detail = String::new();
    push_str(&mut detail, releases[latest].tag_name.as_str());
    push_str(&mut detail, " is newer than v");
    push_str(&mut detail, current);
    push_str(&mut detail, ", but no release above it ships an asset this build can install");
    assert(detail@ =~= stranded_detail(rs[latest as int].tag_name@, cur));
    Err(CheckError { reason: CheckFailure::Unknown, detail })
}

proof fn lemma_not_upgrade_before(rs: Seq<Release>, cur: Seq<char>, j: int, latest: int)
    requires
        0 <= j < latest < rs.len(),
        first_upgrade(rs, cur, 0) == latest,
    ensures
        !spec_is_upgrade(cur, rs[j]),
    decreases latest - j,
{
    lemma_first_upgrade_skips(rs, cur, 0, j);
}

proof fn lemma_first_upgrade_skips(rs: Seq<Release>, cur: Seq<char>, i: int, j: int)
    requires
        0 <= i <= j < first_upgrade(rs, cur, i),
        first_upgrade(rs, cur, i) <= rs.len(),
    ensures
        !spec_is_upgrade(cur, rs[j]),
    decreases j - i,
{
    if i < j {
        lemma_first_upgrade_skips(rs, cur, i + 1, j);
    }
}


/// Where an update check or install stands.
#[derive(Debug, Clone)]
pub enum UpdateStatus {
    Idle,
    Checking,
    UpdateFound(UpdateTarget),
    Downloading(String),
    RestartPending(String),
    CheckFailed(CheckFailure),
    UpToDate,
}

/// News from the worker that checks for, or installs, an update.
#[derive(Debug, Clone)]
pub enum UpdaterMsg {
    UpdateFound(UpdateTarget),
    UpToDate,
    CheckFailed(CheckFailure),
    DownloadStarted(String),
    DownloadFinished(String),
    SilentFail,
}

/// What the user chose in the update prompt.
#[derive(Debug, Clone)]
pub enum UpdaterAction {
    StartDownload(UpdateTarget),
    DismissUpdate,
    NeverUpdate,
    NeverExpired,
    RestartApp,
}

/// What the worker reports at the end of a check: a found update always; that the build
/// is current, or why the check failed, only to a check the user asked for; otherwise
/// it fails silently.
pub open spec fn spec_check_outcome(result: Result<Option<UpdateTarget>, CheckFailure>, is_manual: bool) -> UpdaterMsg {
    match result {
        Ok(Some(target)) => UpdaterMsg::UpdateFound(target),
        Ok(None) => if is_manual { UpdaterMsg::UpToDate } else { UpdaterMsg::SilentFail },
        Err(reason) => if is_manual { UpdaterMsg::CheckFailed(reason) } else { UpdaterMsg::SilentFail },
    }
}

/// The message the worker sends at the end of a check.
pub fn check_outcome(result: Result<Option<UpdateTarget>, CheckFailure>, is_manual: bool) -> (m: UpdaterMsg)
    ensures
        m == spec_check_outcome(result, is_manual),
{
    match result {
        Ok(Some(target)) => UpdaterMsg::UpdateFound(target),
        Ok(None) => if is_manual { UpdaterMsg::UpToDate } else { UpdaterMsg::SilentFail },
        Err(reason) => if is_manual { UpdaterMsg::CheckFailed(reason) } else { UpdaterMsg::SilentFail },
    }
}

/// A version as shown to the user: with a leading `v`.
pub open spec fn spec_display_version(tag: Seq<char>) -> Seq<char> {
    if tag.len() > 0 && tag[0] == 'v' {
        tag
    } else {
        seq!['v'] + tag
    }
}

/// A version as shown to the user, with a leading `v`.
pub fn display_version(tag: &str) -> (s: String)
    ensures
        s@ == spec_display_version(tag@),
{
    let chars = chars_of(tag);
    let mut s = String::new();
    if !(chars.len() > 0 && chars[0] == 'v') {
        push_char(&mut s, 'v');
    }
    push_str(&mut s, tag);
    assert(s@ =~= spec_display_version(tag@));
    s
}

/// The note shown when the build must step through an older release first.
pub open spec fn spec_stepping_note(target: UpdateTarget) -> Option<Seq<char>> {
    if target.version@ == target.latest@ {
        None
    } else {
        Some(spec_display_version(target.latest@) + " is out, but this build has to install "@
            + spec_display_version(target.version@) + " first"@)
    }
}

/// The note shown when the build must step through an older release first.
pub fn stepping_note(target: &UpdateTarget) -> (r: Option<String>)
    ensures
        r matches Some(s) ==> spec_stepping_note(*target) == Some(s@),
        r is None ==> spec_stepping_note(*target) is None,
{
    if same_text(target.version.as_str(), target.latest.as_str()) {
        return None;
    }
    let mut s = display_version(target.latest.as_str());
    push_str(&mut s, " is out, but this build has to install ");
    let step = display_version(target.version.as_str());
    push_str(&mut s, step.as_str());
    push_str(&mut s, " first");
    Some(s)
}

/// The title of the update prompt for a status; the prompt is shown only while an
/// update is offered, downloading, or waiting for a restart.
pub open spec fn spec_prompt_title(status: UpdateStatus) -> Option<Seq<char>> {
    match status {
        UpdateStatus::UpdateFound(_) => Some("Update Available"@),
        UpdateStatus::Downloading(_) => Some("Downloading Update"@),
        UpdateStatus::RestartPending(_) => Some("Update Complete"@),
        _ => None,
    }
}

/// The title of the update prompt, if it is shown.
pub fn prompt_title(status: &UpdateStatus) -> (r: Option<&'static str>)
    ensures
        r matches Some(t) ==> spec_prompt_title(*status) == Some(t@),
        r is None ==> spec_prompt_title(*status) is None,
{
    match status {
        UpdateStatus::UpdateFound(_) => Some("Update Available"),
        UpdateStatus::Downloading(_) => Some("Downloading Update"),
        UpdateStatus::RestartPending(_) => Some("Update Complete"),
        _ => None,
    }
}

/// Whether a new check may start: not while one runs, an update is offered, or one is
/// being installed.
pub open spec fn spec_may_check(status: UpdateStatus) -> bool {
    status matches UpdateStatus::Idle || status matches UpdateStatus::UpToDate || status matches UpdateStatus::CheckFailed(_)
}

/// What the application must do after the updater handled an event.
#[derive(Debug, Clone, PartialEq, Eq)]
pub enum UpdaterEffect {
    Nothing,
    /// Clear the transient status after a short delay.
    ScheduleExpiry,
    /// Download and install the given release.
    Install,
    /// Arm the "Never" button's confirmation, which expires after a short delay.
    ArmNever,
    /// Stop checking for updates from now on.
    StopChecking,
    /// Restart into the installed version.
    Restart,
}

/// A press of "Never": the first only arms it; a press while armed turns update checks
/// off, returns to idle and closes the prompt.
pub open spec fn spec_press_never(u: Updater) -> (Updater, UpdaterEffect) {
    if u.never_armed {
        (Updater { status: UpdateStatus::Idle, popup_open: false, never_armed: false }, UpdaterEffect::StopChecking)
    } else {
        (Updater { never_armed: true, ..u }, UpdaterEffect::ArmNever)
    }
}

/// The update prompt: the status, whether the prompt is open, and whether the "Never"
/// button waits for its confirming second press.
#[derive(Debug, Clone)]
pub struct Updater {
    pub status: UpdateStatus,
    pub popup_open: bool,
    pub never_armed: bool,
}

impl Updater {
    /// An idle updater with the prompt closed.
    pub fn new() -> (u: Updater)
        ensures
            u.status matches UpdateStatus::Idle,
            !u.popup_open,
            !u.never_armed,
    {
        Updater { status: UpdateStatus::Idle, popup_open: false, never_armed: false }
    }

    /// Starts a check if one may start; returns whether it did.
    pub fn begin_check(&mut self) -> (started: bool)
        ensures
            started == spec_may_check(old(self).status),
            started ==> final(self).status matches UpdateStatus::Checking,
            !started ==> *final(self) == *old(self),
            final(self).popup_open == old(self).popup_open,
            final(self).never_armed == old(self).never_armed,
    {
        let may = match self.status {
            UpdateStatus::Idle | UpdateStatus::UpToDate | UpdateStatus::CheckFailed(_) => true,
            _ => false,
        };
        if may {
            self.status = UpdateStatus::Checking;
        }
        may
    }

    /// Handles news from the worker. A found update, a started download and a finished
    /// install each open the prompt; "up to date" and a failure are shown briefly; a
    /// silent failure returns to idle and closes the prompt.
    pub fn receive(&mut self, msg: UpdaterMsg) -> (effect: UpdaterEffect)
        ensures
            final(self).never_armed == old(self).never_armed,
            match msg {
                UpdaterMsg::UpdateFound(t) => final(self).status == UpdateStatus::UpdateFound(t) && final(self).popup_open && effect == UpdaterEffect::Nothing,
                UpdaterMsg::UpToDate => final(self).status == UpdateStatus::UpToDate && final(self).popup_open == old(self).popup_open && effect == UpdaterEffect::ScheduleExpiry,
                UpdaterMsg::CheckFailed(r) => final(self).status == UpdateStatus::CheckFailed(r) && final(self).popup_open == old(self).popup_open && effect == UpdaterEffect::ScheduleExpiry,
                UpdaterMsg::DownloadStarted(v) => final(self).status == UpdateStatus::Downloading(v) && final(self).popup_open && effect == UpdaterEffect::Nothing,
                UpdaterMsg::DownloadFinished(v) => final(self).status == UpdateStatus::RestartPending(v) && final(self).popup_open && effect == UpdaterEffect::Nothing,
                UpdaterMsg::SilentFail => final(self).status matches UpdateStatus::Idle && !final(self).popup_open && effect == UpdaterEffect::Nothing,
            },
    {
        match msg {
            UpdaterMsg::UpdateFound(target) => {
                self.status = UpdateStatus::UpdateFound(target);
                self.popup_open = true;
                UpdaterEffect::Nothing
            },
            UpdaterMsg::UpToDate => {
                self.status = UpdateStatus::UpToDate;
                UpdaterEffect::ScheduleExpiry
            },
            UpdaterMsg::CheckFailed(reason) => {
                self.status = UpdateStatus::CheckFailed(reason);
                UpdaterEffect::ScheduleExpiry
            },
            UpdaterMsg::DownloadStarted(version) => {
                self.status = UpdateStatus::Downloading(version);
                self.popup_open = true;
                UpdaterEffect::Nothing
            },
            UpdaterMsg::DownloadFinished(version) => {
                self.status = UpdateStatus::RestartPending(version);
                self.popup_open = true;
                UpdaterEffect::Nothing
            },
            UpdaterMsg::SilentFail => {
                self.status = UpdateStatus::Idle;
                self.popup_open = false;
                UpdaterEffect::Nothing
            },
        }
    }

    /// The transient status ran out: "up to date" and a failure return to idle.
    pub fn expire_status(&mut self)
        ensures
            final(self).popup_open == old(self).popup_open,
            final(self).never_armed == old(self).never_armed,
            if old(self).status matches UpdateStatus::UpToDate || old(self).status matches UpdateStatus::CheckFailed(_) {
                final(self).status matches UpdateStatus::Idle
            } else {
                final(self).status == old(self).status
            },
    {
        match self.status {
            UpdateStatus::UpToDate | UpdateStatus::CheckFailed(_) => {
                self.status = UpdateStatus::Idle;
            },
            _ => {},
        }
    }

    /// Closes the prompt; unless an install is running, the offer is dropped too.
    pub fn dismiss(&mut self)
        ensures
            !final(self).popup_open,
            final(self).never_armed == old(self).never_armed,
            if old(self).status matches UpdateStatus::Downloading(_) {
                final(self).status == old(self).status
            } else {
                final(self).status matches UpdateStatus::Idle
            },
    {
        match self.status {
            UpdateStatus::Downloading(_) => {},
            _ => {
                self.status = UpdateStatus::Idle;
            },
        }
        self.popup_open = false;
    }

    /// Handles the user's choice. Starting the download shows its progress; declining
    /// closes the prompt and disarms "Never"; the first press of "Never" only arms it, the
    /// second (while armed) turns update checks off and closes the prompt.
    pub fn act(&mut self, action: UpdaterAction) -> (effect: UpdaterEffect)
        ensures
            match action {
                UpdaterAction::StartDownload(t) => final(self).status == UpdateStatus::Downloading(t.version)
                    && final(self).popup_open && final(self).never_armed == old(self).never_armed && effect == UpdaterEffect::Install,
                UpdaterAction::DismissUpdate => !final(self).popup_open && !final(self).never_armed
                    && effect == UpdaterEffect::Nothing
                    && (if old(self).status matches UpdateStatus::Downloading(_) { final(self).status == old(self).status } else { final(self).status matches UpdateStatus::Idle }),
                UpdaterAction::NeverExpired => final(self).status == old(self).status && final(self).popup_open == old(self).popup_open
                    && !final(self).never_armed && effect == UpdaterEffect::Nothing,
                UpdaterAction::NeverUpdate => (*final(self), effect) == spec_press_never(*old(self)),
                UpdaterAction::RestartApp => *final(self) == *old(self) && effect == UpdaterEffect::Restart,
            },
    {
        match action {
            UpdaterAction::StartDownload(target) => {
                self.status = UpdateStatus::Downloading(target.version);
                self.popup_open = true;
                UpdaterEffect::Install
            },
            UpdaterAction::DismissUpdate => {
                self.never_armed = false;
                self.dismiss();
                UpdaterEffect::Nothing
            },
            UpdaterAction::NeverExpired => {
                self.never_armed = false;
                UpdaterEffect::Nothing
            },
            UpdaterAction::NeverUpdate => {
                if !self.never_armed {
                    self.never_armed = true;
                    return UpdaterEffect::ArmNever;
                }
                self.never_armed = false;
                self.status = UpdateStatus::Idle;
                self.popup_open = false;
                UpdaterEffect::StopChecking
            },
            UpdaterAction::RestartApp => UpdaterEffect::Restart,
        }
    }
}

/// Turning update checks off takes two presses of "Never": the first only arms it, the
/// second turns checks off; when the confirmation expires in between, it takes two again.
pub proof fn law_never_needs_two_presses(u: Updater)
    requires
        !u.never_armed,
    ensures
        spec_press_never(u).1 == UpdaterEffect::ArmNever,
        spec_press_never(u).0.status == u.status,
        spec_press_never(spec_press_never(u).0).1 == UpdaterEffect::StopChecking,
        spec_press_never(Updater { never_armed: false, ..spec_press_never(u).0 }).1 == UpdaterEffect::ArmNever,
{
}

/// A failed request to the release host: how it failed, and the host's words.
#[derive(Debug, Clone)]
pub struct HostError {
    pub kind: HostErrorKind,
    pub detail: String,
}

/// The check error reported for a failed request: its reason, and the host's words as
/// the detail.
pub fn check_error(e: HostError) -> (c: CheckError)
    ensures
        c.reason == spec_failure_of(e.kind),
        c.detail@ == e.detail@,
{
    CheckError { reason: failure_of(e.kind), detail: e.detail }
}

/// What the application must ask the release host next, or the result of the check.
#[derive(Debug)]
pub enum CheckStep {
    /// Read the tag of the latest release from the release page.
    LatestTag,
    /// Ask whether release `tag` has a download named `asset`.
    Probe { tag: String, asset: String },
    /// Ask the host's interface for the latest release.
    LatestRelease,
    /// List every release, newest first.
    ListReleases,
    /// The check is over.
    Done(Result<Option<UpdateTarget>, CheckError>),
}

/// The host's answer to the step asked for.
#[derive(Debug)]
pub enum CheckEvent {
    LatestTag(Result<Option<String>, HostError>),
    Probed(Result<bool, HostError>),
    LatestRelease(Result<Option<Release>, HostError>),
    Listed(Result<Vec<Release>, HostError>),
}

/// Which answer a check waits for.
#[derive(Debug, Clone, Copy, PartialEq, Eq, Structural)]
pub enum CheckPhase {
    AwaitTag,
    Probing,
    AwaitRelease,
    AwaitList,
    Over,
}

/// Whether `event` answers the step a check in `phase` asked for.
pub open spec fn spec_answers(phase: CheckPhase, event: CheckEvent) -> bool {
    match event {
        CheckEvent::LatestTag(_) => phase == CheckPhase::AwaitTag,
        CheckEvent::Probed(_) => phase == CheckPhase::Probing,
        CheckEvent::LatestRelease(_) => phase == CheckPhase::AwaitRelease,
        CheckEvent::Listed(_) => phase == CheckPhase::AwaitList,
    }
}

/// Whether a final release with this tag would be an upgrade over `current`.
pub open spec fn spec_tag_is_upgrade(current: Seq<char>, tag: Seq<char>) -> bool {
    spec_versioned(tag) && semver_greater(current, spec_version(tag)) == Some(true)
}

/// A check for updates against the release host. The cheap way is tried first: the
/// latest tag from the release page, then whether that release has a download this
/// build understands. When a request fails, the host's interface is asked for the
/// latest release instead; when the latest release ships nothing this build can
/// install, every release is listed and one is picked as [`select_target`] does.
#[derive(Debug, Clone)]
pub struct RemoteCheck {
    pub build: Build,
    pub phase: CheckPhase,
    /// The latest tag, while its downloads are probed.
    pub tag: String,
    /// The asset names this build can install, in order of preference.
    pub candidates: Vec<String>,
    /// The candidate being probed.
    pub next: usize,
}

impl RemoteCheck {
    /// The check's invariant: the candidates are the build's, and a probe names one.
    pub open spec fn wf(self) -> bool {
        &&& texts(self.candidates@) == spec_candidates(self.build)
        &&& self.phase == CheckPhase::Probing ==> self.next < self.candidates@.len()
    }

    /// Starts a check for `build`: the latest tag is asked for first.
    pub fn start(build: Build) -> (r: (RemoteCheck, CheckStep))
        ensures
            r.0.wf(),
            r.0.build == build,
            r.0.phase == CheckPhase::AwaitTag,
            r.1 matches CheckStep::LatestTag,
    {
        let candidates = asset_candidates(&build);
        assert(texts(candidates@) == candidates@.map_values(|s: String| s@));
        (RemoteCheck { build, phase: CheckPhase::AwaitTag, tag: String::new(), candidates, next: 0 }, CheckStep::LatestTag)
    }

    /// Takes the host's answer and says what to ask next, or gives the result.
    pub fn step(&mut self, event: CheckEvent) -> (next: CheckStep)
        requires
            old(self).wf(),
            spec_answers(old(self).phase, event),
        ensures
            final(self).wf(),
            final(self).build == old(self).build,
            next matches CheckStep::Done(_) <==> final(self).phase == CheckPhase::Over,
            ({
                let cur = old(self).build.version@;
                let cands = spec_candidates(old(self).build);
                match event {
                    CheckEvent::LatestTag(Ok(Some(tag))) => if !spec_tag_is_upgrade(cur, tag@) {
                        next matches CheckStep::Done(Ok(None))
                    } else {
                        next matches CheckStep::Probe { tag: t, asset } && t@ == tag@ && asset@ == cands[0]
                            && final(self).phase == CheckPhase::Probing && final(self).tag@ == tag@ && final(self).next == 0
                    },
                    CheckEvent::LatestTag(Ok(None)) => next matches CheckStep::Done(Ok(None)),
                    CheckEvent::LatestTag(Err(_)) => next matches CheckStep::LatestRelease
                        && final(self).phase == CheckPhase::AwaitRelease,
                    CheckEvent::Probed(Ok(true)) => next matches CheckStep::Done(Ok(Some(t)))
                        && t.tag@ == old(self).tag@ && t.latest@ == spec_version(old(self).tag@)
                        && t.version@ == spec_version(old(self).tag@) && t.asset@ == cands[old(self).next as int],
                    CheckEvent::Probed(Ok(false)) => if old(self).next + 1 < cands.len() {
                        next matches CheckStep::Probe { tag: t, asset } && t@ == old(self).tag@
                            && asset@ == cands[old(self).next + 1] && final(self).phase == CheckPhase::Probing
                            && final(self).next == old(self).next + 1 && final(self).tag@ == old(self).tag@
                    } else {
                        next matches CheckStep::ListReleases && final(self).phase == CheckPhase::AwaitList
                    },
                    CheckEvent::Probed(Err(_)) => next matches CheckStep::LatestRelease
                        && final(self).phase == CheckPhase::AwaitRelease,
                    CheckEvent::LatestRelease(Ok(Some(latest))) => if !spec_is_upgrade(cur, latest) {
                        next matches CheckStep::Done(Ok(None))
                    } else {
                        match spec_matching(cands, texts(latest.assets@)) {
                            Some(a) => next matches CheckStep::Done(Ok(Some(t))) && t.tag@ == latest.tag_name@
                                && t.latest@ == spec_version(latest.tag_name@) && t.version@ == spec_version(latest.tag_name@)
                                && t.asset@ == a,
                            None => next matches CheckStep::ListReleases && final(self).phase == CheckPhase::AwaitList,
                        }
                    },
                    CheckEvent::LatestRelease(Ok(None)) => next matches CheckStep::ListReleases
                        && final(self).phase == CheckPhase::AwaitList,
                    CheckEvent::LatestRelease(Err(e)) => next matches CheckStep::Done(Err(c))
                        && c.reason == spec_failure_of(e.kind) && c.detail@ == e.detail@,
                    CheckEvent::Listed(Ok(rs)) => next matches CheckStep::Done(r) && spec_selected(rs@, old(self).build, r),
                    CheckEvent::Listed(Err(e)) => next matches CheckStep::Done(Err(c))
                        && c.reason == spec_failure_of(e.kind) && c.detail@ == e.detail@,
                }
            }),
    {
        match event {
            CheckEvent::LatestTag(Ok(Some(tag))) => {
                let latest = Release { tag_name: tag, prerelease: false, assets: Vec::new() };
                if !is_upgrade(self.build.version.as_str(), &latest) {
                    self.phase = CheckPhase::Over;
                    return CheckStep::Done(Ok(None));
                }
                let asset = self.candidates[0].clone();
                self.tag = latest.tag_name.clone();
                self.next = 0;
                self.phase = CheckPhase::Probing;
                CheckStep::Probe { tag: latest.tag_name, asset }
            },
            CheckEvent::LatestTag(Ok(None)) => {
                self.phase = CheckPhase::Over;
                CheckStep::Done(Ok(None))
            },
            CheckEvent::LatestTag(Err(_)) | CheckEvent::Probed(Err(_)) => {
                self.phase = CheckPhase::AwaitRelease;
                CheckStep::LatestRelease
            },
            CheckEvent::Probed(Ok(true)) => {
                self.phase = CheckPhase::Over;
                let target = UpdateTarget {
                    latest: version_of(self.tag.as_str()),
                    version: version_of(self.tag.as_str()),
                    tag: self.tag.clone(),
                    asset: self.candidates[self.next].clone(),
                };
                CheckStep::Done(Ok(Some(target)))
            },
            CheckEvent::Probed(Ok(false)) => {
                if self.next + 1 < self.candidates.len() {
                    self.next = self.next + 1;
                    let asset = self.candidates[self.next].clone();
                    CheckStep::Probe { tag: self.tag.clone(), asset }
                } else {
                    self.phase = CheckPhase::AwaitList;
                    CheckStep::ListReleases
                }
            },
            CheckEvent::LatestRelease(Ok(Some(latest))) => {
                if !is_upgrade(self.build.version.as_str(), &latest) {
                    self.phase = CheckPhase::Over;
                    return CheckStep::Done(Ok(None));
                }
                match matching_asset(&latest, &self.candidates) {
                    Some(asset) => {
                        self.phase = CheckPhase::Over;
                        let target = UpdateTarget {
                            latest: version_of(latest.tag_name.as_str()),
                            version: version_of(latest.tag_name.as_str()),
                            tag: latest.tag_name,
                            asset,
                        };
                        CheckStep::Done(Ok(Some(target)))
                    },
                    None => {
                        self.phase = CheckPhase::AwaitList;
                        CheckStep::ListReleases
                    },
                }
            },
            CheckEvent::LatestRelease(Ok(None)) => {
                self.phase = CheckPhase::AwaitList;
                CheckStep::ListReleases
            },
            CheckEvent::LatestRelease(Err(e)) | CheckEvent::Listed(Err(e)) => {
                self.phase = CheckPhase::Over;
                CheckStep::Done(Err(check_error(e)))
            },
            CheckEvent::Listed(Ok(releases)) => {
                self.phase = CheckPhase::Over;
                CheckStep::Done(select_target(&releases, &self.build))
            },
        }
    }
}

} // verus!

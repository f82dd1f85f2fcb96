use battle_cats_complete::updater::{
    check_error, CheckEvent, CheckPhase, CheckStep, HostError, RemoteCheck,
    check_outcome, display_version, failure_of, is_upgrade, platform_name, prompt_title, select_target,
    stepping_note, Build, CheckFailure, HostErrorKind, Platform, Release, UpdateStatus, UpdateTarget, Updater,
    UpdaterAction, UpdaterEffect, UpdaterMsg,
};

fn release(tag: &str, assets: &[&str]) -> Release {
    Release {
        tag_name: tag.to_string(),
        prerelease: false,
        assets: assets.iter().map(|name| name.to_string()).collect(),
    }
}

fn build(version: &str) -> Build {
    Build { version: version.to_string(), core_version: "1.0.0".to_string(), platform: Platform::Linux }
}

fn known_asset() -> String {
    format!("bcc_{}.zip", platform_name(Platform::Linux))
}

#[test]
fn picks_the_newest_installable_release() {
    let asset = known_asset();
    let releases = vec![release("v3.0.0", &[&asset]), release("v2.9.0", &[&asset])];

    let target = select_target(&releases, &build("2.8.0")).unwrap().unwrap();

    assert_eq!(target.tag, "v3.0.0");
    assert_eq!(target.latest, "3.0.0");
    assert_eq!(target.asset, asset);
}

#[test]
fn steps_back_to_the_last_release_this_build_understands() {
    let asset = known_asset();
    let releases = vec![
        release("v3.0.0", &["bcc-3.0.0-x86_64.tar.zst"]),
        release("v2.9.1", &["bcc-2.9.1-x86_64.tar.zst"]),
        release("v2.9.0", &[&asset]),
        release("v2.7.0", &[&asset]),
    ];

    let target = select_target(&releases, &build("2.8.0")).unwrap().unwrap();

    assert_eq!(target.tag, "v2.9.0");
    assert_eq!(target.latest, "3.0.0");
}

#[test]
fn never_walks_back_past_the_running_version() {
    let releases = vec![
        release("v3.0.0", &["bcc-3.0.0-x86_64.tar.zst"]),
        release("v2.7.0", &[&known_asset()]),
    ];

    assert!(select_target(&releases, &build("2.8.0")).is_err());
}

#[test]
fn ignores_prereleases_and_unversioned_tags() {
    let asset = known_asset();
    let mut beta = release("v3.0.0", &[&asset]);
    beta.prerelease = true;
    let releases = vec![beta, release("tools", &[&asset]), release("v2.9.0", &[&asset])];

    let target = select_target(&releases, &build("2.8.0")).unwrap().unwrap();

    assert_eq!(target.tag, "v2.9.0");
}

#[test]
fn reports_nothing_when_already_current() {
    let releases = vec![release("v2.8.0", &[&known_asset()])];

    assert!(select_target(&releases, &build("2.8.0")).unwrap().is_none());
}

#[test]
fn the_full_asset_name_is_understood_too() {
    let releases = vec![release("v3.0.0", &["bcc_gui_2.8.0=1.0.0_linux.zip"])];

    let target = select_target(&releases, &build("2.8.0")).unwrap().unwrap();

    assert_eq!(target.asset, "bcc_gui_2.8.0=1.0.0_linux.zip");
    assert_eq!(target.version, "3.0.0");
}

#[test]
fn the_semver_comparison_is_numeric_not_textual() {
    assert!(is_upgrade("2.8.0", &release("v2.10.0", &[])));
    assert!(!is_upgrade("2.8.0", &release("v2.7.9", &[])));
    assert!(!is_upgrade("2.8.0", &release("v2.8.0", &[])));
}

#[test]
fn host_errors_map_to_reasons() {
    assert!(matches!(failure_of(HostErrorKind::RateLimited), CheckFailure::RateLimited));
    assert!(matches!(failure_of(HostErrorKind::InvalidUrl), CheckFailure::InvalidUrl));
    assert!(matches!(failure_of(HostErrorKind::Network), CheckFailure::Unknown));
    assert!(matches!(failure_of(HostErrorKind::Malformed), CheckFailure::Unknown));
}

#[test]
fn display_version_adds_one_v() {
    assert_eq!(display_version("2.8.0"), "v2.8.0");
    assert_eq!(display_version("v2.8.0"), "v2.8.0");
}

#[test]
fn prompt_titles_follow_the_status() {
    assert_eq!(prompt_title(&UpdateStatus::Downloading("v3.0.0".to_string())), Some("Downloading Update"));
    assert_eq!(prompt_title(&UpdateStatus::RestartPending("v3.0.0".to_string())), Some("Update Complete"));
    assert_eq!(prompt_title(&UpdateStatus::Idle), None);
}

#[test]
fn a_target_behind_the_newest_explains_itself() {
    let stepping = UpdateTarget { latest: "3.0.0".to_string(), version: "2.9.0".to_string(), tag: "v2.9.0".to_string(), asset: known_asset() };
    let current = UpdateTarget { latest: "3.0.0".to_string(), version: "3.0.0".to_string(), tag: "v3.0.0".to_string(), asset: known_asset() };

    assert_eq!(stepping_note(&stepping).unwrap(), "v3.0.0 is out, but this build has to install v2.9.0 first");
    assert!(stepping_note(&current).is_none());
}

#[test]
fn a_manual_check_reports_up_to_date() {
    assert!(matches!(check_outcome(Ok(None), true), UpdaterMsg::UpToDate));
    assert!(matches!(check_outcome(Err(CheckFailure::RateLimited), true), UpdaterMsg::CheckFailed(CheckFailure::RateLimited)));
    assert!(matches!(check_outcome(Ok(None), false), UpdaterMsg::SilentFail));
    assert!(matches!(check_outcome(Err(CheckFailure::Unknown), false), UpdaterMsg::SilentFail));
}

#[test]
fn never_needs_two_presses() {
    let mut updater = Updater::new();
    let target = UpdateTarget { latest: "3.0.0".to_string(), version: "3.0.0".to_string(), tag: "v3.0.0".to_string(), asset: known_asset() };
    updater.receive(UpdaterMsg::UpdateFound(target));
    assert!(updater.popup_open);

    assert_eq!(updater.act(UpdaterAction::NeverUpdate), UpdaterEffect::ArmNever);
    assert!(updater.popup_open);
    assert_eq!(updater.act(UpdaterAction::NeverUpdate), UpdaterEffect::StopChecking);
    assert!(!updater.popup_open);
    assert!(matches!(updater.status, UpdateStatus::Idle));
}

#[test]
fn an_expired_never_starts_over() {
    let mut updater = Updater::new();
    assert_eq!(updater.act(UpdaterAction::NeverUpdate), UpdaterEffect::ArmNever);
    assert_eq!(updater.act(UpdaterAction::NeverExpired), UpdaterEffect::Nothing);
    assert_eq!(updater.act(UpdaterAction::NeverUpdate), UpdaterEffect::ArmNever);
}

#[test]
fn a_check_starts_only_from_rest() {
    let mut updater = Updater::new();
    assert!(updater.begin_check());
    assert!(!updater.begin_check());
    assert_eq!(updater.receive(UpdaterMsg::UpToDate), UpdaterEffect::ScheduleExpiry);
    updater.expire_status();
    assert!(matches!(updater.status, UpdateStatus::Idle));
}

#[test]
fn dismissing_keeps_a_running_download() {
    let mut updater = Updater::new();
    updater.receive(UpdaterMsg::DownloadStarted("v3.0.0".to_string()));
    updater.dismiss();
    assert!(!updater.popup_open);
    assert!(matches!(updater.status, UpdateStatus::Downloading(_)));
}

fn host(kind: HostErrorKind) -> HostError {
    HostError { kind, detail: "boom".to_string() }
}

#[test]
fn the_latest_tag_is_probed_for_each_known_asset() {
    let (mut check, step) = RemoteCheck::start(build("2.8.0"));
    assert!(matches!(step, CheckStep::LatestTag));

    match check.step(CheckEvent::LatestTag(Ok(Some("v3.0.0".to_string())))) {
        CheckStep::Probe { tag, asset } => {
            assert_eq!(tag, "v3.0.0");
            assert_eq!(asset, "bcc_linux.zip");
        }
        other => panic!("expected a probe, got {other:?}"),
    }
    match check.step(CheckEvent::Probed(Ok(false))) {
        CheckStep::Probe { asset, .. } => assert_eq!(asset, "bcc_gui_2.8.0=1.0.0_linux.zip"),
        other => panic!("expected a second probe, got {other:?}"),
    }
    match check.step(CheckEvent::Probed(Ok(true))) {
        CheckStep::Done(Ok(Some(target))) => {
            assert_eq!(target.tag, "v3.0.0");
            assert_eq!(target.version, "3.0.0");
            assert_eq!(target.asset, "bcc_gui_2.8.0=1.0.0_linux.zip");
        }
        other => panic!("expected the target, got {other:?}"),
    }
    assert_eq!(check.phase, CheckPhase::Over);
}

#[test]
fn an_unknown_asset_falls_back_to_the_listing() {
    let (mut check, _) = RemoteCheck::start(build("2.8.0"));
    check.step(CheckEvent::LatestTag(Ok(Some("v3.0.0".to_string()))));
    check.step(CheckEvent::Probed(Ok(false)));
    assert!(matches!(check.step(CheckEvent::Probed(Ok(false))), CheckStep::ListReleases));

    let asset = known_asset();
    let releases = vec![release("v3.0.0", &["bcc-3.0.0-x86_64.tar.zst"]), release("v2.9.0", &[&asset])];
    match check.step(CheckEvent::Listed(Ok(releases))) {
        CheckStep::Done(Ok(Some(target))) => {
            assert_eq!(target.tag, "v2.9.0");
            assert_eq!(target.latest, "3.0.0");
        }
        other => panic!("expected a step back, got {other:?}"),
    }
}

#[test]
fn a_current_build_stops_at_the_tag() {
    let (mut check, _) = RemoteCheck::start(build("3.0.0"));
    assert!(matches!(check.step(CheckEvent::LatestTag(Ok(Some("v3.0.0".to_string())))), CheckStep::Done(Ok(None))));
    let (mut none, _) = RemoteCheck::start(build("3.0.0"));
    assert!(matches!(none.step(CheckEvent::LatestTag(Ok(None))), CheckStep::Done(Ok(None))));
}

#[test]
fn a_failed_request_asks_the_interface_instead() {
    let (mut check, _) = RemoteCheck::start(build("2.8.0"));
    assert!(matches!(check.step(CheckEvent::LatestTag(Err(host(HostErrorKind::Network)))), CheckStep::LatestRelease));
    let latest = release("v3.0.0", &[&known_asset()]);
    match check.step(CheckEvent::LatestRelease(Ok(Some(latest)))) {
        CheckStep::Done(Ok(Some(target))) => assert_eq!(target.asset, known_asset()),
        other => panic!("expected the target, got {other:?}"),
    }

    let (mut probed, _) = RemoteCheck::start(build("2.8.0"));
    probed.step(CheckEvent::LatestTag(Ok(Some("v3.0.0".to_string()))));
    assert!(matches!(probed.step(CheckEvent::Probed(Err(host(HostErrorKind::Network)))), CheckStep::LatestRelease));
    assert!(matches!(probed.step(CheckEvent::LatestRelease(Ok(None))), CheckStep::ListReleases));
}

#[test]
fn a_failing_interface_ends_the_check_with_its_reason() {
    let (mut check, _) = RemoteCheck::start(build("2.8.0"));
    check.step(CheckEvent::LatestTag(Err(host(HostErrorKind::Network))));
    match check.step(CheckEvent::LatestRelease(Err(host(HostErrorKind::RateLimited)))) {
        CheckStep::Done(Err(err)) => {
            assert!(matches!(err.reason, CheckFailure::RateLimited));
            assert_eq!(err.detail, "boom");
        }
        other => panic!("expected a failure, got {other:?}"),
    }
    assert!(matches!(check_error(host(HostErrorKind::Malformed)).reason, CheckFailure::Unknown));
}

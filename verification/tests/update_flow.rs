use grav_launcher::event::Event;
use grav_launcher::update::{
    conclude_apply_update, find_launcher_asset, is_update_artifact_name, plan_apply_update,
    AssetInfo, ReleaseInfo, UpdateAction, UpdateInput, UpdateMachine,
};

fn release_with_asset() -> ReleaseInfo {
    ReleaseInfo {
        tag_name: String::from("v2.0.0"),
        assets: vec![
            AssetInfo {
                name: String::from("checksums.txt"),
                browser_download_url: String::from("https://example.invalid/sums"),
            },
            AssetInfo {
                name: String::from("grav-launcher"),
                browser_download_url: String::from("https://example.invalid/grav-launcher"),
            },
        ],
    }
}

#[test]
fn update_download_happy_path() {
    let mut m = UpdateMachine::new();
    let (ev, a) = m.step(UpdateInput::Start);
    assert!(ev.is_empty());
    assert!(matches!(a, UpdateAction::FetchRelease));

    let (ev, a) = m.step(UpdateInput::ReleaseFetched(Ok(release_with_asset())));
    assert_eq!(ev.len(), 1);
    assert!(matches!(ev[0], Event::StartDownloadingLauncherUpdate));
    match a {
        UpdateAction::RequestAsset(url) => {
            assert_eq!(url, "https://example.invalid/grav-launcher")
        }
        _ => panic!("must request the launcher asset"),
    }

    let (ev, a) = m.step(UpdateInput::AssetRequested(Ok(Some(200))));
    assert!(matches!(ev[0], Event::LauncherDownloadProgress(0, Some(200))));
    assert!(matches!(a, UpdateAction::ReadChunk));

    let (ev, _) = m.step(UpdateInput::ChunkWritten(Ok(150)));
    assert!(matches!(ev[0], Event::LauncherDownloadProgress(150, Some(200))));
    let (ev, _) = m.step(UpdateInput::ChunkWritten(Ok(50)));
    assert!(matches!(ev[0], Event::LauncherDownloadProgress(200, Some(200))));

    let (ev, a) = m.step(UpdateInput::ChunkWritten(Ok(0)));
    assert!(ev.is_empty());
    assert!(matches!(a, UpdateAction::SetPermissions));

    let (ev, a) = m.step(UpdateInput::PermissionsSet(Ok(())));
    assert_eq!(ev.len(), 1);
    assert!(matches!(ev[0], Event::LauncherUpdateDownloaded));
    assert!(matches!(a, UpdateAction::Stop));
}

#[test]
fn update_without_matching_asset_fails_cleanly() {
    let mut m = UpdateMachine::new();
    m.step(UpdateInput::Start);
    let release = ReleaseInfo {
        tag_name: String::from("v2.0.0"),
        assets: vec![AssetInfo {
            name: String::from("grav-launcher.exe"),
            browser_download_url: String::from("https://example.invalid/exe"),
        }],
    };
    let (ev, a) = m.step(UpdateInput::ReleaseFetched(Ok(release)));
    assert!(matches!(a, UpdateAction::Stop));
    assert!(matches!(
        ev[0],
        Event::LauncherError(ref msg)
            if msg.as_str() == "Failed to update launcher: Could not find launcher binary in release assets"
    ));
}

#[test]
fn update_network_failure_is_reported_not_fatal() {
    let mut m = UpdateMachine::new();
    m.step(UpdateInput::Start);
    let (ev, a) = m.step(UpdateInput::ReleaseFetched(Err(String::from("api down"))));
    assert!(matches!(a, UpdateAction::Stop));
    assert!(
        matches!(ev[0], Event::LauncherError(ref msg) if msg.as_str() == "Failed to update launcher: api down")
    );
}

#[test]
fn find_launcher_asset_picks_the_exact_name() {
    let release = release_with_asset();
    assert_eq!(
        find_launcher_asset(&release),
        Some(String::from("https://example.invalid/grav-launcher"))
    );
    let empty = ReleaseInfo {
        tag_name: String::from("v1"),
        assets: Vec::new(),
    };
    assert_eq!(find_launcher_asset(&empty), None);
}

#[test]
fn artifact_naming_convention() {
    assert!(is_update_artifact_name("grav-launcher.v2.0.0.new"));
    assert!(is_update_artifact_name("grav-launcher.new"));
    assert!(!is_update_artifact_name("grav-launcher"));
    assert!(!is_update_artifact_name("grav-launcher.v2.0.0"));
    assert!(!is_update_artifact_name("other-tool.v2.new"));
    assert!(!is_update_artifact_name(".new"));
}

#[test]
fn apply_update_announces_and_renames_only_when_found() {
    let (ev, target) = plan_apply_update(Some(String::from("grav-launcher.v2.new")));
    assert_eq!(ev.len(), 1);
    assert!(matches!(ev[0], Event::LauncherApplyingUpdate));
    assert_eq!(target, Some(String::from("grav-launcher.v2.new")));

    let (ev, target) = plan_apply_update(None);
    assert!(ev.is_empty());
    assert_eq!(target, None);

    let ev = conclude_apply_update(Ok(()));
    assert_eq!(ev.len(), 1);
    assert!(matches!(ev[0], Event::LauncherUpdateApplied));

    let ev = conclude_apply_update(Err(String::from("permission denied")));
    assert!(ev.is_empty());
}

use wallpaperengine::controller::{
    has_supported_extension, ControllerError, PlaybackController, RestoreAction,
    VideoWallpaperState,
};

fn set(
    c: &mut PlaybackController,
    path: &str,
    exists: bool,
    url: Option<&str>,
    pid: Option<u32>,
    now: i64,
) -> (Result<Option<u32>, ControllerError>, Option<Result<(), ControllerError>>) {
    let begun = c.begin_set(path, exists);
    if begun.is_err() {
        return (begun, None);
    }
    let finished = c.finish_set(path, url.map(|u| u.to_string()), pid, now);
    (begun, Some(finished))
}

#[test]
fn cold_set_records_path_and_url() {
    let mut c = PlaybackController::new();
    let (begun, finished) = set(&mut c, "/tmp/demo.mp4", true, None, Some(41), 1_700_000_000);
    assert_eq!(begun, Ok(None));
    assert_eq!(finished, Some(Ok(())));
    let s = c.get_video_wallpaper_state();
    assert!(s.is_active);
    assert_eq!(s.video_path.as_deref(), Some("/tmp/demo.mp4"));
    assert_eq!(s.video_url.as_deref(), Some("file:///tmp/demo.mp4"));
    assert_eq!(s.set_at, Some(1_700_000_000));
    assert_eq!(c.player, Some(41));
}

#[test]
fn hot_swap_terminates_prior_sidecar() {
    let mut c = PlaybackController::new();
    set(&mut c, "/tmp/demo.mp4", true, None, Some(41), 10);
    let (begun, finished) = set(&mut c, "/tmp/other.mp4", true, None, Some(42), 20);
    assert_eq!(begun, Ok(Some(41)));
    assert_eq!(finished, Some(Ok(())));
    assert_eq!(c.player, Some(42));
    assert_eq!(c.state.video_path.as_deref(), Some("/tmp/other.mp4"));
    assert_eq!(c.state.video_url.as_deref(), Some("file:///tmp/other.mp4"));
}

#[test]
fn stop_retains_source_and_time() {
    let mut c = PlaybackController::new();
    set(&mut c, "/tmp/demo.mp4", true, Some("https://x/y.mp4"), Some(41), 1234);
    assert_eq!(c.stop_video_wallpaper(), Some(41));
    let s = c.get_video_wallpaper_state();
    assert!(!s.is_active);
    assert_eq!(s.video_path, None);
    assert_eq!(s.video_url, None);
    assert_eq!(s.original_url.as_deref(), Some("https://x/y.mp4"));
    assert_eq!(s.set_at, Some(1234));
    assert_eq!(c.player, None);
    assert_eq!(c.stop_video_wallpaper(), None);
}

#[test]
fn missing_file_is_media_load_failed_and_keeps_wallpaper() {
    let mut c = PlaybackController::new();
    set(&mut c, "/tmp/demo.mp4", true, None, Some(41), 10);
    let (begun, finished) = set(&mut c, "/tmp/missing.mp4", false, None, Some(99), 20);
    assert_eq!(begun, Err(ControllerError::MediaLoadFailed));
    assert_eq!(finished, None);
    assert_eq!(c.player, Some(41));
    assert!(c.state.is_active);
    assert_eq!(c.state.video_path.as_deref(), Some("/tmp/demo.mp4"));
    assert_eq!(c.state.set_at, Some(10));
}

#[test]
fn unsupported_extension_spawns_nothing() {
    let mut c = PlaybackController::new();
    assert_eq!(c.begin_set("/tmp/clip.avi", true), Err(ControllerError::UnsupportedFormat));
    assert_eq!(c.begin_set("/tmp/clip.MP4", true), Err(ControllerError::UnsupportedFormat));
    assert_eq!(c.begin_set("/tmp/clip", true), Err(ControllerError::UnsupportedFormat));
    assert_eq!(c.player, None);
    assert!(!c.state.is_active);
    assert_eq!(c.begin_set("/tmp/clip.mkv", true), Ok(None));
}

#[test]
fn failed_spawn_deactivates() {
    let mut c = PlaybackController::new();
    set(&mut c, "/tmp/demo.mp4", true, Some("https://x/y.mp4"), Some(41), 10);
    let (begun, finished) = set(&mut c, "/tmp/other.mp4", true, None, None, 20);
    assert_eq!(begun, Ok(Some(41)));
    assert_eq!(finished, Some(Err(ControllerError::SpawnFailed)));
    assert!(!c.state.is_active);
    assert_eq!(c.state.video_path, None);
    assert_eq!(c.state.original_url.as_deref(), Some("https://x/y.mp4"));
    assert_eq!(c.player, None);
}

#[test]
fn active_flag_follows_last_effective_set() {
    let mut c = PlaybackController::new();
    set(&mut c, "/a.mp4", true, None, Some(1), 1);
    assert!(c.state.is_active);
    set(&mut c, "/gone.mp4", false, None, Some(2), 2);
    assert!(c.state.is_active);
    c.stop_video_wallpaper();
    assert!(!c.state.is_active);
    set(&mut c, "/b.mkv", true, None, None, 3);
    assert!(!c.state.is_active);
    set(&mut c, "/b.mkv", true, None, Some(3), 4);
    assert!(c.state.is_active);
}

#[test]
fn exactly_one_sidecar_after_sets() {
    let mut c = PlaybackController::new();
    let mut alive: Vec<u32> = Vec::new();
    for (i, path) in ["/a.mp4", "/b.mp4", "/c.mkv"].iter().enumerate() {
        let prior = c.begin_set(path, true).unwrap();
        if let Some(p) = prior {
            alive.retain(|x| *x != p);
        }
        let pid = 100 + i as u32;
        alive.push(pid);
        c.finish_set(path, None, Some(pid), i as i64).unwrap();
        assert_eq!(alive, vec![pid]);
        assert_eq!(c.player, Some(pid));
    }
}

#[test]
fn heartbeat_only_while_active() {
    let mut c = PlaybackController::new();
    assert!(c.periodic_state_save().is_none());
    set(&mut c, "/tmp/demo.mp4", true, None, Some(5), 7);
    let s = c.periodic_state_save().unwrap();
    assert_eq!(s.video_path.as_deref(), Some("/tmp/demo.mp4"));
    c.stop_video_wallpaper();
    assert!(c.periodic_state_save().is_none());
}

fn saved(active: bool, path: Option<&str>, url: Option<&str>, at: Option<i64>) -> VideoWallpaperState {
    VideoWallpaperState {
        is_active: active,
        video_path: path.map(|p| p.to_string()),
        video_url: path.map(|p| format!("file://{}", p)),
        original_url: url.map(|u| u.to_string()),
        set_at: at,
    }
}

#[test]
fn restore_from_present_path() {
    let mut c = PlaybackController::new();
    let a = c.restore_wallpaper_on_startup(
        Some(saved(true, Some("/tmp/demo.mp4"), None, Some(77))),
        true,
    );
    assert_eq!(a, RestoreAction::SetFromPath("/tmp/demo.mp4".to_string()));
    assert_eq!(c.begin_set("/tmp/demo.mp4", true), Ok(None));
    assert_eq!(c.finish_restore(Some(8)), RestoreAction::Nothing);
    assert!(c.state.is_active);
    assert_eq!(c.state.video_path.as_deref(), Some("/tmp/demo.mp4"));
    assert_eq!(c.state.set_at, Some(77));
    assert_eq!(c.player, Some(8));
}

#[test]
fn restore_missing_file_downloads_source() {
    let mut c = PlaybackController::new();
    let a = c.restore_wallpaper_on_startup(
        Some(saved(true, Some("/gone.mp4"), Some("https://x/y.mp4"), Some(5))),
        false,
    );
    assert_eq!(a, RestoreAction::Download("https://x/y.mp4".to_string()));
    assert_eq!(c.begin_set("/tmp/new.mp4", true), Ok(None));
    assert_eq!(c.finish_redownload("/tmp/new.mp4", Some(12)), Ok(()));
    assert!(c.state.is_active);
    assert_eq!(c.state.video_path.as_deref(), Some("/tmp/new.mp4"));
    assert_eq!(c.state.video_url.as_deref(), Some("file:///tmp/new.mp4"));
    assert_eq!(c.state.original_url.as_deref(), Some("https://x/y.mp4"));
    assert_eq!(c.state.set_at, Some(5));
    assert_eq!(c.player, Some(12));
}

#[test]
fn restore_failures_clear_and_never_loop() {
    let mut c = PlaybackController::new();
    let a = c.restore_wallpaper_on_startup(Some(saved(true, Some("/gone.mp4"), None, None)), false);
    assert_eq!(a, RestoreAction::Clear);
    assert!(!c.state.is_active);
    assert_eq!(c.state.video_path, None);

    let mut c = PlaybackController::new();
    c.restore_wallpaper_on_startup(Some(saved(true, Some("/a.mp4"), None, None)), true);
    assert_eq!(c.finish_restore(None), RestoreAction::Clear);
    assert!(!c.state.is_active);

    let mut c = PlaybackController::new();
    c.restore_wallpaper_on_startup(Some(saved(true, None, Some("https://x/y.mp4"), None)), false);
    c.abandon_restore();
    assert!(!c.state.is_active);
    assert_eq!(c.state.original_url.as_deref(), Some("https://x/y.mp4"));

    let mut c = PlaybackController::new();
    c.restore_wallpaper_on_startup(Some(saved(true, None, Some("https://x/y.mp4"), None)), false);
    assert_eq!(c.finish_redownload("/tmp/n.mp4", None), Err(ControllerError::SpawnFailed));
    assert!(!c.state.is_active);
}

#[test]
fn restore_nothing_when_absent_or_inactive() {
    let mut c = PlaybackController::new();
    assert_eq!(c.restore_wallpaper_on_startup(None, false), RestoreAction::Nothing);
    let a = c.restore_wallpaper_on_startup(Some(saved(false, None, Some("https://x"), Some(3))), false);
    assert_eq!(a, RestoreAction::Nothing);
    assert_eq!(c.state.original_url, None);
    assert_eq!(c.state.set_at, None);
    assert!(!c.state.is_active);
    assert_eq!(c.player, None);
}

#[test]
fn restore_spawn_failure_falls_back_to_source_url() {
    let mut c = PlaybackController::new();
    c.restore_wallpaper_on_startup(
        Some(saved(true, Some("/a.mp4"), Some("https://x/y.mp4"), Some(2))),
        true,
    );
    assert_eq!(c.finish_restore(None), RestoreAction::Download("https://x/y.mp4".to_string()));
    assert!(c.state.is_active);
}

#[test]
fn set_then_restart_restores_from_path() {
    let mut c = PlaybackController::new();
    set(&mut c, "/tmp/demo.mp4", true, None, Some(3), 9);
    let persisted = c.get_video_wallpaper_state();
    let mut fresh = PlaybackController::new();
    let a = fresh.restore_wallpaper_on_startup(Some(persisted), true);
    assert_eq!(a, RestoreAction::SetFromPath("/tmp/demo.mp4".to_string()));
    fresh.begin_set("/tmp/demo.mp4", true).unwrap();
    assert_eq!(fresh.finish_restore(Some(4)), RestoreAction::Nothing);
    assert!(fresh.state.is_active);
}

#[test]
fn extension_rules() {
    assert!(has_supported_extension("C:\\videos\\a.mp4"));
    assert!(has_supported_extension("/x.y/a.b.mkv"));
    assert!(!has_supported_extension("/x.mp4/clip"));
    assert!(!has_supported_extension("/tmp/.mp4"));
    assert!(!has_supported_extension("/tmp/a.mp44"));
    assert!(!has_supported_extension(""));
}

#[test]
fn early_sidecar_death_fails_the_set() {
    let mut c = PlaybackController::new();
    set(&mut c, "/tmp/demo.mp4", true, Some("https://x/y.mp4"), Some(41), 10);
    assert!(!c.sidecar_exited(40, 1, 100));
    assert!(!c.sidecar_exited(41, 0, 100));
    assert!(!c.sidecar_exited(41, 1, 3000));
    assert!(c.state.is_active);
    assert!(c.sidecar_exited(41, 1, 2999));
    assert!(!c.state.is_active);
    assert_eq!(c.state.video_path, None);
    assert_eq!(c.state.original_url.as_deref(), Some("https://x/y.mp4"));
    assert_eq!(c.player, None);
}

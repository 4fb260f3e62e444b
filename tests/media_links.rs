use wallpaperengine::links::{absolute_url, motionbgs_tag_slug, pick_image_source, slug_of_lowered};
use wallpaperengine::media::{
    engine_event_is_error, host_ex_style, host_needs_opaque_alpha, media_url, wnd_proc_reply,
    MediaError, MessageReply, SurfaceState, SurfaceStep,
};
use wallpaperengine::os_version::WindowsVersion;
use wallpaperengine::sidecar::{parse_i32, parse_player_args, ArgsError};
use wallpaperengine::storage::{get_app_data_dir, get_settings_file, get_state_file, join};

#[test]
fn media_urls() {
    assert_eq!(media_url("\\\\?\\C:\\videos\\a.mp4"), "file:///C:/videos/a.mp4");
    assert_eq!(media_url("C:\\v\\b.mkv"), "file:///C:/v/b.mkv");
    assert_eq!(media_url("file:///C:/x.mp4"), "file:///C:/x.mp4");
    assert_eq!(media_url("/tmp/demo.mp4"), "file:////tmp/demo.mp4");
    assert_eq!(media_url(""), "file:///");
}

#[test]
fn host_window_styles() {
    assert_eq!(host_ex_style(WindowsVersion::Windows1124H2Plus), 0x0808_0084);
    assert_eq!(host_ex_style(WindowsVersion::Windows11Pre24H2), 0x0800_00A4);
    assert_eq!(host_ex_style(WindowsVersion::Windows10), 0x0800_00A4);
    assert!(host_needs_opaque_alpha(WindowsVersion::Windows1124H2Plus));
    assert!(!host_needs_opaque_alpha(WindowsVersion::Windows11Pre24H2));
}

#[test]
fn window_procedure_is_inert() {
    assert_eq!(wnd_proc_reply(0x0002), MessageReply::Quit);
    assert_eq!(wnd_proc_reply(0x0021), MessageReply::Value(3));
    assert_eq!(wnd_proc_reply(0x0084), MessageReply::Value(0));
    assert_eq!(wnd_proc_reply(0x0020), MessageReply::Value(1));
    assert_eq!(wnd_proc_reply(0x0014), MessageReply::Value(1));
    assert_eq!(wnd_proc_reply(0x0006), MessageReply::Value(0));
    assert_eq!(wnd_proc_reply(0x0007), MessageReply::Value(0));
    assert_eq!(wnd_proc_reply(0x000F), MessageReply::Paint);
    assert_eq!(wnd_proc_reply(0x0200), MessageReply::Default);
}

#[test]
fn engine_events() {
    assert!(engine_event_is_error(5));
    assert!(!engine_event_is_error(7));
    assert!(!engine_event_is_error(1));
}

#[test]
fn reload_never_doubles_engine() {
    let mut s = SurfaceState::created(9, true, true);
    let (steps, r) = s.reload_media_engine();
    assert_eq!(steps, vec![SurfaceStep::ShutdownEngine, SurfaceStep::CreateEngine]);
    assert_eq!(r, Ok(()));
    assert!(s.engine_live);
    let mut live: i32 = 1;
    for st in &steps {
        match st {
            SurfaceStep::ShutdownEngine => live -= 1,
            SurfaceStep::CreateEngine => live += 1,
            _ => {}
        }
        assert!(live <= 1);
    }
    assert_eq!(live, 1);
}

#[test]
fn reload_without_device_fails() {
    let mut s = SurfaceState::created(9, false, false);
    s.device_live = false;
    let (steps, r) = s.reload_media_engine();
    assert_eq!(steps, vec![SurfaceStep::ShutdownEngine]);
    assert_eq!(r, Err(MediaError::EngineCreationFailed));
    assert!(!s.engine_live);
    assert_eq!(s.check_engine(), Err(MediaError::EngineCreationFailed));
}

#[test]
fn shutdown_order() {
    let mut s = SurfaceState::created(9, true, true);
    assert_eq!(s.check_engine(), Ok(()));
    let steps = s.shutdown();
    assert_eq!(
        steps,
        vec![
            SurfaceStep::ShutdownEngine,
            SurfaceStep::DestroyWindow(9),
            SurfaceStep::ReleaseDevice,
            SurfaceStep::MediaShutdown,
            SurfaceStep::ComUninitialize,
        ]
    );
    assert_eq!(s.shutdown(), vec![SurfaceStep::ReleaseDevice]);
}

#[test]
fn absolute_urls() {
    assert_eq!(absolute_url("https://a.b/c", "https://x.y"), "https://a.b/c");
    assert_eq!(absolute_url("http://a.b/c", "https://x.y"), "http://a.b/c");
    assert_eq!(absolute_url("//cdn.x/c.jpg", "https://x.y"), "https://cdn.x/c.jpg");
    assert_eq!(absolute_url("/p/q", "https://x.y//"), "https://x.y/p/q");
    assert_eq!(absolute_url("p/q", "https://x.y/"), "https://x.y/p/q");
    assert_eq!(absolute_url("p", ""), "/p");
}

#[test]
fn image_sources() {
    assert_eq!(pick_image_source(""), "");
    assert_eq!(pick_image_source("url(\"https://a/b.jpg\")"), "https://a/b.jpg");
    assert_eq!(pick_image_source("url('https://a/b.jpg')"), "https://a/b.jpg");
    assert_eq!(pick_image_source("url(https://a/b.jpg)"), "https://a/b.jpg");
    assert_eq!(pick_image_source("  https://a/1.jpg 1x, https://a/2.jpg 2x"), "https://a/1.jpg 1x");
    assert_eq!(pick_image_source(",x"), "");
}

#[test]
fn tag_slugs() {
    assert_eq!(motionbgs_tag_slug("  Hello, World! 4K "), "hello-world-4k");
    assert_eq!(motionbgs_tag_slug("ABC"), "abc");
    assert_eq!(motionbgs_tag_slug("naruto_shippuden"), "naruto-shippuden");
    assert_eq!(motionbgs_tag_slug("  "), "");
    assert_eq!(slug_of_lowered("ABC def"), "ABC-def");
    assert_eq!(slug_of_lowered("--a--b--"), "a-b");
    assert_eq!(slug_of_lowered(""), "");
}

#[test]
fn data_paths() {
    assert_eq!(get_app_data_dir("/home/u/.local/share"), "/home/u/.local/share/ColorWall");
    assert_eq!(get_state_file("C:\\Users\\u\\ColorWall"), "C:\\Users\\u\\ColorWall/wallpaper_state.json");
    assert_eq!(get_settings_file("/cfg/"), "/cfg/settings.json");
    assert_eq!(join("", "a"), "a");
}

#[test]
fn integers_parse_like_std() {
    for s in ["0", "1920", "-5", "+7", "2147483647", "-2147483648", "2147483648", "", "-", "1x", " 1", "99999999999"] {
        assert_eq!(parse_i32(s), s.parse::<i32>().ok(), "{}", s);
    }
}

#[test]
fn player_arguments() {
    let args: Vec<String> = ["p", "C:\\v.mp4", "1920", "1080"].iter().map(|s| s.to_string()).collect();
    let a = parse_player_args(&args).unwrap();
    assert_eq!(a.video_path, "C:\\v.mp4");
    assert_eq!((a.width, a.height), (1920, 1080));
    let short: Vec<String> = ["p", "v.mp4", "1"].iter().map(|s| s.to_string()).collect();
    assert_eq!(parse_player_args(&short).unwrap_err(), ArgsError::Usage);
    let bad_w: Vec<String> = ["p", "v", "w", "1"].iter().map(|s| s.to_string()).collect();
    assert_eq!(parse_player_args(&bad_w).unwrap_err(), ArgsError::InvalidWidth);
    let bad_h: Vec<String> = ["p", "v", "1", "h"].iter().map(|s| s.to_string()).collect();
    assert_eq!(parse_player_args(&bad_h).unwrap_err(), ArgsError::InvalidHeight);
}

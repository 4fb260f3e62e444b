use wallpaperengine::desktop::{WindowOp, ZTarget};
use wallpaperengine::injection::{
    child_style, inject_windows_11, injection_variant, parent_to_workerw, size_of_rect,
    InjectionError, InjectionVariant, Rect, ShellAnchors,
};
use wallpaperengine::media::{host_ex_style, WS_EX_NOACTIVATE};
use wallpaperengine::os_version::{
    classify_build, get_windows_version, VersionCache, WindowsVersion,
};
use wallpaperengine::shell::{
    find_workerw, spawn_delay_ms, spawn_workerw_step, SpawnStep, TopLevelWindow, SPAWN_ATTEMPTS,
};
use wallpaperengine::watchdog::{
    stop_watchdog, DesktopGeometry, WatchdogAction, WatchdogObservation, WatchdogState,
};

#[test]
fn build_classification() {
    assert_eq!(classify_build(26100), WindowsVersion::Windows1124H2Plus);
    assert_eq!(classify_build(26099), WindowsVersion::Windows11Pre24H2);
    assert_eq!(classify_build(22000), WindowsVersion::Windows11Pre24H2);
    assert_eq!(classify_build(21999), WindowsVersion::Windows10);
    assert_eq!(classify_build(10000), WindowsVersion::Windows10);
    assert_eq!(classify_build(9999), WindowsVersion::Unknown);
    assert_eq!(classify_build(0), WindowsVersion::Unknown);
    assert!(WindowsVersion::Windows1124H2Plus.is_windows_11());
    assert!(WindowsVersion::Windows1124H2Plus.is_windows_11_24h2_plus());
    assert!(!WindowsVersion::Windows11Pre24H2.is_windows_11_24h2_plus());
    assert!(WindowsVersion::Windows10.is_windows_10());
    assert!(!WindowsVersion::Unknown.is_windows_11());
}

#[test]
fn version_is_resolved_once() {
    let mut cache = VersionCache::new();
    assert!(cache.needs_probe());
    assert_eq!(get_windows_version(&mut cache, 22631), WindowsVersion::Windows11Pre24H2);
    assert!(!cache.needs_probe());
    assert_eq!(get_windows_version(&mut cache, 19045), WindowsVersion::Windows11Pre24H2);
}

#[test]
fn variant_by_build() {
    assert_eq!(injection_variant(WindowsVersion::Windows11Pre24H2), InjectionVariant::Modern);
    assert_eq!(injection_variant(WindowsVersion::Windows1124H2Plus), InjectionVariant::Modern);
    assert_eq!(injection_variant(WindowsVersion::Windows10), InjectionVariant::Legacy);
    assert_eq!(injection_variant(WindowsVersion::Unknown), InjectionVariant::Legacy);
}

#[test]
fn child_style_rewrites_popup() {
    assert_eq!(child_style(0x8000_0000 | 0x0800_0000 | 0x10), 0x4000_0010);
    assert_eq!(child_style(0x4000_0000), 0x4000_0000);
    assert_eq!(child_style(0), 0x4000_0000);
}

#[test]
fn rect_sizes() {
    let r = Rect { left: -1920, top: 0, right: 1920, bottom: 1080 };
    assert_eq!(size_of_rect(r), Some((3840, 1080)));
    let r = Rect { left: i32::MIN, top: 0, right: i32::MAX, bottom: 1 };
    assert_eq!(size_of_rect(r), None);
}

#[test]
fn modern_plan_layout() {
    let rect = Some(Rect { left: 0, top: 0, right: 2560, bottom: 1440 });
    let (a, plan) = inject_windows_11(7, 100, Some(101), Some(102), rect, 0x8000_0000).unwrap();
    assert_eq!(a, ShellAnchors { progman: 100, shell_view: 101, workerw: 102 });
    assert_eq!(
        plan,
        vec![
            WindowOp::SetStyle { hwnd: 7, style: 0x4000_0000 },
            WindowOp::SetParent { hwnd: 7, parent: 100 },
            WindowOp::SetOpaque { hwnd: 7 },
            WindowOp::Place {
                hwnd: 7,
                target: ZTarget::Below(101),
                x: 0,
                y: 0,
                width: 2560,
                height: 1440
            },
            WindowOp::Restack { hwnd: 102, target: ZTarget::Below(7) },
            WindowOp::ShowNoActivate { hwnd: 7 },
        ]
    );
    assert_eq!(host_ex_style(WindowsVersion::Windows1124H2Plus) & WS_EX_NOACTIVATE, WS_EX_NOACTIVATE);
    assert_eq!(host_ex_style(WindowsVersion::Windows10) & WS_EX_NOACTIVATE, WS_EX_NOACTIVATE);
}

#[test]
fn modern_plan_bails_on_missing_anchor() {
    let rect = Some(Rect { left: 0, top: 0, right: 10, bottom: 10 });
    assert_eq!(
        inject_windows_11(7, 100, None, Some(102), rect, 0).unwrap_err(),
        InjectionError::InjectionFailed
    );
    assert_eq!(
        inject_windows_11(7, 100, Some(101), Some(0), rect, 0).unwrap_err(),
        InjectionError::InjectionFailed
    );
    assert_eq!(
        inject_windows_11(7, 100, Some(101), Some(102), None, 0).unwrap_err(),
        InjectionError::InjectionFailed
    );
}

#[test]
fn legacy_plan_layout() {
    let plan = parent_to_workerw(7, 55, 0x8000_0000, 1920, 1080);
    assert_eq!(
        plan,
        vec![
            WindowOp::SetStyle { hwnd: 7, style: 0x4000_0000 },
            WindowOp::SetParent { hwnd: 7, parent: 55 },
            WindowOp::Place {
                hwnd: 7,
                target: ZTarget::Bottom,
                x: 0,
                y: 0,
                width: 1920,
                height: 1080
            },
            WindowOp::ShowNoActivate { hwnd: 7 },
        ]
    );
}

fn top(hwnd: u64, is_worker: bool, holds_icons: bool) -> TopLevelWindow {
    TopLevelWindow { hwnd, is_worker, holds_icons }
}

#[test]
fn workerw_follows_icon_holder() {
    assert_eq!(find_workerw(&vec![top(1, true, true), top(2, true, false)]), Some(2));
    assert_eq!(find_workerw(&vec![top(2, true, false), top(1, false, true)]), None);
    assert_eq!(
        find_workerw(&vec![top(9, false, false), top(1, false, true), top(3, false, false), top(4, true, false)]),
        Some(4)
    );
    assert_eq!(find_workerw(&vec![]), None);
}

#[test]
fn spawn_converges_under_slow_shell() {
    // The wallpaper window appears 1.5 s after the first message.
    let appear_ms: u64 = 1500;
    let mut elapsed: u64 = 0;
    let mut attempt: u32 = 0;
    let found = loop {
        elapsed += spawn_delay_ms(attempt);
        let polled = if elapsed >= appear_ms { Some(77) } else { None };
        match spawn_workerw_step(attempt, polled) {
            Ok(SpawnStep::Found(h)) => break Some((h, attempt)),
            Ok(SpawnStep::Retry) => attempt += 1,
            Err(_) => break None,
        }
    };
    assert_eq!(found, Some((77, 4)));
    assert!(attempt < SPAWN_ATTEMPTS);
}

#[test]
fn spawn_gives_up_after_budget() {
    assert_eq!(spawn_delay_ms(0), 200);
    assert_eq!(spawn_delay_ms(9), 1100);
    assert_eq!(spawn_workerw_step(8, None), Ok(SpawnStep::Retry));
    assert_eq!(spawn_workerw_step(9, None), Err(InjectionError::WorkerSpawnFailed));
    assert_eq!(spawn_workerw_step(9, Some(0)), Err(InjectionError::WorkerSpawnFailed));
    assert_eq!(spawn_workerw_step(9, Some(5)), Ok(SpawnStep::Found(5)));
}

fn armed(version: WindowsVersion) -> WatchdogState {
    let mut w = WatchdogState::new();
    let g = DesktopGeometry { x: 0, y: 0, width: 1920, height: 1080 };
    assert_eq!(w.begin_injection(7, Some(100), g, version).is_ok(), true);
    w.start_watchdog(Some(101), 102);
    w
}

fn healthy() -> WatchdogObservation {
    WatchdogObservation {
        host_valid: true,
        workerw_valid: true,
        progman_workerw: Some(102),
        legacy_workerw_present: true,
    }
}

#[test]
fn missing_shell_root() {
    let mut w = WatchdogState::new();
    let g = DesktopGeometry { x: 0, y: 0, width: 1, height: 1 };
    assert_eq!(
        w.begin_injection(7, None, g, WindowsVersion::Windows10),
        Err(InjectionError::ShellNotFound)
    );
    assert_eq!(
        w.begin_injection(7, Some(0), g, WindowsVersion::Windows10),
        Err(InjectionError::ShellNotFound)
    );
    assert!(w.stop_requested);
    assert_eq!(w.host, None);
}

#[test]
fn healthy_iterations_change_nothing() {
    let mut w = armed(WindowsVersion::Windows11Pre24H2);
    let before = w;
    assert_eq!(w.watchdog_step(WindowsVersion::Windows11Pre24H2, healthy()), WatchdogAction::Nothing);
    assert_eq!(w.watchdog_step(WindowsVersion::Windows11Pre24H2, healthy()), WatchdogAction::Nothing);
    assert_eq!(w, before);
    let mut w = armed(WindowsVersion::Windows10);
    let before = w;
    assert_eq!(w.watchdog_step(WindowsVersion::Windows10, healthy()), WatchdogAction::Nothing);
    assert_eq!(w, before);
}

#[test]
fn shell_rebuild_is_reinjected() {
    let mut w = armed(WindowsVersion::Windows1124H2Plus);
    let obs = WatchdogObservation {
        host_valid: true,
        workerw_valid: false,
        progman_workerw: Some(300),
        legacy_workerw_present: false,
    };
    assert_eq!(
        w.watchdog_step(WindowsVersion::Windows1124H2Plus, obs),
        WatchdogAction::Apply(vec![
            WindowOp::Restack { hwnd: 7, target: ZTarget::Below(101) },
            WindowOp::Restack { hwnd: 300, target: ZTarget::Below(7) },
        ])
    );
    assert_eq!(w.workerw, Some(300));

    let mut w = armed(WindowsVersion::Windows10);
    let obs = WatchdogObservation { legacy_workerw_present: false, ..healthy() };
    assert_eq!(w.watchdog_step(WindowsVersion::Windows10, obs), WatchdogAction::Respawn);
    let ops = w.adopt_workerw(400, 0x8000_0000).unwrap();
    assert_eq!(ops, parent_to_workerw(7, 400, 0x8000_0000, 1920, 1080));
    assert_eq!(w.workerw, Some(400));
}

#[test]
fn check_delays_stay_under_ten_seconds() {
    let mut w = armed(WindowsVersion::Windows10);
    for _ in 0..12 {
        assert_eq!(w.next_check_delay(), Some(2000));
    }
    assert_eq!(w.next_check_delay(), Some(5000));
    assert_eq!(w.next_check_delay(), Some(5000));
    stop_watchdog(&mut w);
    assert_eq!(w.next_check_delay(), None);
    assert_eq!(w.host, None);
    assert_eq!(w.workerw, None);
}

#[test]
fn dead_host_ends_watchdog() {
    let mut w = armed(WindowsVersion::Windows11Pre24H2);
    let obs = WatchdogObservation { host_valid: false, ..healthy() };
    assert_eq!(w.watchdog_step(WindowsVersion::Windows11Pre24H2, obs), WatchdogAction::Exit);
    assert_eq!(w.host, None);
    assert_eq!(w.progman, None);
    assert_eq!(w.shell_view, None);
    assert_eq!(w.workerw, None);
}

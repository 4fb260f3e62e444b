//! The injection state that the side-car keeps, and the watchdog that
//! re-applies the injection when the shell rebuilds its windows.
use vstd::prelude::*;
use crate::desktop::{WindowOp, ZTarget};
use crate::injection::{
    injection_variant, legacy_plan, parent_to_workerw, variant_of, InjectionError,
    InjectionVariant,
};
use crate::os_version::WindowsVersion;

verus! {

/// The bounding rectangle of the virtual desktop, in physical pixels.
#[derive(Debug, Clone, Copy, PartialEq, Eq, Structural)]
pub struct DesktopGeometry {
    pub x: i32,
    pub y: i32,
    pub width: i32,
    pub height: i32,
}

/// Checks run every 2 s for this many iterations, every 5 s after that.
pub const FAST_CHECKS: u32 = 12;

pub const FAST_CHECK_MS: u64 = 2000;

pub const SLOW_CHECK_MS: u64 = 5000;

/// The injection in force: the stop flag, the host window, the desktop
/// geometry, and the cached shell anchors.
#[derive(Debug, Clone, Copy, PartialEq, Eq, Structural)]
pub struct WatchdogState {
    pub stop_requested: bool,
    pub host: Option<u64>,
    pub geometry: Option<DesktopGeometry>,
    pub progman: Option<u64>,
    pub shell_view: Option<u64>,
    pub workerw: Option<u64>,
    pub check_count: u32,
}

/// What the side-car observed of the OS after a watchdog sleep. Each field is
/// a query without side effects.
#[derive(Debug, Clone, Copy, PartialEq, Eq, Structural)]
pub struct WatchdogObservation {
    /// The host handle still names a window.
    pub host_valid: bool,
    /// The cached wallpaper handle still names a window.
    pub workerw_valid: bool,
    /// The child of the shell root of class "WorkerW", if any.
    pub progman_workerw: Option<u64>,
    /// `find_workerw` found a legacy wallpaper window among the top-level windows.
    pub legacy_workerw_present: bool,
}

/// What one watchdog iteration decided.
#[derive(Debug, PartialEq, Eq)]
pub enum WatchdogAction {
    /// The host is gone: the watchdog ends.
    Exit,
    /// The injection is intact: nothing to do.
    Nothing,
    /// Carry out these operations.
    Apply(Vec<WindowOp>),
    /// Spawn the legacy wallpaper window again and hand it to `adopt_workerw`.
    Respawn,
}

/// The shape of a watchdog decision.
pub enum StepKind {
    Exit,
    Nothing,
    Reapply(u64),
    Respawn,
}

pub open spec fn stopped_state(s: WatchdogState) -> WatchdogState {
    WatchdogState {
        stop_requested: true,
        host: None,
        progman: None,
        shell_view: None,
        workerw: None,
        ..s
    }
}

pub open spec fn cleared_state(s: WatchdogState) -> WatchdogState {
    WatchdogState { host: None, progman: None, shell_view: None, workerw: None, ..s }
}

/// Restacking that restores the modern z-order around a new wallpaper window.
pub open spec fn reapply_ops(host: u64, shell_view: u64, workerw: u64) -> Seq<WindowOp> {
    seq![
        WindowOp::Restack { hwnd: host, target: ZTarget::Below(shell_view) },
        WindowOp::Restack { hwnd: workerw, target: ZTarget::Below(host) },
    ]
}

/// One watchdog iteration as a function of the state and what was observed.
pub open spec fn step_outcome(s: WatchdogState, v: InjectionVariant, o: WatchdogObservation) -> (
    WatchdogState,
    StepKind,
) {
    if s.host is None || !o.host_valid {
        (cleared_state(s), StepKind::Exit)
    } else if v == InjectionVariant::Modern {
        if s.progman is Some && s.shell_view is Some && s.workerw is Some && !o.workerw_valid
            && o.progman_workerw is Some && o.progman_workerw->Some_0 != 0 {
            (
                WatchdogState { workerw: o.progman_workerw, ..s },
                StepKind::Reapply(o.progman_workerw->Some_0),
            )
        } else {
            (s, StepKind::Nothing)
        }
    } else if !o.legacy_workerw_present {
        (s, StepKind::Respawn)
    } else {
        (s, StepKind::Nothing)
    }
}

/// The shell is as the injection left it.
pub open spec fn healthy(v: InjectionVariant, o: WatchdogObservation) -> bool {
    &&& o.host_valid
    &&& (v == InjectionVariant::Modern ==> o.workerw_valid)
    &&& (v == InjectionVariant::Legacy ==> o.legacy_workerw_present)
}

impl WatchdogState {
    pub fn new() -> (r: WatchdogState)
        ensures
            r.stop_requested,
            r.host is None && r.geometry is None,
            r.progman is None && r.shell_view is None && r.workerw is None,
            r.check_count == 0,
    {
        WatchdogState {
            stop_requested: true,
            host: None,
            geometry: None,
            progman: None,
            shell_view: None,
            workerw: None,
            check_count: 0,
        }
    }

    /// Starts a new injection of `host`: any earlier watchdog is stopped, and
    /// the shell root `progman` (as the lookup by class and title found it) and
    /// the geometry are recorded. Fails with `ShellNotFound`, recording nothing
    /// more, when the shell root is missing; otherwise returns the algorithm
    /// that `version` calls for.
    pub fn begin_injection(
        &mut self,
        host: u64,
        progman: Option<u64>,
        geometry: DesktopGeometry,
        version: WindowsVersion,
    ) -> (r: Result<InjectionVariant, InjectionError>)
        ensures
            r is Err <==> !(progman is Some && progman->Some_0 != 0),
            r is Err ==> r->Err_0 == InjectionError::ShellNotFound && *final(self)
                == stopped_state(*old(self)),
            r is Ok ==> r->Ok_0 == variant_of(version) && *final(self) == (WatchdogState {
                host: Some(host),
                geometry: Some(geometry),
                progman,
                ..stopped_state(*old(self))
            }),
    {
        stop_watchdog(self);
        let p = match progman {
            Some(p) => p,
            None => return Err(InjectionError::ShellNotFound),
        };
        if p == 0 {
            return Err(InjectionError::ShellNotFound);
        }
        self.host = Some(host);
        self.geometry = Some(geometry);
        self.progman = Some(p);
        Ok(injection_variant(version))
    }

    /// Records the anchors of a completed injection and arms the watchdog.
    pub fn start_watchdog(&mut self, shell_view: Option<u64>, workerw: u64)
        ensures
            *final(self) == (WatchdogState {
                stop_requested: false,
                shell_view,
                workerw: Some(workerw),
                check_count: 0,
                ..*old(self)
            }),
    {
        self.shell_view = shell_view;
        self.workerw = Some(workerw);
        self.stop_requested = false;
        self.check_count = 0;
    }

    /// The sleep before the next check, counting the check; `None` once a
    /// stop was requested.
    pub fn next_check_delay(&mut self) -> (r: Option<u64>)
        ensures
            old(self).stop_requested ==> r is None && *final(self) == *old(self),
            !old(self).stop_requested ==> r == Some(
                if old(self).check_count < FAST_CHECKS {
                    FAST_CHECK_MS
                } else {
                    SLOW_CHECK_MS
                },
            ) && *final(self) == (WatchdogState {
                check_count: if old(self).check_count < u32::MAX {
                    (old(self).check_count + 1) as u32
                } else {
                    u32::MAX
                },
                ..*old(self)
            }),
    {
        if self.stop_requested {
            return None;
        }
        let d = if self.check_count < FAST_CHECKS {
            FAST_CHECK_MS
        } else {
            SLOW_CHECK_MS
        };
        if self.check_count < u32::MAX {
            self.check_count = self.check_count + 1;
        }
        Some(d)
    }

    /// One watchdog iteration under the algorithm of `version`, from what was
    /// observed after the sleep.
    pub fn watchdog_step(&mut self, version: WindowsVersion, obs: WatchdogObservation) -> (r:
        WatchdogAction)
        ensures
            ({
                let (s, k) = step_outcome(*old(self), variant_of(version), obs);
                &&& *final(self) == s
                &&& match k {
                    StepKind::Exit => r == WatchdogAction::Exit,
                    StepKind::Nothing => r == WatchdogAction::Nothing,
                    StepKind::Respawn => r == WatchdogAction::Respawn,
                    StepKind::Reapply(w) => r matches WatchdogAction::Apply(ops) && ops@
                        == reapply_ops(
                        old(self).host->Some_0,
                        old(self).shell_view->Some_0,
                        w,
                    ),
                }
            }),
            healthy(variant_of(version), obs) && old(self).host is Some ==> r
                == WatchdogAction::Nothing && *final(self) == *old(self),
    {
        if self.host.is_none() || !obs.host_valid {
            self.host = None;
            self.progman = None;
            self.shell_view = None;
            self.workerw = None;
            return WatchdogAction::Exit;
        }
        let host = self.host.unwrap();
        match injection_variant(version) {
            InjectionVariant::Modern => {
                if self.progman.is_some() && self.shell_view.is_some() && self.workerw.is_some()
                    && !obs.workerw_valid && obs.progman_workerw.is_some()
                    && obs.progman_workerw.unwrap() != 0 {
                    let sv = self.shell_view.unwrap();
                    let w = obs.progman_workerw.unwrap();
                    self.workerw = Some(w);
                    let ops = vec![
                        WindowOp::Restack { hwnd: host, target: ZTarget::Below(sv) },
                        WindowOp::Restack { hwnd: w, target: ZTarget::Below(host) },
                    ];
                    assert(ops@ =~= reapply_ops(host, sv, w));
                    WatchdogAction::Apply(ops)
                } else {
                    WatchdogAction::Nothing
                }
            },
            InjectionVariant::Legacy => {
                if obs.legacy_workerw_present {
                    WatchdogAction::Nothing
                } else {
                    WatchdogAction::Respawn
                }
            },
        }
    }

    /// Takes over a respawned legacy wallpaper window: caches it and returns
    /// the re-parenting of the host under it, at the recorded size. `None`
    /// when no injection is recorded.
    pub fn adopt_workerw(&mut self, workerw: u64, host_style: u32) -> (r: Option<Vec<WindowOp>>)
        ensures
            (old(self).host is Some && old(self).geometry is Some) <==> r is Some,
            r is None ==> *final(self) == *old(self),
            r matches Some(ops) ==> ops@ == legacy_plan(
                old(self).host->Some_0,
                workerw,
                host_style,
                old(self).geometry->Some_0.width,
                old(self).geometry->Some_0.height,
            ) && *final(self) == (WatchdogState { workerw: Some(workerw), ..*old(self) }),
    {
        match (self.host, self.geometry) {
            (Some(h), Some(g)) => {
                self.workerw = Some(workerw);
                Some(parent_to_workerw(h, workerw, host_style, g.width, g.height))
            },
            _ => None,
        }
    }
}

/// Stops the watchdog: raises the stop flag and forgets the host and every
/// cached anchor.
pub fn stop_watchdog(state: &mut WatchdogState)
    ensures
        *final(state) == stopped_state(*old(state)),
{
    state.stop_requested = true;
    state.host = None;
    state.progman = None;
    state.shell_view = None;
    state.workerw = None;
}

/// While the shell stays as the injection left it, a watchdog iteration
/// changes nothing and asks for no operation, so any number of them in a row
/// leave the state, and the OS, as they were.
pub proof fn lemma_healthy_iterations_idempotent(
    s: WatchdogState,
    v: InjectionVariant,
    o: WatchdogObservation,
)
    requires
        s.host is Some,
        healthy(v, o),
    ensures
        step_outcome(s, v, o).0 == s,
        step_outcome(s, v, o).1 is Nothing,
        step_outcome(step_outcome(s, v, o).0, v, o) == step_outcome(s, v, o),
{
}

} // verus!

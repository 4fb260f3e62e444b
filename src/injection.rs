//! The injection engine: the two plans that splice the side-car's host window
//! into the shell's window tree, and what they establish.
use vstd::prelude::*;
use crate::desktop::{
    above, apply_op, apply_plan, detach, insert_at, lemma_detach_keeps_above, lemma_detach_keeps_member,
    lemma_insert_below, lemma_insert_keeps_above, lemma_insert_keeps_member, stack_of, DesktopModel,
    WindowOp, ZTarget, WS_CHILD, WS_DISABLED, WS_POPUP,
};
use crate::os_version::WindowsVersion;

verus! {

/// Failures of the injection engine.
#[derive(Debug, Clone, Copy, PartialEq, Eq, Structural)]
pub enum InjectionError {
    /// The shell root window is absent (the shell is not running).
    ShellNotFound,
    /// The legacy wallpaper window could not be materialized in time.
    WorkerSpawnFailed,
    /// A style, parent or position step could not be carried out.
    InjectionFailed,
}

/// The three shell windows that injection is arranged around.
#[derive(Debug, Clone, Copy, PartialEq, Eq, Structural)]
pub struct ShellAnchors {
    /// The shell root ("Progman").
    pub progman: u64,
    /// The desktop-icons window ("SHELLDLL_DefView").
    pub shell_view: u64,
    /// The static-wallpaper window ("WorkerW").
    pub workerw: u64,
}

impl ShellAnchors {
    /// Every anchor is a live (non-null) handle.
    pub open spec fn wf(self) -> bool {
        self.progman != 0 && self.shell_view != 0 && self.workerw != 0
    }
}

/// A window rectangle in screen coordinates, as the OS reports it.
#[derive(Debug, Clone, Copy, PartialEq, Eq, Structural)]
pub struct Rect {
    pub left: i32,
    pub top: i32,
    pub right: i32,
    pub bottom: i32,
}

/// Which of the two injection algorithms a build gets.
#[derive(Debug, Clone, Copy, PartialEq, Eq, Structural)]
pub enum InjectionVariant {
    /// Windows 11: a layered child of the shell root, between the icons and
    /// the static wallpaper.
    Modern,
    /// Windows 10 and earlier: a child of the spawned wallpaper window.
    Legacy,
}

pub open spec fn variant_of(v: WindowsVersion) -> InjectionVariant {
    if v == WindowsVersion::Windows11Pre24H2 || v == WindowsVersion::Windows1124H2Plus {
        InjectionVariant::Modern
    } else {
        InjectionVariant::Legacy
    }
}

/// The algorithm for a build family: the modern one on every Windows 11
/// build, the legacy one elsewhere.
pub fn injection_variant(v: WindowsVersion) -> (r: InjectionVariant)
    ensures
        r == variant_of(v),
{
    if v.is_windows_11() {
        InjectionVariant::Modern
    } else {
        InjectionVariant::Legacy
    }
}

/// A base style turned into a child style: popup and disabled cleared, child
/// set, every other bit kept.
pub open spec fn child_style_of(style: u32) -> u32 {
    (style & !(WS_POPUP | WS_DISABLED)) | WS_CHILD
}

pub fn child_style(style: u32) -> (r: u32)
    ensures
        r == child_style_of(style),
        r & WS_CHILD == WS_CHILD,
        r & WS_POPUP == 0,
        r & WS_DISABLED == 0,
        r & !(WS_POPUP | WS_DISABLED | WS_CHILD) == style & !(WS_POPUP | WS_DISABLED | WS_CHILD),
{
    let r = (style & !(WS_POPUP | WS_DISABLED)) | WS_CHILD;
    assert(r & 0x4000_0000u32 == 0x4000_0000u32 && r & 0x8000_0000u32 == 0 && r & 0x0800_0000u32
        == 0 && r & !(0x8000_0000u32 | 0x0800_0000u32 | 0x4000_0000u32) == style & !(0x8000_0000u32
        | 0x0800_0000u32 | 0x4000_0000u32)) by (bit_vector)
        requires
            r == (style & !(0x8000_0000u32 | 0x0800_0000u32)) | 0x4000_0000u32,
    ;
    r
}

/// Width and height of a rectangle, where both fit in an `i32`.
pub open spec fn rect_size(r: Rect) -> Option<(i32, i32)> {
    let w = r.right - r.left;
    let h = r.bottom - r.top;
    if i32::MIN <= w <= i32::MAX && i32::MIN <= h <= i32::MAX {
        Some((w as i32, h as i32))
    } else {
        None
    }
}

pub fn size_of_rect(r: Rect) -> (s: Option<(i32, i32)>)
    ensures
        s == rect_size(r),
{
    let w = r.right as i64 - r.left as i64;
    let h = r.bottom as i64 - r.top as i64;
    if i32::MIN as i64 <= w && w <= i32::MAX as i64 && i32::MIN as i64 <= h && h
        <= i32::MAX as i64 {
        Some((w as i32, h as i32))
    } else {
        None
    }
}

/// The modern plan: the host becomes a child of the shell root covering it,
/// just below the icons, with the static wallpaper just below the host.
pub open spec fn modern_plan(host: u64, a: ShellAnchors, style: u32, width: i32, height: i32) -> Seq<
    WindowOp,
> {
    seq![
        WindowOp::SetStyle { hwnd: host, style: child_style_of(style) },
        WindowOp::SetParent { hwnd: host, parent: a.progman },
        WindowOp::SetOpaque { hwnd: host },
        WindowOp::Place {
            hwnd: host,
            target: ZTarget::Below(a.shell_view),
            x: 0,
            y: 0,
            width,
            height,
        },
        WindowOp::Restack { hwnd: a.workerw, target: ZTarget::Below(host) },
        WindowOp::ShowNoActivate { hwnd: host },
    ]
}

/// The legacy plan: the host becomes the bottom child of the wallpaper window,
/// covering the virtual desktop.
pub open spec fn legacy_plan(host: u64, workerw: u64, style: u32, width: i32, height: i32) -> Seq<
    WindowOp,
> {
    seq![
        WindowOp::SetStyle { hwnd: host, style: child_style_of(style) },
        WindowOp::SetParent { hwnd: host, parent: workerw },
        WindowOp::Place { hwnd: host, target: ZTarget::Bottom, x: 0, y: 0, width, height },
        WindowOp::ShowNoActivate { hwnd: host },
    ]
}

/// A live handle that a lookup returned.
pub open spec fn found(h: Option<u64>) -> bool {
    h is Some && h->Some_0 != 0
}

/// Decides the modern injection from what was found under the shell root
/// (after the shell message and its settle delay): `shell_view` and `workerw`
/// are the children of `progman` of those classes, `progman_rect` its
/// rectangle, `host_style` the host's current base style. Fails when an
/// anchor is missing or the rectangle cannot be read or sized; otherwise
/// returns the anchors and the plan to carry out.
pub fn inject_windows_11(
    host: u64,
    progman: u64,
    shell_view: Option<u64>,
    workerw: Option<u64>,
    progman_rect: Option<Rect>,
    host_style: u32,
) -> (r: Result<(ShellAnchors, Vec<WindowOp>), InjectionError>)
    requires
        progman != 0,
    ensures
        r is Ok <==> (found(shell_view) && found(workerw) && progman_rect is Some && rect_size(
            progman_rect->Some_0,
        ) is Some),
        r is Err ==> r->Err_0 == InjectionError::InjectionFailed,
        r matches Ok((a, plan)) ==> a == (ShellAnchors {
            progman,
            shell_view: shell_view->Some_0,
            workerw: workerw->Some_0,
        }) && a.wf() && plan@ == modern_plan(
            host,
            a,
            host_style,
            rect_size(progman_rect->Some_0)->Some_0.0,
            rect_size(progman_rect->Some_0)->Some_0.1,
        ),
{
    let sv = match shell_view {
        Some(h) if h != 0 => h,
        _ => return Err(InjectionError::InjectionFailed),
    };
    let ww = match workerw {
        Some(h) if h != 0 => h,
        _ => return Err(InjectionError::InjectionFailed),
    };
    let rect = match progman_rect {
        Some(r) => r,
        None => return Err(InjectionError::InjectionFailed),
    };
    let (width, height) = match size_of_rect(rect) {
        Some(s) => s,
        None => return Err(InjectionError::InjectionFailed),
    };
    let a = ShellAnchors { progman, shell_view: sv, workerw: ww };
    let plan = vec![
        WindowOp::SetStyle { hwnd: host, style: child_style(host_style) },
        WindowOp::SetParent { hwnd: host, parent: progman },
        WindowOp::SetOpaque { hwnd: host },
        WindowOp::Place { hwnd: host, target: ZTarget::Below(sv), x: 0, y: 0, width, height },
        WindowOp::Restack { hwnd: ww, target: ZTarget::Below(host) },
        WindowOp::ShowNoActivate { hwnd: host },
    ];
    assert(plan@ =~= modern_plan(host, a, host_style, width, height));
    Ok((a, plan))
}

/// The legacy re-parenting of the host under the wallpaper window `workerw`,
/// sized to the virtual desktop.
pub fn parent_to_workerw(host: u64, workerw: u64, host_style: u32, width: i32, height: i32) -> (r:
    Vec<WindowOp>)
    ensures
        r@ == legacy_plan(host, workerw, host_style, width, height),
{
    let plan = vec![
        WindowOp::SetStyle { hwnd: host, style: child_style(host_style) },
        WindowOp::SetParent { hwnd: host, parent: workerw },
        WindowOp::Place { hwnd: host, target: ZTarget::Bottom, x: 0, y: 0, width, height },
        WindowOp::ShowNoActivate { hwnd: host },
    ];
    assert(plan@ =~= legacy_plan(host, workerw, host_style, width, height));
    plan
}

proof fn lemma_apply_plan_step(m: DesktopModel, ops: Seq<WindowOp>)
    requires
        ops.len() > 0,
    ensures
        apply_plan(m, ops) == apply_plan(apply_op(m, ops[0]), ops.drop_first()),
{
}

/// After the modern plan has run to its end, the host is a visible, opaque
/// child of the shell root with a child style, its extended style (and so its
/// non-activating bit) is as it was, and in the shell root's z-order the icons
/// window is above the host and the host above the static wallpaper.
pub proof fn lemma_modern_injection_layout(
    m: DesktopModel,
    host: u64,
    a: ShellAnchors,
    style: u32,
    width: i32,
    height: i32,
)
    requires
        a.wf(),
        host != a.progman && host != a.shell_view && host != a.workerw,
        a.progman != a.shell_view && a.progman != a.workerw && a.shell_view != a.workerw,
        m.windows.contains_key(host),
        m.windows.contains_key(a.workerw),
        m.windows[a.workerw].parent == a.progman,
        stack_of(m, a.progman).contains(a.shell_view),
        stack_of(m, a.progman).contains(a.workerw),
    ensures
        ({
            let f = apply_plan(m, modern_plan(host, a, style, width, height));
            &&& f.windows[host].parent == a.progman
            &&& f.windows[host].style == child_style_of(style)
            &&& f.windows[host].ex_style == m.windows[host].ex_style
            &&& f.windows[host].opaque
            &&& f.windows[host].visible
            &&& f.windows[host].x == 0 && f.windows[host].y == 0
            &&& f.windows[host].width == width && f.windows[host].height == height
            &&& above(stack_of(f, a.progman), a.shell_view, host)
            &&& above(stack_of(f, a.progman), host, a.workerw)
        }),
{
    let plan = modern_plan(host, a, style, width, height);
    let m1 = apply_op(m, plan[0]);
    let m2 = apply_op(m1, plan[1]);
    let m3 = apply_op(m2, plan[2]);
    let m4 = apply_op(m3, plan[3]);
    let m5 = apply_op(m4, plan[4]);
    let m6 = apply_op(m5, plan[5]);
    let p1 = plan.drop_first();
    let p2 = p1.drop_first();
    let p3 = p2.drop_first();
    let p4 = p3.drop_first();
    let p5 = p4.drop_first();
    let p6 = p5.drop_first();
    lemma_apply_plan_step(m, plan);
    lemma_apply_plan_step(m1, p1);
    lemma_apply_plan_step(m2, p2);
    lemma_apply_plan_step(m3, p3);
    lemma_apply_plan_step(m4, p4);
    lemma_apply_plan_step(m5, p5);
    assert(p6.len() == 0);
    assert(apply_plan(m, plan) == m6);

    // After re-parenting, the host is on top of the shell root's children,
    // which still hold both anchors.
    let old = m1.windows[host].parent;
    let c1 = m1.children.insert(old, detach(stack_of(m1, old), host));
    let m1b = DesktopModel { children: c1, ..m1 };
    let s_mid = stack_of(m1b, a.progman);
    assert(stack_of(m1, a.progman) == stack_of(m, a.progman));
    if old == a.progman {
        lemma_detach_keeps_member(stack_of(m1, a.progman), host, a.shell_view);
        lemma_detach_keeps_member(stack_of(m1, a.progman), host, a.workerw);
    }
    assert(s_mid.contains(a.shell_view));
    assert(s_mid.contains(a.workerw));
    lemma_detach_keeps_member(s_mid, host, a.shell_view);
    lemma_detach_keeps_member(s_mid, host, a.workerw);
    let s2 = seq![host] + detach(s_mid, host);
    assert(stack_of(m2, a.progman) == s2);
    let i_sv = choose|i: int| 0 <= i < detach(s_mid, host).len() && detach(s_mid, host)[i]
        == a.shell_view;
    assert(s2[i_sv + 1] == a.shell_view);
    let i_ww = choose|i: int| 0 <= i < detach(s_mid, host).len() && detach(s_mid, host)[i]
        == a.workerw;
    assert(s2[i_ww + 1] == a.workerw);
    assert(m3.windows[host].parent == a.progman);
    assert(stack_of(m3, a.progman) == s2);

    // Placing the host just below the icons.
    lemma_detach_keeps_member(s2, host, a.shell_view);
    lemma_detach_keeps_member(s2, host, a.workerw);
    let s4 = insert_at(detach(s2, host), ZTarget::Below(a.shell_view), host);
    lemma_insert_below(detach(s2, host), a.shell_view, host);
    lemma_insert_keeps_member(detach(s2, host), ZTarget::Below(a.shell_view), host, a.workerw);
    assert(stack_of(m4, a.progman) == s4);
    assert(m4.windows[a.workerw].parent == a.progman);

    // Lowering the static wallpaper just below the host.
    lemma_detach_keeps_above(s4, a.workerw, a.shell_view, host);
    let i_h = choose|i: int| 0 <= i < s4.len() && s4[i] == host;
    lemma_detach_keeps_member(s4, a.workerw, host);
    let s5 = insert_at(detach(s4, a.workerw), ZTarget::Below(host), a.workerw);
    lemma_insert_keeps_above(detach(s4, a.workerw), ZTarget::Below(host), a.workerw, a.shell_view, host);
    lemma_insert_below(detach(s4, a.workerw), host, a.workerw);
    assert(stack_of(m5, a.progman) == s5);
    assert(stack_of(m6, a.progman) == s5);
}

/// After the legacy plan has run to its end, the host is a visible child of
/// the wallpaper window with a child style, at the bottom of its z-order, its
/// extended style is as it was, and the top-level window that holds the icons
/// is still above the wallpaper window.
pub proof fn lemma_legacy_injection_layout(
    m: DesktopModel,
    host: u64,
    workerw: u64,
    icons_holder: u64,
    style: u32,
    width: i32,
    height: i32,
)
    requires
        host != 0 && workerw != 0 && icons_holder != 0,
        host != workerw && host != icons_holder && workerw != icons_holder,
        m.windows.contains_key(host),
        above(stack_of(m, 0), icons_holder, workerw),
    ensures
        ({
            let f = apply_plan(m, legacy_plan(host, workerw, style, width, height));
            &&& f.windows[host].parent == workerw
            &&& f.windows[host].style == child_style_of(style)
            &&& f.windows[host].ex_style == m.windows[host].ex_style
            &&& f.windows[host].visible
            &&& f.windows[host].x == 0 && f.windows[host].y == 0
            &&& f.windows[host].width == width && f.windows[host].height == height
            &&& stack_of(f, workerw).len() > 0
            &&& stack_of(f, workerw).last() == host
            &&& above(stack_of(f, 0), icons_holder, workerw)
        }),
{
    let plan = legacy_plan(host, workerw, style, width, height);
    let m1 = apply_op(m, plan[0]);
    let m2 = apply_op(m1, plan[1]);
    let m3 = apply_op(m2, plan[2]);
    let m4 = apply_op(m3, plan[3]);
    let p1 = plan.drop_first();
    let p2 = p1.drop_first();
    let p3 = p2.drop_first();
    let p4 = p3.drop_first();
    lemma_apply_plan_step(m, plan);
    lemma_apply_plan_step(m1, p1);
    lemma_apply_plan_step(m2, p2);
    lemma_apply_plan_step(m3, p3);
    assert(p4.len() == 0);
    assert(apply_plan(m, plan) == m4);

    let old = m1.windows[host].parent;
    assert(stack_of(m1, 0) == stack_of(m, 0));
    if old == 0 {
        lemma_detach_keeps_above(stack_of(m1, 0), host, icons_holder, workerw);
    }
    assert(above(stack_of(m2, 0), icons_holder, workerw));
    assert(m2.windows[host].parent == workerw);
    let s3 = insert_at(detach(stack_of(m2, workerw), host), ZTarget::Bottom, host);
    assert(stack_of(m3, workerw) == s3);
    assert(s3.last() == host);
    assert(stack_of(m3, 0) == stack_of(m2, 0));
}

} // verus!

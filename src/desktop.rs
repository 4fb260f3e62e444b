//! Window operations that the side-car performs on the shell's window tree,
//! and a model of that tree against which their effect is stated.
use vstd::prelude::*;

verus! {

/// `WS_POPUP`: a top-level window without a parent.
pub const WS_POPUP: u32 = 0x8000_0000;

/// `WS_CHILD`: a window placed inside its parent's client area.
pub const WS_CHILD: u32 = 0x4000_0000;

/// `WS_DISABLED`: a window that takes no input.
pub const WS_DISABLED: u32 = 0x0800_0000;

/// Where a window goes in its siblings' z-order.
#[derive(Debug, Clone, Copy, PartialEq, Eq, Structural)]
pub enum ZTarget {
    /// Below every sibling.
    Bottom,
    /// Just below the given sibling.
    Below(u64),
}

/// One mutation of the window tree. Each is a single OS call; a plan is a
/// sequence of them that must all succeed.
#[derive(Debug, Clone, Copy, PartialEq, Eq, Structural)]
pub enum WindowOp {
    /// Replace the base style of `hwnd`.
    SetStyle { hwnd: u64, style: u32 },
    /// Make `hwnd` a child of `parent`.
    SetParent { hwnd: u64, parent: u64 },
    /// Make the layered window `hwnd` fully opaque (alpha 255).
    SetOpaque { hwnd: u64 },
    /// Move and size `hwnd` in parent coordinates and restack it; the frame is
    /// recomputed and the window is not activated.
    Place { hwnd: u64, target: ZTarget, x: i32, y: i32, width: i32, height: i32 },
    /// Restack `hwnd` without moving, sizing or activating it.
    Restack { hwnd: u64, target: ZTarget },
    /// Show `hwnd` without activating it.
    ShowNoActivate { hwnd: u64 },
}

/// What the model records of one window.
pub struct WindowRecord {
    pub parent: u64,
    pub style: u32,
    pub ex_style: u32,
    pub opaque: bool,
    pub visible: bool,
    pub x: int,
    pub y: int,
    pub width: int,
    pub height: int,
}

/// The window tree: each window's record, and for each parent the z-order of
/// its children, topmost first. Parent 0 stands for the desktop itself, whose
/// children are the top-level windows.
pub struct DesktopModel {
    pub windows: Map<u64, WindowRecord>,
    pub children: Map<u64, Seq<u64>>,
}

/// `a` comes before (above) `b` in the z-order `s`.
pub open spec fn above(s: Seq<u64>, a: u64, b: u64) -> bool {
    exists|i: int, j: int| 0 <= i < j < s.len() && #[trigger] s[i] == a && #[trigger] s[j] == b
}

/// `s` without the occurrence of `h` that `index_of` picks.
pub open spec fn detach(s: Seq<u64>, h: u64) -> Seq<u64> {
    if s.contains(h) {
        s.remove(s.index_of(h))
    } else {
        s
    }
}

/// `s` with `h` inserted at `target`; an anchor that is not a sibling counts
/// as the bottom.
pub open spec fn insert_at(s: Seq<u64>, target: ZTarget, h: u64) -> Seq<u64> {
    match target {
        ZTarget::Bottom => s.push(h),
        ZTarget::Below(a) => if s.contains(a) {
            s.insert(s.index_of(a) + 1, h)
        } else {
            s.push(h)
        },
    }
}

pub open spec fn stack_of(m: DesktopModel, p: u64) -> Seq<u64> {
    if m.children.contains_key(p) {
        m.children[p]
    } else {
        Seq::empty()
    }
}

pub open spec fn restack(m: DesktopModel, h: u64, target: ZTarget) -> DesktopModel {
    let p = m.windows[h].parent;
    DesktopModel {
        children: m.children.insert(p, insert_at(detach(stack_of(m, p), h), target, h)),
        ..m
    }
}

/// The effect of one operation on the model.
pub open spec fn apply_op(m: DesktopModel, op: WindowOp) -> DesktopModel {
    match op {
        WindowOp::SetStyle { hwnd, style } => DesktopModel {
            windows: m.windows.insert(hwnd, WindowRecord { style, ..m.windows[hwnd] }),
            ..m
        },
        WindowOp::SetParent { hwnd, parent } => {
            let old = m.windows[hwnd].parent;
            let c1 = m.children.insert(old, detach(stack_of(m, old), hwnd));
            let m1 = DesktopModel { children: c1, ..m };
            DesktopModel {
                windows: m.windows.insert(hwnd, WindowRecord { parent, ..m.windows[hwnd] }),
                children: c1.insert(parent, seq![hwnd] + detach(stack_of(m1, parent), hwnd)),
            }
        },
        WindowOp::SetOpaque { hwnd } => DesktopModel {
            windows: m.windows.insert(hwnd, WindowRecord { opaque: true, ..m.windows[hwnd] }),
            ..m
        },
        WindowOp::Place { hwnd, target, x, y, width, height } => {
            let m1 = restack(m, hwnd, target);
            DesktopModel {
                windows: m1.windows.insert(
                    hwnd,
                    WindowRecord {
                        x: x as int,
                        y: y as int,
                        width: width as int,
                        height: height as int,
                        ..m1.windows[hwnd]
                    },
                ),
                ..m1
            }
        },
        WindowOp::Restack { hwnd, target } => restack(m, hwnd, target),
        WindowOp::ShowNoActivate { hwnd } => DesktopModel {
            windows: m.windows.insert(hwnd, WindowRecord { visible: true, ..m.windows[hwnd] }),
            ..m
        },
    }
}

/// The effect of a whole plan, first operation first.
pub open spec fn apply_plan(m: DesktopModel, ops: Seq<WindowOp>) -> DesktopModel
    decreases ops.len(),
{
    if ops.len() == 0 {
        m
    } else {
        apply_plan(apply_op(m, ops[0]), ops.drop_first())
    }
}

/// Removing a third window keeps two windows' relative order.
pub proof fn lemma_detach_keeps_above(s: Seq<u64>, h: u64, a: u64, b: u64)
    requires
        above(s, a, b),
        h != a,
        h != b,
    ensures
        above(detach(s, h), a, b),
{
    if s.contains(h) {
        let k = s.index_of(h);
        let (i, j) = choose|i: int, j: int|
            0 <= i < j < s.len() && #[trigger] s[i] == a && #[trigger] s[j] == b;
        let r = s.remove(k);
        s.remove_ensures(k);
        let i2 = if i < k { i } else { i - 1 };
        let j2 = if j < k { j } else { j - 1 };
        assert(r[i2] == a && r[j2] == b);
    }
}

/// Removing another window keeps a window in the z-order.
pub proof fn lemma_detach_keeps_member(s: Seq<u64>, h: u64, a: u64)
    requires
        s.contains(a),
        h != a,
    ensures
        detach(s, h).contains(a),
{
    if s.contains(h) {
        let k = s.index_of(h);
        let i = choose|i: int| 0 <= i < s.len() && s[i] == a;
        s.remove_ensures(k);
        let i2 = if i < k { i } else { i - 1 };
        assert(s.remove(k)[i2] == a);
    }
}

/// Inserting a window keeps the relative order of the others.
pub proof fn lemma_insert_keeps_above(s: Seq<u64>, target: ZTarget, h: u64, a: u64, b: u64)
    requires
        above(s, a, b),
    ensures
        above(insert_at(s, target, h), a, b),
{
    let (i, j) = choose|i: int, j: int|
        0 <= i < j < s.len() && #[trigger] s[i] == a && #[trigger] s[j] == b;
    let r = insert_at(s, target, h);
    match target {
        ZTarget::Below(x) => {
            if s.contains(x) {
                let k = s.index_of(x) + 1;
                s.insert_ensures(k, h);
                let i2 = if i < k { i } else { i + 1 };
                let j2 = if j < k { j } else { j + 1 };
                assert(r[i2] == a && r[j2] == b);
            } else {
                assert(r[i] == a && r[j] == b);
            }
        },
        ZTarget::Bottom => {
            assert(r[i] == a && r[j] == b);
        },
    }
}

/// Inserting a window keeps the others in the z-order.
pub proof fn lemma_insert_keeps_member(s: Seq<u64>, target: ZTarget, h: u64, a: u64)
    requires
        s.contains(a),
    ensures
        insert_at(s, target, h).contains(a),
{
    let i = choose|i: int| 0 <= i < s.len() && s[i] == a;
    let r = insert_at(s, target, h);
    match target {
        ZTarget::Below(x) => {
            if s.contains(x) {
                let k = s.index_of(x) + 1;
                s.insert_ensures(k, h);
                let i2 = if i < k { i } else { i + 1 };
                assert(r[i2] == a);
            } else {
                assert(r[i] == a);
            }
        },
        ZTarget::Bottom => {
            assert(r[i] == a);
        },
    }
}

/// A window inserted below a sibling ends up just below it.
pub proof fn lemma_insert_below(s: Seq<u64>, a: u64, h: u64)
    requires
        s.contains(a),
    ensures
        above(insert_at(s, ZTarget::Below(a), h), a, h),
        insert_at(s, ZTarget::Below(a), h).contains(h),
{
    let k = s.index_of(a);
    s.insert_ensures(k + 1, h);
    let r = insert_at(s, ZTarget::Below(a), h);
    assert(r[k] == a && r[k + 1] == h);
}

} // verus!

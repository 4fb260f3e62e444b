//! The media surface: how the host window is created and answers messages,
//! how a file path becomes the URL that the media engine opens, and the order
//! in which the surface's resources are created and released.
use vstd::prelude::*;
use crate::os_version::WindowsVersion;

verus! {

pub const WS_EX_LAYERED: u32 = 0x0008_0000;

pub const WS_EX_TOOLWINDOW: u32 = 0x0000_0080;

pub const WS_EX_NOACTIVATE: u32 = 0x0800_0000;

pub const WS_EX_NOPARENTNOTIFY: u32 = 0x0000_0004;

pub const WS_EX_TRANSPARENT: u32 = 0x0000_0020;

/// The extended style of the host window: layered on Windows 11 24H2 and
/// later, transparent before; always a non-activating tool window that does
/// not notify its parent.
pub open spec fn host_ex_style_of(v: WindowsVersion) -> u32 {
    if v == WindowsVersion::Windows1124H2Plus {
        WS_EX_LAYERED | WS_EX_TOOLWINDOW | WS_EX_NOACTIVATE | WS_EX_NOPARENTNOTIFY
    } else {
        WS_EX_TRANSPARENT | WS_EX_TOOLWINDOW | WS_EX_NOACTIVATE | WS_EX_NOPARENTNOTIFY
    }
}

pub fn host_ex_style(v: WindowsVersion) -> (r: u32)
    ensures
        r == host_ex_style_of(v),
        r & WS_EX_NOACTIVATE == WS_EX_NOACTIVATE,
        r & WS_EX_TOOLWINDOW == WS_EX_TOOLWINDOW,
        v == WindowsVersion::Windows1124H2Plus ==> r & WS_EX_LAYERED == WS_EX_LAYERED,
{
    let r = if v.is_windows_11_24h2_plus() {
        WS_EX_LAYERED | WS_EX_TOOLWINDOW | WS_EX_NOACTIVATE | WS_EX_NOPARENTNOTIFY
    } else {
        WS_EX_TRANSPARENT | WS_EX_TOOLWINDOW | WS_EX_NOACTIVATE | WS_EX_NOPARENTNOTIFY
    };
    assert(0x0008_0000u32 | 0x0000_0080u32 | 0x0800_0000u32 | 0x0000_0004u32 == 0x0808_0084u32)
        by (bit_vector);
    assert(0x0000_0020u32 | 0x0000_0080u32 | 0x0800_0000u32 | 0x0000_0004u32 == 0x0800_00A4u32)
        by (bit_vector);
    assert(0x0808_0084u32 & 0x0800_0000u32 == 0x0800_0000u32) by (bit_vector);
    assert(0x0800_00A4u32 & 0x0800_0000u32 == 0x0800_0000u32) by (bit_vector);
    assert(0x0808_0084u32 & 0x0000_0080u32 == 0x0000_0080u32) by (bit_vector);
    assert(0x0800_00A4u32 & 0x0000_0080u32 == 0x0000_0080u32) by (bit_vector);
    assert(0x0808_0084u32 & 0x0008_0000u32 == 0x0008_0000u32) by (bit_vector);
    r
}

/// The host window is created non-activating on every build; injection keeps
/// its extended style, so it stays non-activating once spliced in.
pub proof fn lemma_host_is_non_activating(v: WindowsVersion)
    ensures
        host_ex_style_of(v) & WS_EX_NOACTIVATE == WS_EX_NOACTIVATE,
{
    assert(0x0008_0000u32 | 0x0000_0080u32 | 0x0800_0000u32 | 0x0000_0004u32 == 0x0808_0084u32)
        by (bit_vector);
    assert(0x0000_0020u32 | 0x0000_0080u32 | 0x0800_0000u32 | 0x0000_0004u32 == 0x0800_00A4u32)
        by (bit_vector);
    assert(0x0808_0084u32 & 0x0800_0000u32 == 0x0800_0000u32) by (bit_vector);
    assert(0x0800_00A4u32 & 0x0800_0000u32 == 0x0800_0000u32) by (bit_vector);
}

/// Whether the freshly created host window is made opaque at once (alpha
/// 255), which only the layered window of 24H2 and later needs.
pub fn host_needs_opaque_alpha(v: WindowsVersion) -> (r: bool)
    ensures
        r == (v == WindowsVersion::Windows1124H2Plus),
{
    v.is_windows_11_24h2_plus()
}

pub const WM_DESTROY: u32 = 0x0002;

pub const WM_ACTIVATE: u32 = 0x0006;

pub const WM_SETFOCUS: u32 = 0x0007;

pub const WM_PAINT: u32 = 0x000F;

pub const WM_ERASEBKGND: u32 = 0x0014;

pub const WM_SETCURSOR: u32 = 0x0020;

pub const WM_MOUSEACTIVATE: u32 = 0x0021;

pub const WM_NCHITTEST: u32 = 0x0084;

/// `MA_NOACTIVATE`: a click does not activate the window.
pub const MA_NOACTIVATE: i64 = 3;

/// `HTNOWHERE`: the point is on no part of the window.
pub const HTNOWHERE: i64 = 0;

/// How the host window answers a message.
#[derive(Debug, Clone, Copy, PartialEq, Eq, Structural)]
pub enum MessageReply {
    /// Return this value.
    Value(i64),
    /// Post the quit message, then return 0.
    Quit,
    /// Validate the update region, then return 0.
    Paint,
    /// Let the default window procedure answer.
    Default,
}

pub open spec fn reply_of(msg: u32) -> MessageReply {
    if msg == WM_DESTROY {
        MessageReply::Quit
    } else if msg == WM_MOUSEACTIVATE {
        MessageReply::Value(MA_NOACTIVATE)
    } else if msg == WM_NCHITTEST {
        MessageReply::Value(HTNOWHERE)
    } else if msg == WM_SETCURSOR || msg == WM_ERASEBKGND {
        MessageReply::Value(1)
    } else if msg == WM_ACTIVATE || msg == WM_SETFOCUS {
        MessageReply::Value(0)
    } else if msg == WM_PAINT {
        MessageReply::Paint
    } else {
        MessageReply::Default
    }
}

/// The host window's procedure: inert to activation, hit-testing, focus,
/// cursor and background erasure; destruction ends the message loop.
pub fn wnd_proc_reply(msg: u32) -> (r: MessageReply)
    ensures
        r == reply_of(msg),
{
    if msg == WM_DESTROY {
        MessageReply::Quit
    } else if msg == WM_MOUSEACTIVATE {
        MessageReply::Value(MA_NOACTIVATE)
    } else if msg == WM_NCHITTEST {
        MessageReply::Value(HTNOWHERE)
    } else if msg == WM_SETCURSOR || msg == WM_ERASEBKGND {
        MessageReply::Value(1)
    } else if msg == WM_ACTIVATE || msg == WM_SETFOCUS {
        MessageReply::Value(0)
    } else if msg == WM_PAINT {
        MessageReply::Paint
    } else {
        MessageReply::Default
    }
}

/// `MF_MEDIA_ENGINE_EVENT_ERROR`.
pub const ENGINE_EVENT_ERROR: u32 = 5;

/// The media engine's notifications: all are ignored but the error, which is
/// reported.
pub fn engine_event_is_error(event: u32) -> (r: bool)
    ensures
        r == (event == ENGINE_EVENT_ERROR),
{
    event == ENGINE_EVENT_ERROR
}

pub open spec fn verbatim_prefix() -> Seq<char> {
    seq!['\\', '\\', '?', '\\']
}

/// A path without its extended-length prefix `\\?\`.
pub open spec fn strip_verbatim(p: Seq<char>) -> Seq<char> {
    if p.len() >= 4 && p.subrange(0, 4) == verbatim_prefix() {
        p.subrange(4, p.len() as int)
    } else {
        p
    }
}

pub open spec fn forward(c: char) -> char {
    if c == '\\' {
        '/'
    } else {
        c
    }
}

/// Every backslash turned into a forward slash.
pub open spec fn forward_slashes(p: Seq<char>) -> Seq<char> {
    Seq::new(p.len(), |i: int| forward(p[i]))
}

pub open spec fn file_scheme() -> Seq<char> {
    seq!['f', 'i', 'l', 'e', ':']
}

/// The URL that the media engine opens for a path: the path without its
/// extended-length prefix and with forward slashes, behind `file:///` unless
/// it already is a `file:` URL.
pub open spec fn media_url_of(p: Seq<char>) -> Seq<char> {
    let c = forward_slashes(strip_verbatim(p));
    if c.len() >= 5 && c.subrange(0, 5) == file_scheme() {
        c
    } else {
        "file:///"@ + c
    }
}

pub fn media_url(path: &str) -> (r: String)
    ensures
        r@ == media_url_of(path@),
{
    let n = path.unicode_len();
    let start: usize = if n >= 4 && path.get_char(0) == '\\' && path.get_char(1) == '\\'
        && path.get_char(2) == '?' && path.get_char(3) == '\\' {
        4
    } else {
        0
    };
    let ghost stripped = strip_verbatim(path@);
    proof {
        if start == 4 {
            assert(path@.subrange(0, 4) =~= verbatim_prefix());
        } else if n >= 4 {
            if path@.subrange(0, 4) == verbatim_prefix() {
                assert(path@[0] == path@.subrange(0, 4)[0]);
                assert(path@[1] == path@.subrange(0, 4)[1]);
                assert(path@[2] == path@.subrange(0, 4)[2]);
                assert(path@[3] == path@.subrange(0, 4)[3]);
            }
        }
        assert(stripped =~= path@.subrange(start as int, n as int));
    }
    let is_file_url = n - start >= 5 && path.get_char(start) == 'f' && path.get_char(start + 1)
        == 'i' && path.get_char(start + 2) == 'l' && path.get_char(start + 3) == 'e'
        && path.get_char(start + 4) == ':';
    let ghost c = forward_slashes(stripped);
    proof {
        if c.len() >= 5 {
            if is_file_url {
                assert(c.subrange(0, 5) =~= file_scheme());
            } else if c.subrange(0, 5) == file_scheme() {
                assert(c[0] == c.subrange(0, 5)[0]);
                assert(c[1] == c.subrange(0, 5)[1]);
                assert(c[2] == c.subrange(0, 5)[2]);
                assert(c[3] == c.subrange(0, 5)[3]);
                assert(c[4] == c.subrange(0, 5)[4]);
            }
        }
    }
    let mut out = if is_file_url {
        String::new()
    } else {
        String::from_str("file:///")
    };
    let ghost prefix = out@;
    let mut seg: usize = start;
    let mut i: usize = start;
    proof {
        reveal_strlit("/");
    }
    while i < n
        invariant
            n == path@.len(),
            start <= seg <= i <= n,
            out@ == prefix + forward_slashes(path@.subrange(start as int, seg as int)),
            forall|k: int| seg <= k < i ==> path@[k] != '\\',
            "/"@ == seq!['/'],
        decreases n - i,
    {
        if path.get_char(i) == '\\' {
            let piece = path.substring_char(seg, i);
            proof {
                let a = forward_slashes(path@.subrange(start as int, seg as int));
                let b = forward_slashes(path@.subrange(start as int, i as int + 1));
                assert(b =~= a + piece@ + seq!['/']);
            }
            out.append(piece);
            out.append("/");
            seg = i + 1;
        }
        i = i + 1;
    }
    let rest = path.substring_char(seg, n);
    proof {
        let a = forward_slashes(path@.subrange(start as int, seg as int));
        let b = forward_slashes(path@.subrange(start as int, n as int));
        assert(b =~= a + rest@);
    }
    out.append(rest);
    proof {
        if !is_file_url {
            reveal_strlit("file:///");
        }
    }
    out
}

/// Failures of the media surface.
#[derive(Debug, Clone, Copy, PartialEq, Eq, Structural)]
pub enum MediaError {
    HostWindowCreationFailed,
    DeviceCreationFailed,
    EngineCreationFailed,
    MediaLoadFailed,
}

/// One resource operation of the media surface.
#[derive(Debug, Clone, Copy, PartialEq, Eq, Structural)]
pub enum SurfaceStep {
    /// Pause the engine and shut it down.
    ShutdownEngine,
    /// Build a new engine on the device, rendering into the host window.
    CreateEngine,
    /// Destroy the host window.
    DestroyWindow(u64),
    /// Release the graphics device and the event sink.
    ReleaseDevice,
    /// Shut Media Foundation down.
    MediaShutdown,
    /// Leave the COM apartment.
    ComUninitialize,
}

/// Which resources of the media surface are live.
#[derive(Debug, Clone, Copy, PartialEq, Eq, Structural)]
pub struct SurfaceState {
    /// The host window; 0 once destroyed.
    pub hwnd: u64,
    pub engine_live: bool,
    pub device_live: bool,
    pub com_initialized: bool,
    pub media_initialized: bool,
}

pub open spec fn engine_count(s: SurfaceState) -> int {
    if s.engine_live {
        1
    } else {
        0
    }
}

/// The number of live engines after running `steps` from `n` live engines.
pub open spec fn engines_after(n: int, steps: Seq<SurfaceStep>) -> int
    decreases steps.len(),
{
    if steps.len() == 0 {
        n
    } else {
        let m = match steps[0] {
            SurfaceStep::ShutdownEngine => n - 1,
            SurfaceStep::CreateEngine => n + 1,
            _ => n,
        };
        engines_after(m, steps.drop_first())
    }
}

pub open spec fn reload_steps(s: SurfaceState) -> Seq<SurfaceStep> {
    if s.engine_live {
        seq![SurfaceStep::ShutdownEngine, SurfaceStep::CreateEngine]
    } else {
        seq![SurfaceStep::CreateEngine]
    }
}

pub open spec fn shutdown_steps(s: SurfaceState) -> Seq<SurfaceStep> {
    (if s.engine_live {
        seq![SurfaceStep::ShutdownEngine]
    } else {
        Seq::empty()
    }) + (if s.hwnd != 0 {
        seq![SurfaceStep::DestroyWindow(s.hwnd)]
    } else {
        Seq::empty()
    }) + seq![SurfaceStep::ReleaseDevice] + (if s.media_initialized {
        seq![SurfaceStep::MediaShutdown]
    } else {
        Seq::empty()
    }) + (if s.com_initialized {
        seq![SurfaceStep::ComUninitialize]
    } else {
        Seq::empty()
    })
}

impl SurfaceState {
    /// A surface whose window, device and engine were all created, in that
    /// order; `com_initialized` and `media_initialized` tell whether this
    /// component initialized those subsystems.
    pub fn created(hwnd: u64, com_initialized: bool, media_initialized: bool) -> (r: SurfaceState)
        ensures
            r == (SurfaceState {
                hwnd,
                engine_live: true,
                device_live: true,
                com_initialized,
                media_initialized,
            }),
    {
        SurfaceState { hwnd, engine_live: true, device_live: true, com_initialized, media_initialized }
    }

    /// A file can be loaded, and playback started, only with a live engine.
    pub fn check_engine(&self) -> (r: Result<(), MediaError>)
        ensures
            r is Ok <==> self.engine_live,
            r is Err ==> r->Err_0 == MediaError::EngineCreationFailed,
    {
        if self.engine_live {
            Ok(())
        } else {
            Err(MediaError::EngineCreationFailed)
        }
    }

    /// Replaces the engine: the old one, if live, is shut down before the new
    /// one is built. Without a device nothing can be built: the old engine is
    /// still shut down and `EngineCreationFailed` returned with that step.
    pub fn reload_media_engine(&mut self) -> (r: (Vec<SurfaceStep>, Result<(), MediaError>))
        ensures
            old(self).device_live ==> r.0@ == reload_steps(*old(self)) && r.1 is Ok
                && *final(self) == (SurfaceState { engine_live: true, ..*old(self) }),
            !old(self).device_live ==> r.0@ == reload_steps(*old(self)).drop_last() && r.1
                == Err::<(), MediaError>(MediaError::EngineCreationFailed) && *final(self)
                == (SurfaceState { engine_live: false, ..*old(self) }),
    {
        let mut steps: Vec<SurfaceStep> = Vec::new();
        if self.engine_live {
            steps.push(SurfaceStep::ShutdownEngine);
            self.engine_live = false;
        }
        if !self.device_live {
            proof {
                if old(self).engine_live {
                    assert(steps@ =~= reload_steps(*old(self)).drop_last());
                } else {
                    assert(steps@ =~= reload_steps(*old(self)).drop_last());
                }
            }
            return (steps, Err(MediaError::EngineCreationFailed));
        }
        steps.push(SurfaceStep::CreateEngine);
        self.engine_live = true;
        assert(steps@ =~= reload_steps(*old(self)));
        (steps, Ok(()))
    }

    /// Tears the surface down: the engine before the window it renders into,
    /// then the device, then the subsystems that this component initialized.
    pub fn shutdown(&mut self) -> (r: Vec<SurfaceStep>)
        ensures
            r@ == shutdown_steps(*old(self)),
            *final(self) == (SurfaceState {
                hwnd: 0,
                engine_live: false,
                device_live: false,
                com_initialized: false,
                media_initialized: false,
            }),
    {
        let mut steps: Vec<SurfaceStep> = Vec::new();
        let ghost s = *self;
        if self.engine_live {
            steps.push(SurfaceStep::ShutdownEngine);
        }
        let ghost a = steps@;
        if self.hwnd != 0 {
            steps.push(SurfaceStep::DestroyWindow(self.hwnd));
        }
        let ghost b = steps@;
        steps.push(SurfaceStep::ReleaseDevice);
        let ghost c = steps@;
        if self.media_initialized {
            steps.push(SurfaceStep::MediaShutdown);
        }
        let ghost d = steps@;
        if self.com_initialized {
            steps.push(SurfaceStep::ComUninitialize);
        }
        proof {
            let e1 = if s.engine_live {
                seq![SurfaceStep::ShutdownEngine]
            } else {
                Seq::<SurfaceStep>::empty()
            };
            let e2 = if s.hwnd != 0 {
                seq![SurfaceStep::DestroyWindow(s.hwnd)]
            } else {
                Seq::<SurfaceStep>::empty()
            };
            let e4 = if s.media_initialized {
                seq![SurfaceStep::MediaShutdown]
            } else {
                Seq::<SurfaceStep>::empty()
            };
            let e5 = if s.com_initialized {
                seq![SurfaceStep::ComUninitialize]
            } else {
                Seq::<SurfaceStep>::empty()
            };
            assert(a =~= e1);
            assert(b =~= e1 + e2);
            assert(c =~= e1 + e2 + seq![SurfaceStep::ReleaseDevice]);
            assert(d =~= e1 + e2 + seq![SurfaceStep::ReleaseDevice] + e4);
            assert(steps@ =~= shutdown_steps(s));
        }
        self.hwnd = 0;
        self.engine_live = false;
        self.device_live = false;
        self.media_initialized = false;
        self.com_initialized = false;
        steps
    }
}

/// A reload never has two engines alive at once: after every prefix of its
/// steps at most one engine exists, and exactly one at the end.
pub proof fn lemma_reload_keeps_one_engine(s: SurfaceState)
    ensures
        forall|k: int|
            0 <= k <= reload_steps(s).len() ==> #[trigger] engines_after(
                engine_count(s),
                reload_steps(s).take(k),
            ) <= 1,
        engines_after(engine_count(s), reload_steps(s)) == 1,
{
    let st = reload_steps(s);
    reveal_with_fuel(engines_after, 3);
    assert forall|k: int| 0 <= k <= st.len() implies #[trigger] engines_after(
        engine_count(s),
        st.take(k),
    ) <= 1 by {
        if k == 0 {
            assert(st.take(k).len() == 0);
        } else if k == 1 {
            assert(st.take(k) =~= seq![st[0]]);
            assert(seq![st[0]].drop_first().len() == 0);
        } else {
            assert(st.take(k) =~= st);
            assert(st.drop_first() =~= seq![st[1]]);
            assert(seq![st[1]].drop_first().len() == 0);
        }
    }
    if s.engine_live {
        assert(st.drop_first() =~= seq![st[1]]);
        assert(seq![st[1]].drop_first().len() == 0);
    } else {
        assert(st.drop_first().len() == 0);
    }
}

/// Teardown shuts the engine down before it destroys the window the engine
/// renders into.
pub proof fn lemma_shutdown_engine_before_window(s: SurfaceState)
    requires
        s.engine_live,
        s.hwnd != 0,
    ensures
        shutdown_steps(s)[0] == SurfaceStep::ShutdownEngine,
        shutdown_steps(s)[1] == SurfaceStep::DestroyWindow(s.hwnd),
{
}

} // verus!

//! The playback controller: which side-car runs, what is persisted about it,
//! and how a persisted wallpaper is brought back at startup. Every decision is
//! made here; spawning, killing, downloading and file access happen around it.
use vstd::prelude::*;

verus! {

/// The persisted record of the active wallpaper.
#[derive(Debug)]
pub struct VideoWallpaperState {
    pub is_active: bool,
    /// The local file that plays.
    pub video_path: Option<String>,
    /// `file://` followed by `video_path`.
    pub video_url: Option<String>,
    /// Where the file was downloaded from, kept for a later re-download.
    pub original_url: Option<String>,
    /// When the wallpaper was set, in Unix seconds.
    pub set_at: Option<i64>,
}

/// The persisted record as mathematical values.
pub struct StateView {
    pub is_active: bool,
    pub video_path: Option<Seq<char>>,
    pub video_url: Option<Seq<char>>,
    pub original_url: Option<Seq<char>>,
    pub set_at: Option<i64>,
}

pub open spec fn opt_view(o: Option<String>) -> Option<Seq<char>> {
    match o {
        Some(s) => Some(s@),
        None => None,
    }
}

impl View for VideoWallpaperState {
    type V = StateView;

    open spec fn view(&self) -> StateView {
        StateView {
            is_active: self.is_active,
            video_path: opt_view(self.video_path),
            video_url: opt_view(self.video_url),
            original_url: opt_view(self.original_url),
            set_at: self.set_at,
        }
    }
}

pub fn clone_opt(o: &Option<String>) -> (r: Option<String>)
    ensures
        opt_view(r) == opt_view(*o),
{
    match o {
        Some(s) => Some(s.clone()),
        None => None,
    }
}

impl VideoWallpaperState {
    /// No wallpaper, nothing remembered.
    pub fn inactive() -> (r: VideoWallpaperState)
        ensures
            r@ == empty_state(),
    {
        VideoWallpaperState {
            is_active: false,
            video_path: None,
            video_url: None,
            original_url: None,
            set_at: None,
        }
    }

    pub fn duplicate(&self) -> (r: VideoWallpaperState)
        ensures
            r@ == self@,
    {
        VideoWallpaperState {
            is_active: self.is_active,
            video_path: clone_opt(&self.video_path),
            video_url: clone_opt(&self.video_url),
            original_url: clone_opt(&self.original_url),
            set_at: self.set_at,
        }
    }
}

pub open spec fn empty_state() -> StateView {
    StateView {
        is_active: false,
        video_path: None,
        video_url: None,
        original_url: None,
        set_at: None,
    }
}

/// The URL under which a local file is recorded.
pub open spec fn file_url_of(path: Seq<char>) -> Seq<char> {
    "file://"@ + path
}

pub fn file_url(path: &str) -> (r: String)
    ensures
        r@ == file_url_of(path@),
{
    let mut r = String::from_str("file://");
    r.append(path);
    r
}

pub open spec fn is_separator(c: char) -> bool {
    c == '/' || c == '\\'
}

/// Position of the last path separator among the first `n` characters, or -1.
pub open spec fn last_separator(p: Seq<char>, n: int) -> int
    decreases n,
{
    if n <= 0 {
        -1
    } else if is_separator(p[n - 1]) {
        n - 1
    } else {
        last_separator(p, n - 1)
    }
}

/// Position of the last '.' among the first `n` characters, or -1.
pub open spec fn last_dot(p: Seq<char>, n: int) -> int
    decreases n,
{
    if n <= 0 {
        -1
    } else if p[n - 1] == '.' {
        n - 1
    } else {
        last_dot(p, n - 1)
    }
}

/// The extension of a path's last component: what follows its last '.', where
/// that dot is not the component's first character; empty otherwise.
pub open spec fn extension_of(p: Seq<char>) -> Seq<char> {
    let start = last_separator(p, p.len() as int) + 1;
    let d = last_dot(p, p.len() as int);
    if d > start {
        p.subrange(d + 1, p.len() as int)
    } else {
        Seq::empty()
    }
}

/// The container formats that the side-car plays.
pub open spec fn supported_extension(e: Seq<char>) -> bool {
    e == seq!['m', 'p', '4'] || e == seq!['m', 'k', 'v']
}

/// Whether the path names an MP4 or MKV file, by its extension (compared
/// exactly, case included).
pub fn has_supported_extension(path: &str) -> (r: bool)
    ensures
        r == supported_extension(extension_of(path@)),
{
    let n = path.unicode_len();
    // One past the last separator and one past the last dot seen so far (0: none).
    let mut sep1: usize = 0;
    let mut dot1: usize = 0;
    let mut i: usize = 0;
    while i < n
        invariant
            n == path@.len(),
            i <= n,
            sep1 <= i && dot1 <= i,
            sep1 == last_separator(path@, i as int) + 1,
            dot1 == last_dot(path@, i as int) + 1,
        decreases n - i,
    {
        let c = path.get_char(i);
        if c == '/' || c == '\\' {
            sep1 = i + 1;
        }
        if c == '.' {
            dot1 = i + 1;
        }
        i = i + 1;
    }
    let ghost e = extension_of(path@);
    if dot1 > sep1 && dot1 - sep1 > 1 {
        assert(e == path@.subrange(dot1 as int, n as int));
        if n - dot1 != 3 {
            return false;
        }
        let c0 = path.get_char(dot1);
        let c1 = path.get_char(dot1 + 1);
        let c2 = path.get_char(dot1 + 2);
        assert(e.len() == 3 && e[0] == c0 && e[1] == c1 && e[2] == c2);
        let r = c0 == 'm' && ((c1 == 'p' && c2 == '4') || (c1 == 'k' && c2 == 'v'));
        assert(r == supported_extension(e)) by {
            if c1 == 'p' && r {
                assert(e =~= seq!['m', 'p', '4']);
            }
            if c1 == 'k' && r {
                assert(e =~= seq!['m', 'k', 'v']);
            }
        }
        r
    } else {
        assert(e.len() == 0);
        false
    }
}

/// Failures of the controller.
#[derive(Debug, Clone, Copy, PartialEq, Eq, Structural)]
pub enum ControllerError {
    /// The file is missing.
    MediaLoadFailed,
    /// The file is neither MP4 nor MKV.
    UnsupportedFormat,
    /// The side-car process could not be started.
    SpawnFailed,
}

/// Whether a `set` of `path` is refused before anything is touched, and why.
pub open spec fn set_rejection(path: Seq<char>, file_exists: bool) -> Option<ControllerError> {
    if !file_exists {
        Some(ControllerError::MediaLoadFailed)
    } else if !supported_extension(extension_of(path)) {
        Some(ControllerError::UnsupportedFormat)
    } else {
        None
    }
}

/// A side-car that fails within this many milliseconds of its spawn failed
/// the `set` that started it.
pub const STARTUP_GRACE_MS: u64 = 3000;

/// What to do at startup with the persisted record.
#[derive(Debug, PartialEq, Eq)]
pub enum RestoreAction {
    /// Nothing is to be restored.
    Nothing,
    /// Set the wallpaper from this local file.
    SetFromPath(String),
    /// Hand this URL to the downloader, then set the file it produces.
    Download(String),
    /// Restoration is abandoned; the (now inactive) record is to be persisted.
    Clear,
}

/// The controller: the persisted record it keeps in memory, and the process
/// id of the side-car it owns, if any.
#[derive(Debug)]
pub struct PlaybackController {
    pub state: VideoWallpaperState,
    pub player: Option<u32>,
}

pub struct ControllerView {
    pub state: StateView,
    pub player: Option<u32>,
}

impl View for PlaybackController {
    type V = ControllerView;

    open spec fn view(&self) -> ControllerView {
        ControllerView { state: self.state@, player: self.player }
    }
}

/// The record after `stop`, or after a failure that leaves nothing playing:
/// inactive, no current file, source and time kept.
pub open spec fn deactivated(s: StateView) -> StateView {
    StateView { is_active: false, video_path: None, video_url: None, ..s }
}

/// The controller after the second half of `set`.
pub open spec fn finish_set_spec(
    c: ControllerView,
    path: Seq<char>,
    original_url: Option<Seq<char>>,
    spawned: Option<u32>,
    now: i64,
) -> ControllerView {
    match spawned {
        Some(pid) => ControllerView {
            state: StateView {
                is_active: true,
                video_path: Some(path),
                video_url: Some(file_url_of(path)),
                original_url,
                set_at: Some(now),
            },
            player: Some(pid),
        },
        None => ControllerView { state: deactivated(c.state), player: None },
    }
}

/// The controller after a whole `set`: refused ones change nothing; accepted
/// ones give up the prior side-car and record the outcome of the spawn.
pub open spec fn set_spec(
    c: ControllerView,
    path: Seq<char>,
    file_exists: bool,
    original_url: Option<Seq<char>>,
    spawned: Option<u32>,
    now: i64,
) -> ControllerView {
    if set_rejection(path, file_exists) is Some {
        c
    } else {
        finish_set_spec(
            ControllerView { player: None, ..c },
            path,
            original_url,
            spawned,
            now,
        )
    }
}

pub open spec fn stop_spec(c: ControllerView) -> ControllerView {
    ControllerView { state: deactivated(c.state), player: None }
}

/// The decision at startup for a persisted record whose file does or does
/// not exist.
pub open spec fn restore_decision(saved: StateView, path_exists: bool) -> int {
    if !saved.is_active {
        0
    } else if saved.video_path is Some && path_exists {
        1
    } else if saved.original_url is Some {
        2
    } else {
        3
    }
}

impl PlaybackController {
    pub fn new() -> (r: PlaybackController)
        ensures
            r@.state == empty_state(),
            r@.player is None,
    {
        PlaybackController { state: VideoWallpaperState::inactive(), player: None }
    }

    /// First half of `set`: checks the file, and on acceptance hands back the
    /// side-car that is running, if any, to be terminated before the new one
    /// is spawned. A missing file gives `MediaLoadFailed`, another extension
    /// than mp4 or mkv `UnsupportedFormat`; either leaves everything as it was.
    pub fn begin_set(&mut self, path: &str, file_exists: bool) -> (r: Result<
        Option<u32>,
        ControllerError,
    >)
        ensures
            set_rejection(path@, file_exists) matches Some(e) ==> r == Err::<Option<u32>, _>(e)
                && final(self)@ == old(self)@,
            set_rejection(path@, file_exists) is None ==> r == Ok::<_, ControllerError>(
                old(self).player,
            ) && final(self)@ == (ControllerView { player: None, ..old(self)@ }),
    {
        if !file_exists {
            return Err(ControllerError::MediaLoadFailed);
        }
        if !has_supported_extension(path) {
            return Err(ControllerError::UnsupportedFormat);
        }
        let prior = self.player;
        self.player = None;
        Ok(prior)
    }

    /// Second half of `set`, once the prior side-car is terminated: records the
    /// side-car that was spawned for `path` (its process id) and the new
    /// record. When the spawn failed nothing plays: the record is deactivated
    /// and `SpawnFailed` returned.
    pub fn finish_set(
        &mut self,
        path: &str,
        original_url: Option<String>,
        spawned: Option<u32>,
        now: i64,
    ) -> (r: Result<(), ControllerError>)
        ensures
            final(self)@ == finish_set_spec(old(self)@, path@, opt_view(original_url), spawned, now),
            r is Ok <==> spawned is Some,
            r is Err ==> r->Err_0 == ControllerError::SpawnFailed,
    {
        match spawned {
            Some(pid) => {
                self.state = VideoWallpaperState {
                    is_active: true,
                    video_path: Some(String::from_str(path)),
                    video_url: Some(file_url(path)),
                    original_url,
                    set_at: Some(now),
                };
                self.player = Some(pid);
                Ok(())
            },
            None => {
                self.deactivate();
                self.player = None;
                Err(ControllerError::SpawnFailed)
            },
        }
    }

    fn deactivate(&mut self)
        ensures
            final(self)@ == (ControllerView { state: deactivated(old(self)@.state), ..old(self)@ }),
    {
        self.state.is_active = false;
        self.state.video_path = None;
        self.state.video_url = None;
    }

    /// Stops the wallpaper: hands back the side-car to terminate, and
    /// deactivates the record while keeping its source URL and time.
    pub fn stop_video_wallpaper(&mut self) -> (r: Option<u32>)
        ensures
            r == old(self).player,
            final(self)@ == stop_spec(old(self)@),
    {
        let prior = self.player;
        self.deactivate();
        self.player = None;
        prior
    }

    /// A side-car that exits with a non-zero code within its first 3 s failed
    /// to start playing: when it is the one the controller owns, the `set`
    /// that spawned it counts as failed, so the record is deactivated and the
    /// side-car forgotten. Returns whether that happened.
    pub fn sidecar_exited(&mut self, pid: u32, exit_code: i32, lifetime_ms: u64) -> (r: bool)
        ensures
            r == (old(self).player == Some(pid) && exit_code != 0 && lifetime_ms
                < STARTUP_GRACE_MS),
            r ==> final(self)@ == stop_spec(old(self)@),
            !r ==> final(self)@ == old(self)@,
    {
        if self.player == Some(pid) && exit_code != 0 && lifetime_ms < STARTUP_GRACE_MS {
            self.deactivate();
            self.player = None;
            true
        } else {
            false
        }
    }

    /// The record as it stands.
    pub fn get_video_wallpaper_state(&self) -> (r: VideoWallpaperState)
        ensures
            r@ == self.state@,
    {
        self.state.duplicate()
    }

    /// The record to write on a heartbeat: the current one while a wallpaper
    /// is active, none otherwise.
    pub fn periodic_state_save(&self) -> (r: Option<VideoWallpaperState>)
        ensures
            r is Some <==> self.state.is_active,
            r matches Some(s) ==> s@ == self.state@,
    {
        if self.state.is_active {
            Some(self.state.duplicate())
        } else {
            None
        }
    }

    /// Startup: decides how to bring back the persisted record `saved` (absent
    /// when there was none or it could not be read). An absent or inactive
    /// record leaves the controller as it is. An active one is adopted and
    /// comes back from its file when that exists (`saved_path_exists` tells
    /// whether its `video_path` names an existing file), else from its source
    /// URL; with neither it is deactivated (`Clear`).
    pub fn restore_wallpaper_on_startup(
        &mut self,
        saved: Option<VideoWallpaperState>,
        saved_path_exists: bool,
    ) -> (r: RestoreAction)
        ensures
            saved is None ==> r == RestoreAction::Nothing && final(self)@ == old(self)@,
            saved matches Some(s) ==> ({
                let d = restore_decision(s@, saved_path_exists);
                &&& final(self)@.player == old(self)@.player
                &&& d == 0 ==> r == RestoreAction::Nothing && final(self)@ == old(self)@
                &&& d == 1 ==> (r matches RestoreAction::SetFromPath(p) && Some(p@)
                    == s@.video_path && final(self)@.state == s@)
                &&& d == 2 ==> (r matches RestoreAction::Download(u) && Some(u@)
                    == s@.original_url && final(self)@.state == s@)
                &&& d == 3 ==> r == RestoreAction::Clear && final(self)@.state == deactivated(
                    s@,
                )
            }),
    {
        let s = match saved {
            Some(s) => s,
            None => return RestoreAction::Nothing,
        };
        if !s.is_active {
            return RestoreAction::Nothing;
        }
        self.state = s;
        if saved_path_exists {
            match &self.state.video_path {
                Some(p) => {
                    return RestoreAction::SetFromPath(p.clone());
                },
                None => {},
            }
        }
        self.restore_fallback()
    }

    /// Restoration from the local file did not work out (or is not possible):
    /// falls back to the source URL, or abandons restoration and deactivates
    /// the record.
    pub fn restore_fallback(&mut self) -> (r: RestoreAction)
        ensures
            old(self).state.original_url matches Some(u) ==> (r matches RestoreAction::Download(v)
                && v@ == u@ && final(self)@ == old(self)@),
            old(self).state.original_url is None ==> r == RestoreAction::Clear && final(self)@
                == (ControllerView { state: deactivated(old(self)@.state), ..old(self)@ }),
    {
        match &self.state.original_url {
            Some(u) => RestoreAction::Download(u.clone()),
            None => {
                self.deactivate();
                RestoreAction::Clear
            },
        }
    }

    /// The side-car for the restored local file was spawned (or not). On
    /// success the adopted record becomes active again, its source and time
    /// kept; on failure restoration falls back as `restore_fallback` does.
    pub fn finish_restore(&mut self, spawned: Option<u32>) -> (r: RestoreAction)
        requires
            old(self).player is None,
        ensures
            spawned matches Some(pid) ==> r == RestoreAction::Nothing && final(self)@
                == (ControllerView {
                state: StateView { is_active: true, ..old(self)@.state },
                player: Some(pid),
            }),
            spawned is None && old(self).state.original_url is Some ==> (r matches RestoreAction::Download(
                v,
            ) && Some(v@) == old(self)@.state.original_url && final(self)@ == old(self)@),
            spawned is None && old(self).state.original_url is None ==> r == RestoreAction::Clear
                && final(self)@ == (ControllerView {
                state: deactivated(old(self)@.state),
                ..old(self)@
            }),
    {
        match spawned {
            Some(pid) => {
                self.state.is_active = true;
                self.player = Some(pid);
                RestoreAction::Nothing
            },
            None => self.restore_fallback(),
        }
    }

    /// The downloader produced `new_path` and its side-car was spawned (or
    /// not). On success the record plays the new file, its source and time
    /// kept; on failure it is deactivated and `SpawnFailed` returned.
    pub fn finish_redownload(&mut self, new_path: &str, spawned: Option<u32>) -> (r: Result<
        (),
        ControllerError,
    >)
        requires
            old(self).player is None,
        ensures
            r is Ok <==> spawned is Some,
            r is Err ==> r->Err_0 == ControllerError::SpawnFailed,
            spawned matches Some(pid) ==> final(self)@ == (ControllerView {
                state: StateView {
                    is_active: true,
                    video_path: Some(new_path@),
                    video_url: Some(file_url_of(new_path@)),
                    ..old(self)@.state
                },
                player: Some(pid),
            }),
            spawned is None ==> final(self)@ == (ControllerView {
                state: deactivated(old(self)@.state),
                ..old(self)@
            }),
    {
        match spawned {
            Some(pid) => {
                self.state.is_active = true;
                self.state.video_path = Some(String::from_str(new_path));
                self.state.video_url = Some(file_url(new_path));
                self.player = Some(pid);
                Ok(())
            },
            None => {
                self.deactivate();
                Err(ControllerError::SpawnFailed)
            },
        }
    }

    /// The download of the source URL failed: restoration is abandoned and
    /// the record deactivated.
    pub fn abandon_restore(&mut self)
        ensures
            final(self)@ == (ControllerView { state: deactivated(old(self)@.state), ..old(self)@ }),
    {
        self.deactivate();
    }
}

/// The side-car processes that the controller owns.
pub open spec fn owned(player: Option<u32>) -> Set<u32> {
    match player {
        Some(pid) => set![pid],
        None => Set::empty(),
    }
}

/// After a successful `set`, exactly one side-car owned by the controller is
/// alive. Before it, the live side-cars that the controller owns are at most
/// the recorded one (it may have died on its own); `begin_set` hands that one
/// back for termination, and the spawned one is then the only one alive and
/// the one recorded.
pub proof fn lemma_set_leaves_one_sidecar(
    c: ControllerView,
    alive: Set<u32>,
    path: Seq<char>,
    original_url: Option<Seq<char>>,
    pid: u32,
    now: i64,
)
    requires
        set_rejection(path, true) is None,
        alive.subset_of(owned(c.player)),
    ensures
        ({
            let after = set_spec(c, path, true, original_url, Some(pid), now);
            let killed = owned(c.player);
            &&& alive.difference(killed).insert(pid) == owned(after.player)
            &&& owned(after.player) == set![pid]
        }),
{
    let after = set_spec(c, path, true, original_url, Some(pid), now);
    assert(alive.difference(owned(c.player)).insert(pid) =~= owned(after.player));
}

/// A `set` while a side-car runs: that side-car is handed back for
/// termination first, and the record then names the new file.
pub proof fn lemma_hot_swap(
    c: ControllerView,
    path: Seq<char>,
    original_url: Option<Seq<char>>,
    pid: u32,
    now: i64,
)
    requires
        c.player is Some,
        set_rejection(path, true) is None,
    ensures
        ({
            let after = set_spec(c, path, true, original_url, Some(pid), now);
            &&& after.player == Some(pid)
            &&& after.state.is_active
            &&& after.state.video_path == Some(path)
            &&& after.state.video_url == Some(file_url_of(path))
        }),
{
}

/// A request to the controller.
pub enum ControllerEvent {
    SetWallpaper {
        path: Seq<char>,
        file_exists: bool,
        original_url: Option<Seq<char>>,
        spawned: Option<u32>,
        now: i64,
    },
    Stop,
}

/// The controller after a sequence of requests, oldest first.
pub open spec fn run_events(c: ControllerView, evs: Seq<ControllerEvent>) -> ControllerView
    decreases evs.len(),
{
    if evs.len() == 0 {
        c
    } else {
        let prev = run_events(c, evs.drop_last());
        match evs.last() {
            ControllerEvent::SetWallpaper { path, file_exists, original_url, spawned, now } => set_spec(
                prev,
                path,
                file_exists,
                original_url,
                spawned,
                now,
            ),
            ControllerEvent::Stop => stop_spec(prev),
        }
    }
}

/// The last `set` that was not refused outright succeeded, and no `stop`
/// came after it.
pub open spec fn last_set_in_force(evs: Seq<ControllerEvent>) -> bool
    decreases evs.len(),
{
    if evs.len() == 0 {
        false
    } else {
        match evs.last() {
            ControllerEvent::SetWallpaper { path, file_exists, spawned, .. } => if set_rejection(
                path,
                file_exists,
            ) is Some {
                last_set_in_force(evs.drop_last())
            } else {
                spawned is Some
            },
            ControllerEvent::Stop => false,
        }
    }
}

/// The record is active exactly when the last `set` that got past the file
/// checks succeeded and no `stop` followed it. (A `set` refused for a missing
/// or unsupported file leaves the wallpaper in force, so it does not count.)
pub proof fn lemma_active_iff_last_set_in_force(c: ControllerView, evs: Seq<ControllerEvent>)
    requires
        !c.state.is_active,
    ensures
        run_events(c, evs).state.is_active == last_set_in_force(evs),
    decreases evs.len(),
{
    if evs.len() > 0 {
        lemma_active_iff_last_set_in_force(c, evs.drop_last());
    }
}

/// A wallpaper that was set and not stopped is, at the next startup, set
/// again from its file while that file is present.
pub proof fn lemma_restore_after_set(
    c: ControllerView,
    path: Seq<char>,
    original_url: Option<Seq<char>>,
    pid: u32,
    now: i64,
)
    requires
        set_rejection(path, true) is None,
    ensures
        ({
            let saved = set_spec(c, path, true, original_url, Some(pid), now).state;
            &&& restore_decision(saved, true) == 1
            &&& saved.video_path == Some(path)
        }),
{
}

} // verus!

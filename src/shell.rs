//! The shell topology probe: locating the legacy wallpaper window among the
//! top-level windows, and the retry protocol that spawns it.
use vstd::prelude::*;
use crate::injection::InjectionError;

verus! {

/// One top-level window as enumeration reports it, in z-order (topmost first).
#[derive(Debug, Clone, Copy, PartialEq, Eq, Structural)]
pub struct TopLevelWindow {
    pub hwnd: u64,
    /// Its class is "WorkerW".
    pub is_worker: bool,
    /// It has a direct child of class "SHELLDLL_DefView".
    pub holds_icons: bool,
}

/// The first "WorkerW" at or below position `j`.
pub open spec fn next_worker_from(tops: Seq<TopLevelWindow>, j: int) -> Option<u64>
    decreases tops.len() - j,
{
    if j < 0 || j >= tops.len() {
        None
    } else if tops[j].is_worker && tops[j].hwnd != 0 {
        Some(tops[j].hwnd)
    } else {
        next_worker_from(tops, j + 1)
    }
}

/// Scanning from position `i` down: the "WorkerW" that follows the first
/// icons holder that has one below it.
pub open spec fn workerw_from(tops: Seq<TopLevelWindow>, i: int) -> Option<u64>
    decreases tops.len() - i,
{
    if i < 0 || i >= tops.len() {
        None
    } else if tops[i].holds_icons && tops[i].hwnd != 0 && next_worker_from(tops, i + 1) is Some {
        next_worker_from(tops, i + 1)
    } else {
        workerw_from(tops, i + 1)
    }
}

proof fn lemma_next_worker_position(tops: Seq<TopLevelWindow>, j: int)
    requires
        0 <= j,
        next_worker_from(tops, j) is Some,
    ensures
        exists|k: int|
            j <= k < tops.len() && tops[k].is_worker && #[trigger] tops[k].hwnd == next_worker_from(
                tops,
                j,
            )->Some_0,
    decreases tops.len() - j,
{
    if !(tops[j].is_worker && tops[j].hwnd != 0) {
        lemma_next_worker_position(tops, j + 1);
    }
}

/// A wallpaper window that the scan finds lies below a top-level window that
/// holds the desktop icons.
pub proof fn lemma_workerw_below_icons(tops: Seq<TopLevelWindow>, i: int)
    requires
        0 <= i,
        workerw_from(tops, i) is Some,
    ensures
        exists|a: int, b: int|
            i <= a < b < tops.len() && tops[a].holds_icons && tops[b].is_worker && #[trigger] tops[b].hwnd
                == workerw_from(tops, i)->Some_0 && #[trigger] tops[a].hwnd != 0,
    decreases tops.len() - i,
{
    if tops[i].holds_icons && tops[i].hwnd != 0 && next_worker_from(tops, i + 1) is Some {
        lemma_next_worker_position(tops, i + 1);
        let k = choose|k: int|
            i + 1 <= k < tops.len() && tops[k].is_worker && #[trigger] tops[k].hwnd
                == next_worker_from(tops, i + 1)->Some_0;
        assert(tops[i].hwnd != 0);
    } else {
        lemma_workerw_below_icons(tops, i + 1);
    }
}

/// The legacy wallpaper window: the first "WorkerW" below the first top-level
/// window that holds the desktop icons and has one below it.
pub fn find_workerw(tops: &Vec<TopLevelWindow>) -> (r: Option<u64>)
    ensures
        r == workerw_from(tops@, 0),
        r is Some ==> r->Some_0 != 0,
{
    let n = tops.len();
    let mut i: usize = 0;
    while i < n
        invariant
            n == tops@.len(),
            i <= n,
            workerw_from(tops@, 0) == workerw_from(tops@, i as int),
        decreases n - i,
    {
        let t = tops[i];
        if t.holds_icons && t.hwnd != 0 {
            let mut j: usize = i + 1;
            while j < n
                invariant
                    n == tops@.len(),
                    i < j <= n,
                    tops@[i as int].holds_icons && tops@[i as int].hwnd != 0,
                    workerw_from(tops@, 0) == workerw_from(tops@, i as int),
                    next_worker_from(tops@, i + 1) == next_worker_from(tops@, j as int),
                decreases n - j,
            {
                let w = tops[j];
                if w.is_worker && w.hwnd != 0 {
                    assert(next_worker_from(tops@, j as int) == Some(w.hwnd));
                    assert(workerw_from(tops@, i as int) == Some(w.hwnd));
                    return Some(w.hwnd);
                }
                j = j + 1;
            }
        }
        i = i + 1;
    }
    None
}

/// How many times the spawn message is sent before giving up.
pub const SPAWN_ATTEMPTS: u32 = 10;

/// The wait after the spawn message of attempt `attempt` (counted from 0).
pub open spec fn spawn_delay(attempt: nat) -> nat {
    200 + 100 * attempt
}

pub fn spawn_delay_ms(attempt: u32) -> (r: u64)
    requires
        attempt < SPAWN_ATTEMPTS,
    ensures
        r == spawn_delay(attempt as nat),
{
    200 + 100 * attempt as u64
}

/// What to do after an attempt's poll.
#[derive(Debug, Clone, Copy, PartialEq, Eq, Structural)]
pub enum SpawnStep {
    /// The wallpaper window exists.
    Found(u64),
    /// Send the message again.
    Retry,
}

/// The next step; `WorkerSpawnFailed` once the retry budget is spent.
pub open spec fn next_spawn_step(attempt: nat, polled: Option<u64>) -> Result<
    SpawnStep,
    InjectionError,
> {
    if polled is Some && polled->Some_0 != 0 {
        Ok(SpawnStep::Found(polled->Some_0))
    } else if attempt + 1 < SPAWN_ATTEMPTS {
        Ok(SpawnStep::Retry)
    } else {
        Err(InjectionError::WorkerSpawnFailed)
    }
}

/// Decides the spawn protocol after attempt `attempt` sent the message,
/// waited, and polled the top-level windows with `find_workerw`.
pub fn spawn_workerw_step(attempt: u32, polled: Option<u64>) -> (r: Result<
    SpawnStep,
    InjectionError,
>)
    requires
        attempt < SPAWN_ATTEMPTS,
    ensures
        r == next_spawn_step(attempt as nat, polled),
{
    if let Some(h) = polled {
        if h != 0 {
            return Ok(SpawnStep::Found(h));
        }
    }
    if attempt + 1 < SPAWN_ATTEMPTS {
        Ok(SpawnStep::Retry)
    } else {
        Err(InjectionError::WorkerSpawnFailed)
    }
}

/// The protocol run against a shell whose wallpaper window `w` appears
/// `appear_ms` after the first message: the window found and the attempt that
/// found it, or `None` when the budget runs out.
pub open spec fn spawn_run(w: u64, appear_ms: nat, attempt: nat, elapsed: nat) -> Option<
    (u64, nat),
>
    decreases SPAWN_ATTEMPTS - attempt,
{
    if attempt >= SPAWN_ATTEMPTS {
        None
    } else {
        let e = elapsed + spawn_delay(attempt);
        let polled = if e >= appear_ms {
            Some(w)
        } else {
            None
        };
        match next_spawn_step(attempt, polled) {
            Ok(SpawnStep::Found(h)) => Some((h, attempt)),
            Ok(SpawnStep::Retry) => spawn_run(w, appear_ms, attempt + 1, e),
            Err(_) => None,
        }
    }
}

/// A shell that is slow to create its wallpaper window, by up to 1.5 s, is
/// caught within the retry budget: the run finds that window, at the fifth
/// attempt at the latest.
pub proof fn lemma_spawn_converges(w: u64, appear_ms: nat)
    requires
        w != 0,
        appear_ms <= 1500,
    ensures
        spawn_run(w, appear_ms, 0, 0) matches Some((h, k)) && h == w && k < 5 && k
            < SPAWN_ATTEMPTS,
{
    reveal_with_fuel(spawn_run, 6);
}

} // verus!

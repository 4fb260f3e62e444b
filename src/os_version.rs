//! Classification of the running Windows build.
use vstd::prelude::*;

verus! {

/// Lowest build number of Windows 11 24H2.
pub const BUILD_WIN11_24H2: u32 = 26100;

/// Lowest build number of Windows 11.
pub const BUILD_WIN11: u32 = 22000;

/// Lowest build number of Windows 10.
pub const BUILD_WIN10: u32 = 10000;

/// The family of shell that a Windows build ships, as far as desktop
/// injection is concerned.
#[derive(Debug, Clone, Copy, PartialEq, Eq, Structural)]
pub enum WindowsVersion {
    Windows10,
    Windows11Pre24H2,
    Windows1124H2Plus,
    Unknown,
}

/// The family that a build number belongs to.
pub open spec fn version_of_build(build: u32) -> WindowsVersion {
    if build >= BUILD_WIN11_24H2 {
        WindowsVersion::Windows1124H2Plus
    } else if build >= BUILD_WIN11 {
        WindowsVersion::Windows11Pre24H2
    } else if build >= BUILD_WIN10 {
        WindowsVersion::Windows10
    } else {
        WindowsVersion::Unknown
    }
}

impl WindowsVersion {
    pub fn is_windows_11_24h2_plus(&self) -> (r: bool)
        ensures
            r == (*self == WindowsVersion::Windows1124H2Plus),
    {
        matches!(self, WindowsVersion::Windows1124H2Plus)
    }

    /// Any Windows 11 build: the shell with the raised desktop.
    pub fn is_windows_11(&self) -> (r: bool)
        ensures
            r == (*self == WindowsVersion::Windows11Pre24H2 || *self
                == WindowsVersion::Windows1124H2Plus),
    {
        matches!(self, WindowsVersion::Windows11Pre24H2 | WindowsVersion::Windows1124H2Plus)
    }

    pub fn is_windows_10(&self) -> (r: bool)
        ensures
            r == (*self == WindowsVersion::Windows10),
    {
        matches!(self, WindowsVersion::Windows10)
    }
}

/// Maps a build number to its family. A failed version query is reported
/// as build 0, which classifies as `Unknown`.
pub fn classify_build(build: u32) -> (r: WindowsVersion)
    ensures
        r == version_of_build(build),
{
    if build >= BUILD_WIN11_24H2 {
        WindowsVersion::Windows1124H2Plus
    } else if build >= BUILD_WIN11 {
        WindowsVersion::Windows11Pre24H2
    } else if build >= BUILD_WIN10 {
        WindowsVersion::Windows10
    } else {
        WindowsVersion::Unknown
    }
}

/// Write-once cell that holds the classification of the running build.
pub struct VersionCache {
    pub resolved: Option<WindowsVersion>,
}

impl VersionCache {
    pub fn new() -> (r: VersionCache)
        ensures
            r.resolved is None,
    {
        VersionCache { resolved: None }
    }

    /// Whether the build still has to be queried from the kernel.
    pub fn needs_probe(&self) -> (r: bool)
        ensures
            r == (self.resolved is None),
    {
        self.resolved.is_none()
    }
}

/// The running build's family. The first call classifies `probed_build`, the
/// build number that the kernel reported, and publishes the result; every later
/// call returns that first result and ignores its argument.
pub fn get_windows_version(cache: &mut VersionCache, probed_build: u32) -> (r: WindowsVersion)
    ensures
        old(cache).resolved is Some ==> r == old(cache).resolved->Some_0 && *final(cache)
            == *old(cache),
        old(cache).resolved is None ==> r == version_of_build(probed_build)
            && final(cache).resolved == Some(r),
{
    match cache.resolved {
        Some(v) => v,
        None => {
            let v = classify_build(probed_build);
            cache.resolved = Some(v);
            v
        },
    }
}

} // verus!

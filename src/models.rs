//! Replies that the controller's command surface hands to its callers.
use vstd::prelude::*;

verus! {

#[derive(Debug)]
pub struct WallpaperResponse {
    pub success: bool,
    pub message: Option<String>,
    pub error: Option<String>,
}

#[derive(Debug)]
pub struct CacheSizeResponse {
    pub success: bool,
    pub size_mb: String,
    pub file_count: usize,
}

#[derive(Debug)]
pub struct ClearCacheResponse {
    pub success: bool,
    pub files_deleted: usize,
}

#[derive(Debug)]
pub struct ResolveHighResResponse {
    pub success: bool,
    pub url: Option<String>,
    pub url4k: Option<String>,
    pub error: Option<String>,
}

#[derive(Debug)]
pub struct UserWallpaper {
    pub id: String,
    pub name: String,
    pub path: String,
    pub media_type: String,
    pub thumbnail: Option<String>,
    pub added_at: i64,
}

#[derive(Debug)]
pub struct UserWallpapersResponse {
    pub success: bool,
    pub wallpapers: Vec<UserWallpaper>,
}

#[derive(Debug, Clone, Copy, PartialEq, Eq, Structural)]
pub struct AppSettings {
    pub audio_enabled: bool,
    pub live_wallpaper_enabled: bool,
}

#[derive(Debug)]
pub struct SettingsResponse {
    pub success: bool,
    pub settings: Option<AppSettings>,
    pub error: Option<String>,
}

#[derive(Debug)]
pub struct PathResponse {
    pub success: bool,
    pub path: Option<String>,
    pub error: Option<String>,
}

} // verus!

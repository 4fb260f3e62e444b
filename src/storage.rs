//! Where the controller keeps its files, below the per-user data directory.
use vstd::prelude::*;

verus! {

pub open spec fn ends_in_separator(s: Seq<char>) -> bool {
    s.len() > 0 && (s.last() == '/' || s.last() == '\\')
}

/// `name` below the directory `dir`: a '/' goes between them unless `dir` is
/// empty or already ends in a separator.
pub open spec fn join_path(dir: Seq<char>, name: Seq<char>) -> Seq<char> {
    if dir.len() == 0 || ends_in_separator(dir) {
        dir + name
    } else {
        dir + seq!['/'] + name
    }
}

pub fn join(dir: &str, name: &str) -> (r: String)
    ensures
        r@ == join_path(dir@, name@),
{
    let n = dir.unicode_len();
    let mut r = String::from_str(dir);
    if n > 0 {
        let c = dir.get_char(n - 1);
        if c != '/' && c != '\\' {
            proof {
                reveal_strlit("/");
            }
            r.append("/");
        }
    }
    r.append(name);
    r
}

/// The application's directory below the per-user data directory `data_dir`.
pub fn get_app_data_dir(data_dir: &str) -> (r: String)
    ensures
        r@ == join_path(data_dir@, "ColorWall"@),
{
    join(data_dir, "ColorWall")
}

/// The settings file in the application's directory `app_data_dir`.
pub fn get_settings_file(app_data_dir: &str) -> (r: String)
    ensures
        r@ == join_path(app_data_dir@, "settings.json"@),
{
    join(app_data_dir, "settings.json")
}

/// The persisted wallpaper record in the application's directory
/// `app_data_dir` (outside any cache directory, which may be cleared).
pub fn get_state_file(app_data_dir: &str) -> (r: String)
    ensures
        r@ == join_path(app_data_dir@, "wallpaper_state.json"@),
{
    join(app_data_dir, "wallpaper_state.json")
}

} // verus!

//! Path resolution: joining path components and locating per-user files.
use vstd::prelude::*;

verus! {

/// `base` joined with `name` as a Unix path: an absolute `name` replaces
/// `base`; otherwise a separator is put between them unless `base` is empty
/// or already ends in one.
pub open spec fn joined(base: Seq<char>, name: Seq<char>) -> Seq<char> {
    if name.len() > 0 && name[0] == '/' {
        name
    } else if base.len() == 0 || base.last() == '/' {
        base + name
    } else {
        base + seq!['/'] + name
    }
}

/// Joins `name` onto `base` the way a Unix path buffer appends a component.
pub fn join_path(base: &str, name: &str) -> (r: String)
    ensures
        r@ == joined(base@, name@),
{
    let name_len = name.unicode_len();
    if name_len > 0 && name.get_char(0) == '/' {
        return String::from_str(name);
    }
    let base_len = base.unicode_len();
    let mut r = String::from_str(base);
    if base_len > 0 && base.get_char(base_len - 1) != '/' {
        r.append("/");
        proof {
            reveal_strlit("/");
        }
    }
    r.append(name);
    r
}

/// Relies on dirs::home_dir: the current user's home directory, when the
/// platform reports one. What it returns depends on the environment, so
/// nothing is promised of it.
#[verifier::external_body]
pub(crate) fn home_dir() -> (r: Option<String>) {
    dirs::home_dir().map(|h| h.to_string_lossy().to_string())
}

/// The directory the per-user files live under: the reported home directory,
/// or `.` when there is none.
pub open spec fn base_dir(home: Option<Seq<char>>) -> Seq<char> {
    match home {
        Some(h) => h,
        None => seq!['.'],
    }
}

/// An optional string seen as an optional character sequence.
pub open spec fn opt_view(s: Option<String>) -> Option<Seq<char>> {
    match s {
        Some(v) => Some(v@),
        None => None,
    }
}

/// The home directory given, or `.` when there is none.
pub fn base_or_current(home: Option<String>) -> (r: String)
    ensures
        r@ == base_dir(opt_view(home)),
{
    match home {
        Some(h) => h,
        None => {
            proof {
                reveal_strlit(".");
            }
            String::from_str(".")
        },
    }
}

/// The settings file's location under the given home directory.
pub open spec fn config_path_in(home: Seq<char>) -> Seq<char> {
    joined(home, ".mdslide_config.json"@)
}

/// The settings file under the home directory given.
pub fn config_path_for_home(home: &str) -> (r: String)
    ensures
        r@ == config_path_in(home@),
{
    join_path(home, ".mdslide_config.json")
}

/// The settings file of the current user: `<home>/.mdslide_config.json`.
pub fn get_config_path() -> (r: String)
    ensures
        exists|h: Seq<char>| r@ == #[trigger] config_path_in(h),
{
    let home = base_or_current(home_dir());
    config_path_for_home(home.as_str())
}

} // verus!

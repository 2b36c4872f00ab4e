//! The settings record and the decisions around loading it.
use vstd::prelude::*;
use crate::paths::{base_dir, base_or_current, home_dir, join_path, joined, opt_view};

verus! {

/// The editor's settings, always fully populated.
#[derive(Clone, Debug)]
pub struct AppConfig {
    pub workspace_path: String,
    pub auto_save_enabled: bool,
    pub font_size: i32,
    pub font_family: String,
    pub confirm_delete: bool,
    pub notifications_enabled: bool,
}

/// The default workspace: `mdslide` under the home directory (or under `.`
/// when there is none).
pub open spec fn default_workspace(home: Option<Seq<char>>) -> Seq<char> {
    joined(base_dir(home), "mdslide"@)
}

/// The out-of-the-box settings for the given home directory.
pub open spec fn is_default_for(c: AppConfig, home: Option<Seq<char>>) -> bool {
    &&& c.workspace_path@ == default_workspace(home)
    &&& !c.auto_save_enabled
    &&& c.font_size == 14
    &&& c.font_family@ == "JetBrains Mono"@
    &&& c.confirm_delete
    &&& c.notifications_enabled
}

/// Whether `c` is the out-of-the-box record for some home directory.
pub open spec fn is_default(c: AppConfig) -> bool {
    exists|h: Option<Seq<char>>| #[trigger] is_default_for(c, h)
}

impl AppConfig {
    /// The out-of-the-box settings, with the workspace under `home`.
    pub fn default_for_home(home: Option<String>) -> (r: AppConfig)
        ensures
            is_default_for(r, opt_view(home)),
    {
        let base = base_or_current(home);
        AppConfig {
            workspace_path: join_path(base.as_str(), "mdslide"),
            auto_save_enabled: false,
            font_size: 14,
            font_family: String::from_str("JetBrains Mono"),
            confirm_delete: true,
            notifications_enabled: true,
        }
    }
}

impl Default for AppConfig {
    /// The out-of-the-box settings, with the workspace under the current
    /// user's home directory.
    fn default() -> (r: AppConfig)
        ensures
            is_default(r),
    {
        let home = home_dir();
        let r = AppConfig::default_for_home(home);
        assert(is_default_for(r, opt_view(home)));
        r
    }
}

/// What went wrong while persisting the settings, with the cause.
#[derive(Clone, Debug)]
pub enum ConfigError {
    Serialize(String),
    Write(String),
    Read(String),
    Parse(String),
}

/// The text shown for a settings error.
pub open spec fn config_error_text(e: ConfigError) -> Seq<char> {
    match e {
        ConfigError::Serialize(c) => "config serialization error: "@ + c@,
        ConfigError::Write(c) => "config file write error: "@ + c@,
        ConfigError::Read(c) => "config file read error: "@ + c@,
        ConfigError::Parse(c) => "config parse error: "@ + c@,
    }
}

impl ConfigError {
    /// The error as shown to the user: what failed, then the cause.
    pub fn message(&self) -> (r: String)
        ensures
            r@ == config_error_text(*self),
    {
        let (mut r, cause) = match self {
            ConfigError::Serialize(c) => (String::from_str("config serialization error: "), c),
            ConfigError::Write(c) => (String::from_str("config file write error: "), c),
            ConfigError::Read(c) => (String::from_str("config file read error: "), c),
            ConfigError::Parse(c) => (String::from_str("config parse error: "), c),
        };
        r.append(cause.as_str());
        r
    }
}

/// Loading: an absent file gives the default record for `home`; a present
/// one gives what reading and decoding it gave, unchanged.
pub open spec fn load_ok(stored: Option<Result<AppConfig, ConfigError>>, home: Option<Seq<char>>, r: Result<AppConfig, ConfigError>) -> bool {
    match stored {
        None => r matches Ok(c) && is_default_for(c, home),
        Some(s) => r == s,
    }
}

/// The settings to use given what was found on disk: `None` when no file
/// exists, else the outcome of reading and decoding it.
pub fn load_with_home(stored: Option<Result<AppConfig, ConfigError>>, home: Option<String>) -> (r: Result<AppConfig, ConfigError>)
    ensures
        load_ok(stored, opt_view(home), r),
{
    match stored {
        None => Ok(AppConfig::default_for_home(home)),
        Some(s) => s,
    }
}

/// The settings to use given what was found on disk, with the default
/// workspace under the current user's home directory.
pub fn load_config(stored: Option<Result<AppConfig, ConfigError>>) -> (r: Result<AppConfig, ConfigError>)
    ensures
        exists|h: Option<Seq<char>>| #[trigger] load_ok(stored, h, r),
        stored is None ==> (r matches Ok(c) && is_default(c)),
{
    let home = home_dir();
    let r = load_with_home(stored, home);
    assert(load_ok(stored, opt_view(home), r));
    r
}

/// With a home directory, the default workspace is the `mdslide` directory
/// directly under it: the path starts with the home directory and ends in
/// `/mdslide`.
pub proof fn law_default_workspace_under_home(home: Seq<char>)
    requires
        home.len() > 0,
    ensures
        default_workspace(Some(home)).len() >= "/mdslide"@.len(),
        default_workspace(Some(home)).subrange(0, home.len() as int) == home,
        default_workspace(Some(home)).subrange(
            default_workspace(Some(home)).len() - "/mdslide"@.len(),
            default_workspace(Some(home)).len() as int,
        ) == "/mdslide"@,
{
    reveal_strlit("mdslide");
    reveal_strlit("/mdslide");
    let w = default_workspace(Some(home));
    if home.last() == '/' {
        assert(w =~= home + "mdslide"@);
        assert(w.subrange(0, home.len() as int) =~= home);
        assert(w.subrange(w.len() - 8, w.len() as int) =~= "/mdslide"@);
    } else {
        assert(w =~= home + seq!['/'] + "mdslide"@);
        assert(w.subrange(0, home.len() as int) =~= home);
        assert(w.subrange(w.len() - 8, w.len() as int) =~= "/mdslide"@);
    }
}

} // verus!

use mdslide::config::{load_config, load_with_home, AppConfig, ConfigError};
use mdslide::fonts::{get_system_fonts, merge_font_list, name_before};

#[test]
fn default_config_for_home() {
    let c = AppConfig::default_for_home(Some("/home/u".to_string()));
    assert_eq!(c.workspace_path, "/home/u/mdslide");
    assert!(!c.auto_save_enabled);
    assert_eq!(c.font_size, 14);
    assert_eq!(c.font_family, "JetBrains Mono");
    assert!(c.confirm_delete);
    assert!(c.notifications_enabled);
    let c = AppConfig::default_for_home(None);
    assert_eq!(c.workspace_path, "./mdslide");
}

#[test]
fn default_config_workspace_ends_in_mdslide() {
    let c = AppConfig::default();
    assert!(c.workspace_path.ends_with("/mdslide"));
}

#[test]
fn load_without_file_gives_default() {
    let c = load_with_home(None, Some("/home/u".to_string())).unwrap();
    assert_eq!(c.workspace_path, "/home/u/mdslide");
    assert_eq!(c.font_size, 14);
    let c = load_config(None).unwrap();
    assert!(c.workspace_path.ends_with("/mdslide"));
}

#[test]
fn load_returns_stored_record_unchanged() {
    let stored = AppConfig {
        workspace_path: "/data/ws".to_string(),
        auto_save_enabled: true,
        font_size: 18,
        font_family: "Fira Code".to_string(),
        confirm_delete: false,
        notifications_enabled: false,
    };
    let c = load_with_home(Some(Ok(stored)), Some("/home/u".to_string())).unwrap();
    assert_eq!(c.workspace_path, "/data/ws");
    assert!(c.auto_save_enabled);
    assert_eq!(c.font_size, 18);
    assert_eq!(c.font_family, "Fira Code");
    assert!(!c.confirm_delete);
    assert!(!c.notifications_enabled);
}

#[test]
fn load_passes_errors_through() {
    let r = load_with_home(Some(Err(ConfigError::Parse("bad".to_string()))), None);
    assert_eq!(r.unwrap_err().message(), "config parse error: bad");
}

#[test]
fn config_error_messages() {
    assert_eq!(ConfigError::Serialize("x".to_string()).message(), "config serialization error: x");
    assert_eq!(ConfigError::Write("x".to_string()).message(), "config file write error: x");
    assert_eq!(ConfigError::Read("x".to_string()).message(), "config file read error: x");
}

#[test]
fn font_order_is_lexicographic() {
    assert!(name_before("Consolas", "Menlo"));
    assert!(!name_before("Menlo", "Consolas"));
    assert!(name_before("Monaco", "monospace"));
    assert!(name_before("Mono", "Monospace"));
    assert!(name_before("Monaco", "Mono"));
    assert!(!name_before("Monaco", "Monaco"));
    assert!(name_before("", "a"));
}

#[test]
fn fonts_without_system_are_preferred_sorted() {
    let r = merge_font_list(None);
    assert_eq!(r, vec!["Consolas", "JetBrains Mono", "Menlo", "Monaco", "monospace"]);
}

#[test]
fn fonts_merge_sorted_and_deduplicated() {
    let sys = vec![
        "Noto Sans".to_string(),
        "Menlo".to_string(),
        "Arial".to_string(),
        "Noto Sans".to_string(),
    ];
    let r = merge_font_list(Some(sys));
    assert_eq!(
        r,
        vec!["Arial", "Consolas", "JetBrains Mono", "Menlo", "Monaco", "Noto Sans", "monospace"]
    );
}

#[test]
fn system_fonts_always_offer_monospace() {
    let r = get_system_fonts();
    assert!(r.iter().any(|f| f == "monospace"));
    let mut sorted = r.clone();
    sorted.sort();
    sorted.dedup();
    assert_eq!(sorted, r);
}

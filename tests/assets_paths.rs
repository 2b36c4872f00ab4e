use mdslide::assets::{plan_from_parts, save_clipboard_image};
use mdslide::paths::{base_or_current, config_path_for_home, get_config_path, join_path};
use mdslide::workspace::ErrorKind;

#[test]
fn pasted_asset_goes_next_to_document() {
    let p = save_clipboard_image("/ws/doc.md", "img1", "png").unwrap();
    assert_eq!(p.dir, "/ws/doc");
    assert_eq!(p.file, "/ws/doc/img1.png");
    assert_eq!(p.relative, "doc/img1.png");
    let again = save_clipboard_image("/ws/doc.md", "img1", "png").unwrap();
    assert_eq!(again.file, p.file);
    assert_eq!(again.relative, "doc/img1.png");
}

#[test]
fn pasted_asset_stem_drops_last_extension_only() {
    let p = save_clipboard_image("/ws/deck.v2.md", "shot", "jpg").unwrap();
    assert_eq!(p.dir, "/ws/deck.v2");
    assert_eq!(p.relative, "deck.v2/shot.jpg");
}

#[test]
fn pasted_asset_for_relative_document() {
    let p = save_clipboard_image("doc.md", "a", "gif").unwrap();
    assert_eq!(p.dir, "doc");
    assert_eq!(p.file, "doc/a.gif");
    assert_eq!(p.relative, "doc/a.gif");
}

#[test]
fn pasted_asset_for_root_is_invalid() {
    let e = save_clipboard_image("/", "img1", "png").unwrap_err();
    assert_eq!(e.kind, ErrorKind::InvalidPath);
    let e = save_clipboard_image("", "img1", "png").unwrap_err();
    assert_eq!(e.kind, ErrorKind::InvalidPath);
}

#[test]
fn plan_from_missing_parts() {
    let e = plan_from_parts("/ws/doc.md", None, Some("/ws".to_string()), "a", "png").unwrap_err();
    assert_eq!(e.kind, ErrorKind::InvalidPath);
    assert_eq!(e.message(), "the file path is invalid");
    let e = plan_from_parts("/ws/doc.md", Some("doc".to_string()), None, "a", "png").unwrap_err();
    assert_eq!(e.kind, ErrorKind::InvalidPath);
    assert_eq!(e.message(), "the parent directory cannot be found");
    let p = plan_from_parts("/ws/doc.md", Some("doc".to_string()), Some("/ws/".to_string()), "a", "png").unwrap();
    assert_eq!(p.dir, "/ws/doc");
    assert_eq!(p.file, "/ws/doc/a.png");
}

#[test]
fn pasted_asset_name_with_separator_is_invalid() {
    let e = save_clipboard_image("/ws/doc.md", "/x", "png").unwrap_err();
    assert_eq!(e.kind, ErrorKind::InvalidPath);
    let e = save_clipboard_image("/ws/doc.md", "../x", "png").unwrap_err();
    assert_eq!(e.kind, ErrorKind::InvalidPath);
    let e = save_clipboard_image("/ws/doc.md", "x", "p/ng").unwrap_err();
    assert_eq!(e.kind, ErrorKind::InvalidPath);
}

#[test]
fn pasted_asset_for_hidden_dot_document_is_invalid() {
    let e = save_clipboard_image("/ws/.hidden", "img1", "png").unwrap_err();
    assert_eq!(e.kind, ErrorKind::InvalidPath);
    assert_eq!(e.message(), "the file path is invalid");
}

#[test]
fn pasted_asset_for_extensionless_document_is_invalid() {
    let e = save_clipboard_image("/ws/README", "img1", "png").unwrap_err();
    assert_eq!(e.kind, ErrorKind::InvalidPath);
}

#[test]
fn plan_refuses_bad_parts() {
    let e = plan_from_parts("/ws/doc.md", Some("".to_string()), Some("/ws".to_string()), "a", "png")
        .unwrap_err();
    assert_eq!(e.kind, ErrorKind::InvalidPath);
    let e = plan_from_parts("/ws/doc.md", Some("d/c".to_string()), Some("/ws".to_string()), "a", "png")
        .unwrap_err();
    assert_eq!(e.kind, ErrorKind::InvalidPath);
    let e = plan_from_parts("/ws/doc", Some("doc".to_string()), Some("/ws".to_string()), "a", "png")
        .unwrap_err();
    assert_eq!(e.kind, ErrorKind::InvalidPath);
}

#[test]
fn join_adds_separator_when_needed() {
    assert_eq!(join_path("/home/u", "mdslide"), "/home/u/mdslide");
    assert_eq!(join_path("/home/u/", "mdslide"), "/home/u/mdslide");
    assert_eq!(join_path("", "mdslide"), "mdslide");
    assert_eq!(join_path("/home/u", "/abs"), "/abs");
}

#[test]
fn config_path_under_home() {
    assert_eq!(config_path_for_home("/home/u"), "/home/u/.mdslide_config.json");
    assert_eq!(base_or_current(None), ".");
    assert_eq!(base_or_current(Some("/h".to_string())), "/h");
    assert!(get_config_path().ends_with("/.mdslide_config.json"));
}

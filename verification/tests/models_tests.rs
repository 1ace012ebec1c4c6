use rustico::models::{
    Component, Container, DiscordWebhookV2, MediaGallery, Section, Separator, TextDisplay,
    COMPONENTS_V2_FLAG,
};

fn to_value(text: &str) -> serde_json::Value {
    serde_json::from_str(text).unwrap()
}

#[test]
fn test_container_serialization() {
    let container = Container::new(
        Some(0x1E90FF),
        vec![Component::TextDisplay(TextDisplay::new("Hello"))],
    );
    let json = to_value(&container.to_json());
    assert_eq!(json["type"], 17);
    assert_eq!(json["accent_color"], 0x1E90FF);
    assert!(json["components"].is_array());
}

#[test]
fn test_text_display_serialization() {
    let td = TextDisplay::new("Test content");
    let json = to_value(&td.to_json());
    assert_eq!(json["type"], 10);
    assert_eq!(json["content"], "Test content");
}

#[test]
fn test_separator_serialization() {
    let sep = Separator::new(true, false);
    let json = to_value(&sep.to_json());
    assert_eq!(json["type"], 14);
    assert_eq!(json["divider"], true);
    assert_eq!(json["spacing"], 1);

    let large_sep = Separator::new(false, true);
    let json = to_value(&large_sep.to_json());
    assert_eq!(json["spacing"], 2);
}

#[test]
fn test_section_with_thumbnail_serialization() {
    let section = Section::with_thumbnail(
        vec![Component::TextDisplay(TextDisplay::new("Header"))],
        "https://example.com/image.png",
    );
    let json = to_value(&section.to_json());
    assert_eq!(json["type"], 9);
    assert_eq!(json["accessory"]["type"], 11);
    assert_eq!(
        json["accessory"]["media"]["url"],
        "https://example.com/image.png"
    );
}

#[test]
fn test_media_gallery_serialization() {
    let gallery = MediaGallery::single("https://example.com/img.png");
    let json = to_value(&gallery.to_json());
    assert_eq!(json["type"], 12);
    assert_eq!(json["items"].as_array().unwrap().len(), 1);
}

#[test]
fn test_webhook_v2_serialization() {
    let payload = DiscordWebhookV2 {
        username: "Rustico".to_string(),
        avatar_url: None,
        flags: COMPONENTS_V2_FLAG,
        components: vec![Component::Container(Container::new(
            Some(0xFF0000),
            vec![Component::TextDisplay(TextDisplay::new("Test"))],
        ))],
    };
    let json = to_value(&payload.to_json());
    assert_eq!(json["username"], "Rustico");
    assert_eq!(json["flags"], 32768);
    assert!(json["avatar_url"].is_null());
}

#[test]
fn test_build_components() {
    let components = vec![Component::Container(Container::new(
        Some(0x1E90FF),
        vec![Component::TextDisplay(TextDisplay::new("Test message"))],
    ))];

    assert_eq!(components.len(), 1);
}

#[test]
fn json_text_is_exact_and_escaped() {
    let td = TextDisplay::new("a \"quoted\"\\ line\nnext\u{1}");
    assert_eq!(
        td.to_json(),
        "{\"type\":10,\"content\":\"a \\\"quoted\\\"\\\\ line\\nnext\\u0001\"}"
    );
    let back = to_value(&td.to_json());
    assert_eq!(back["content"], "a \"quoted\"\\ line\nnext\u{1}");
    let c = Component::Container(Container::new(
        None,
        vec![
            Component::Separator(Separator::new(false, false)),
            Component::TextDisplay(TextDisplay::new("x")),
        ],
    ));
    assert_eq!(
        c.to_json(),
        "{\"type\":17,\"components\":[{\"type\":14,\"divider\":false,\"spacing\":1},{\"type\":10,\"content\":\"x\"}]}"
    );
}

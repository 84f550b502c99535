use omnivyou::media_type::{classify_kind, has_prefix, same_text, Kind, Type};
use omnivyou::root::{invalid_type_text, App};

#[test]
fn classify_by_prefix() {
    assert!(matches!(Type::from("audio/mpeg".to_string()), Type::Audio(s) if s == "audio/mpeg"));
    assert!(matches!(Type::from("image/png".to_string()), Type::Image(s) if s == "image/png"));
    assert!(matches!(Type::from("video/mp4".to_string()), Type::Video(s) if s == "video/mp4"));
    assert!(matches!(Type::from("text/plain".to_string()), Type::Invalid(s) if s == "text/plain"));
}

#[test]
fn classify_edge_cases() {
    assert!(matches!(Type::from(String::new()), Type::Invalid(s) if s.is_empty()));
    assert!(matches!(Type::from("audio".to_string()), Type::Invalid(_)));
    assert!(matches!(Type::from("Audio/mpeg".to_string()), Type::Invalid(_)));
    assert!(matches!(Type::from("audio/".to_string()), Type::Audio(_)));
    assert!(matches!(Type::from("xaudio/mp3".to_string()), Type::Invalid(_)));
    assert_eq!(classify_kind("image/svg+xml"), Kind::Image);
    assert_eq!(classify_kind("application/octet-stream"), Kind::Invalid);
}

#[test]
fn classify_is_deterministic() {
    for s in ["audio/ogg", "image/jpeg", "video/webm", "font/woff", "", "é/ü"] {
        let a = Type::from(s.to_string());
        let b = Type::from(s.to_string());
        assert!(a.same_as(&b));
        assert_eq!(a.mime().as_str(), s);
    }
}

#[test]
fn type_kind_and_same_as() {
    let a = Type::from("video/mp4".to_string());
    assert_eq!(a.kind(), Kind::Video);
    assert!(!a.same_as(&Type::from("video/webm".to_string())));
    assert!(a.same_as(&Type::from("video/mp4".to_string())));
}

#[test]
fn prefix_and_text_equality() {
    assert!(has_prefix("abc", ""));
    assert!(has_prefix("abc", "ab"));
    assert!(!has_prefix("ab", "abc"));
    assert!(!has_prefix("abc", "b"));
    assert!(same_text("Escape", "Escape"));
    assert!(!same_text("Escape", "Escap"));
}

#[test]
fn notices() {
    assert_eq!(invalid_type_text("text/plain"), "Invalid media type 'text/plain'");
    assert_eq!(invalid_type_text(""), "Invalid media type ''");
    assert_eq!(App::not_found_text(None), "Page not found!");
    assert_eq!(App::not_found_text(Some("/x/y")), "Page '/x/y' not found!");
}

use dusk_warden::mapping::SecretMapping;

#[test]
fn mapping_keeps_path_and_id() {
    let mapping = SecretMapping::new(".env".to_string(), "abc-123".to_string()).unwrap();
    assert_eq!(mapping.path(), ".env");
    assert_eq!(mapping.id(), "abc-123");
}

#[test]
fn mapping_needs_a_path() {
    assert_eq!(SecretMapping::new(String::new(), "abc-123".to_string()), None);
}

#[test]
fn mapping_needs_an_id() {
    assert_eq!(SecretMapping::new(".env".to_string(), String::new()), None);
}

#[test]
fn mapping_takes_any_other_text() {
    let mapping = SecretMapping::new(" ".to_string(), "é".to_string()).unwrap();
    assert_eq!(mapping.path(), " ");
    assert_eq!(mapping.id(), "é");
}

use minecraft_rs::authentication::utils::query_string_builder::{takes_params, QueryString};

#[test]
fn test_query_string() {
    let query = QueryString::default()
        .add_str("key", "value")
        .add_optional_string("key2", Some("value2".to_string()))
        .add_optional_display("key3", Some(true));
    assert_eq!(query.query.len(), 3);
    let query = query.build();
    assert!(query.contains("key=value"));
    assert!(query.contains("key2=value2"));
    assert!(query.contains("key3=true"));
    println!("{query:?}")
}

#[test]
fn build_joins_entries_in_order() {
    let query = QueryString::new_with_capacity(3)
        .add_str("a", "1")
        .add_string("b", "2".to_string())
        .add_display("c", 3);
    assert_eq!(query.build(), "a=1&b=2&c=3");
}

#[test]
fn build_of_no_entry_is_empty() {
    assert_eq!(QueryString::default().build(), "");
    assert_eq!(QueryString::new_with_capacity(8).build(), "");
}

#[test]
fn build_of_one_entry_has_no_separator() {
    assert_eq!(QueryString::default().add_str("only", "one").build(), "only=one");
}

#[test]
fn optional_entries_are_left_out_when_absent() {
    let query = QueryString::default()
        .add_optional_str("a", None)
        .add_optional_str("b", Some("2"))
        .add_optional_string("c", None)
        .add_optional_display::<u8>("d", None)
        .add_optional_display("e", Some(5u8));
    assert_eq!(query.query.len(), 2);
    assert_eq!(query.build(), "b=2&e=5");
}

#[test]
fn build_escapes_nothing() {
    let query = QueryString::default().add_str("scope", "a%20b").add_str("x", "y&z=1");
    assert_eq!(query.build(), "scope=a%20b&x=y&z=1");
}

#[test]
fn build_with_url_appends_encoded_pairs() {
    let built = QueryString::default()
        .add_str("lang", "rust")
        .add_str("q", "a b&c")
        .build_with_url("https://example.net?dont=clobberme")
        .expect("an absolute URL");
    assert_eq!(built, "https://example.net/?dont=clobberme&lang=rust&q=a+b%26c");
}

#[test]
fn build_with_url_refuses_a_relative_url() {
    let built = QueryString::default().add_str("a", "b").build_with_url("/only/a/path");
    assert_eq!(built, Err(url::ParseError::RelativeUrlWithoutBase));
}

#[test]
fn entries_are_added_only_to_texts_without_a_fragment() {
    assert!(takes_params("https://example.net?dont=clobberme"));
    assert!(takes_params(""));
    assert!(!takes_params("https://example.net/#top"));
    assert!(!takes_params("#"));
}

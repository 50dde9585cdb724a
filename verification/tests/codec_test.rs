use blog_api::JsonValue;
use blog_api::PostMetadata;
use blog_api::PostSettings;
use blog_api::SeoMetadata;
use blog_api::Tag;

fn full_metadata() -> PostMetadata {
    PostMetadata {
        tags: vec![
            Tag { name: "rust".to_owned(), color: Some("#DEA584".to_owned()) },
            Tag { name: "api".to_owned(), color: None },
        ],
        seo: Some(SeoMetadata {
            meta_title: Some("Article complet | Mon Blog".to_owned()),
            meta_description: None,
            keywords: vec!["rust".to_owned(), "backend".to_owned()],
        }),
        settings: Some(PostSettings {
            allow_comments: true,
            featured: false,
            reading_time_minutes: Some(5),
        }),
    }
}

#[test]
fn test_metadata_round_trip_full() {
    let m = full_metadata();
    let encoded = m.to_json();
    let decoded = PostMetadata::from_json(&encoded).expect("valid document decodes");
    assert!(decoded == m);
}

#[test]
fn test_metadata_round_trip_default() {
    let m = PostMetadata::default();
    let encoded = m.to_json();
    let decoded = PostMetadata::from_json(&encoded).expect("valid document decodes");
    assert!(decoded == m);
    assert_eq!(decoded.tags.len(), 0);
    assert!(decoded.seo.is_none());
    assert!(decoded.settings.is_none());
}

#[test]
fn test_bad_stored_json_falls_back_to_default() {
    let stored = JsonValue::Str("not an object".to_owned());
    let decoded = PostMetadata::from_json_or_default(&stored);
    assert!(decoded == PostMetadata::default());
}

#[test]
fn test_missing_tags_key_is_a_mismatch() {
    let stored = JsonValue::Obj(vec![("seo".to_owned(), JsonValue::Null)]);
    assert!(PostMetadata::from_json(&stored).is_none());
    let decoded = PostMetadata::from_json_or_default(&stored);
    assert!(decoded == PostMetadata::default());
}

#[test]
fn test_unknown_keys_are_ignored() {
    let stored = JsonValue::Obj(vec![
        ("tags".to_owned(), JsonValue::Arr(vec![])),
        ("extra".to_owned(), JsonValue::Int(7)),
    ]);
    let decoded = PostMetadata::from_json(&stored).expect("extra keys do not matter");
    assert!(decoded == PostMetadata::default());
}

#[test]
fn test_tag_decode_requires_name() {
    let stored = JsonValue::Obj(vec![(
        "tags".to_owned(),
        JsonValue::Arr(vec![JsonValue::Obj(vec![(
            "color".to_owned(),
            JsonValue::Str("#FF0000".to_owned()),
        )])]),
    )]);
    assert!(PostMetadata::from_json(&stored).is_none());
}

#[test]
fn test_seo_decode_requires_keyword_array() {
    let stored = JsonValue::Obj(vec![
        ("tags".to_owned(), JsonValue::Arr(vec![])),
        (
            "seo".to_owned(),
            JsonValue::Obj(vec![(
                "meta_title".to_owned(),
                JsonValue::Str("Titre".to_owned()),
            )]),
        ),
    ]);
    assert!(PostMetadata::from_json(&stored).is_none());
}

#[test]
fn test_settings_decode_requires_booleans() {
    let stored = JsonValue::Obj(vec![
        ("tags".to_owned(), JsonValue::Arr(vec![])),
        (
            "settings".to_owned(),
            JsonValue::Obj(vec![("allow_comments".to_owned(), JsonValue::Bool(true))]),
        ),
    ]);
    assert!(PostMetadata::from_json(&stored).is_none());
}

#[test]
fn test_reading_time_out_of_i32_range_is_a_mismatch() {
    let stored = JsonValue::Obj(vec![
        ("tags".to_owned(), JsonValue::Arr(vec![])),
        (
            "settings".to_owned(),
            JsonValue::Obj(vec![
                ("allow_comments".to_owned(), JsonValue::Bool(true)),
                ("featured".to_owned(), JsonValue::Bool(false)),
                ("reading_time_minutes".to_owned(), JsonValue::Int(1i64 << 40)),
            ]),
        ),
    ]);
    assert!(PostMetadata::from_json(&stored).is_none());
}

#[test]
fn test_null_optional_blocks_decode_as_absent() {
    let stored = JsonValue::Obj(vec![
        ("tags".to_owned(), JsonValue::Arr(vec![])),
        ("seo".to_owned(), JsonValue::Null),
        ("settings".to_owned(), JsonValue::Null),
    ]);
    let decoded = PostMetadata::from_json(&stored).expect("nulls are accepted");
    assert!(decoded.seo.is_none());
    assert!(decoded.settings.is_none());
}

#[test]
fn test_encoded_shape_of_a_tag() {
    let t = Tag { name: "rust".to_owned(), color: None };
    let encoded = t.to_json();
    match encoded {
        JsonValue::Obj(pairs) => {
            assert_eq!(pairs.len(), 2);
            assert_eq!(pairs[0].0, "name");
            match &pairs[0].1 {
                JsonValue::Str(s) => assert_eq!(s, "rust"),
                _ => panic!("name must encode as a string"),
            }
            assert_eq!(pairs[1].0, "color");
            assert!(matches!(pairs[1].1, JsonValue::Null));
        },
        _ => panic!("a tag must encode as an object"),
    }
}

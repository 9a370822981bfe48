use api_model::metadata::{default_metadata_for_deserializer, Labels, Metadata};

fn labels(pairs: &[(&str, &str)]) -> Labels {
    Labels::from_pairs(pairs.iter().map(|(k, v)| (k.to_string(), v.to_string())).collect())
}

fn meta(name: &str, description: &str, pairs: &[(&str, &str)]) -> Metadata {
    Metadata { name: name.to_string(), description: description.to_string(), labels: labels(pairs) }
}

fn long(n: usize) -> String {
    "a".repeat(n)
}

fn one_label(key: String, value: String) -> Labels {
    Labels::from_pairs(vec![(key, value)])
}

fn letters(s: &str) -> Labels {
    Labels::from_pairs(s.chars().map(|c| (c.to_string(), "x".to_string())).collect())
}

#[test]
fn validate_with_min_length_required() {
    let cases: Vec<(&str, Metadata, bool)> = vec![
        ("valid name, description, and label", meta("nice_name", "anything is fine", &[("key1", "val1")]), true),
        ("no labels is fine", meta("nice_name", "", &[]), true),
        ("name at min length (2)", meta("ab", "", &[]), true),
        ("name one below min length (1)", meta("x", "", &[]), false),
        ("empty name rejected when min length required", meta("", "", &[]), false),
        ("name at max length (256)", Metadata { name: long(256), ..Metadata::default() }, true),
        ("name one over max length (257)", Metadata { name: long(257), ..Metadata::default() }, false),
        ("non-ascii name rejected", meta("것봐", "", &[]), false),
        (
            "description at max length (1024)",
            Metadata { name: "nice name".to_string(), description: long(1024), ..Metadata::default() },
            true,
        ),
        (
            "description one over max length (1025)",
            Metadata { name: "nice name".to_string(), description: long(1025), ..Metadata::default() },
            false,
        ),
        ("empty label key rejected", meta("nice name", "", &[("", "val1")]), false),
        ("non-ascii label key rejected", meta("nice name", "", &[("것봐", "val1")]), false),
        (
            "label key at max length (255)",
            Metadata { name: "nice name".to_string(), labels: one_label(long(255), "val1".to_string()), ..Metadata::default() },
            true,
        ),
        (
            "label key one over max length (256)",
            Metadata { name: "nice name".to_string(), labels: one_label(long(256), "val1".to_string()), ..Metadata::default() },
            false,
        ),
        (
            "label value at max length (255)",
            Metadata { name: "nice name".to_string(), labels: one_label("key1".to_string(), long(255)), ..Metadata::default() },
            true,
        ),
        (
            "label value one over max length (256)",
            Metadata { name: "nice name".to_string(), labels: one_label("key1".to_string(), long(256)), ..Metadata::default() },
            false,
        ),
        ("empty label value is fine", meta("nice name", "", &[("key1", "")]), true),
        (
            "labels at max count (16)",
            Metadata { name: "nice name".to_string(), labels: letters("abcdefghijklmnop"), ..Metadata::default() },
            true,
        ),
        (
            "labels one over max count (17)",
            Metadata { name: "nice name".to_string(), labels: letters("abcdefghijklmnopq"), ..Metadata::default() },
            false,
        ),
    ];
    for (scenario, m, ok) in cases {
        assert_eq!(m.validate(true).is_ok(), ok, "{scenario}");
    }
}

#[test]
fn validate_without_min_length_required() {
    let cases: Vec<(&str, Metadata, bool)> = vec![
        ("empty name allowed when min length not required", meta("", "anything is fine", &[("key1", "val1")]), true),
        ("single-char name allowed when min length not required", meta("x", "", &[]), true),
        ("name still capped at max length (257 rejected)", Metadata { name: long(257), ..Metadata::default() }, false),
        ("non-ascii name still rejected", meta("것봐", "", &[]), false),
        ("label checks still apply (empty key rejected)", meta("", "", &[("", "val1")]), false),
    ];
    for (scenario, m, ok) in cases {
        assert_eq!(m.validate(false).is_ok(), ok, "{scenario}");
    }
}

#[test]
fn validate_error_message_names_the_offending_field() {
    let cases: Vec<(&str, Metadata, &[&str])> = vec![
        ("short-name error mentions length bounds", meta("x", "", &[]), &["between", "256"][..]),
        ("non-ascii name error mentions ASCII", meta("것봐", "", &[]), &["ASCII"][..]),
        (
            "long-description error mentions Description",
            Metadata { name: "nice name".to_string(), description: long(1025), ..Metadata::default() },
            &["Description", "1024"][..],
        ),
        ("empty-key error mentions empty", meta("nice name", "", &[("", "v")]), &["empty"][..]),
        (
            "too-many-labels error mentions the count",
            Metadata { name: "nice name".to_string(), labels: letters("abcdefghijklmnopq"), ..Metadata::default() },
            &["more than 16", "17"][..],
        ),
    ];
    for (scenario, m, tokens) in cases {
        let message = m.validate(true).unwrap_err().message().to_string();
        assert!(tokens.iter().all(|t| message.contains(t)), "{scenario}: {message}");
    }
}

#[test]
fn validate_error_messages_are_exact() {
    let m = meta("x", "", &[]);
    assert_eq!(m.validate(true).unwrap_err().message(), "Name must be between 2 and 256 characters long, got 1 characters");
    // The name's length is counted in bytes: two Hangul syllables are six bytes.
    let m = meta("것봐", "", &[]);
    assert_eq!(m.validate(true).unwrap_err().message(), "Name '것봐' must contain ASCII characters only");
    let m = meta("nice name", "", &[("key1", &long(256))]);
    assert_eq!(
        m.validate(true).unwrap_err().message(),
        format!("Label value '{}' for key 'key1' is too long (max 255 characters)", long(256))
    );
    let m = meta("nice name", "", &[("", "v")]);
    assert_eq!(m.validate(true).unwrap_err().message(), "Label key cannot be empty.");
    let m = Metadata { name: "nice name".to_string(), labels: letters("abcdefghijklmnopq"), ..Metadata::default() };
    assert_eq!(m.validate(true).unwrap_err().message(), "Cannot have more than 16 labels, got 17");
}

#[test]
fn name_length_is_counted_in_bytes() {
    // 129 two-byte characters are 258 bytes: too long even though only 129 characters.
    let m = Metadata { name: "é".repeat(129), ..Metadata::default() };
    assert!(m.validate(false).is_err());
}

#[test]
fn min_length_only_narrows_what_validates() {
    for m in [meta("ab", "", &[]), meta("x", "", &[]), meta("", "", &[]), meta("것봐", "", &[])] {
        if m.validate(true).is_ok() {
            assert!(m.validate(false).is_ok());
        }
    }
}

#[test]
fn constructors_produce_expected_metadata() {
    assert_eq!(
        Metadata::new_with_default_name(),
        Metadata { name: "default_name".to_string(), description: String::new(), labels: Labels::new() },
        "new_with_default_name sets the default name"
    );
    assert_eq!(
        Metadata::default(),
        Metadata { name: String::new(), description: String::new(), labels: Labels::new() },
        "default is fully empty"
    );
    assert_eq!(default_metadata_for_deserializer(), Metadata::default(), "deserializer default matches Metadata::default");
}

#[test]
fn default_name_validates() {
    assert!(Metadata::new_with_default_name().validate(true).is_ok());
}

#[test]
fn labels_keep_the_last_value_of_a_key() {
    let l = labels(&[("a", "1"), ("b", "2"), ("a", "3")]);
    assert_eq!(l.len(), 2);
    assert_eq!(l.get("a").map(|s| s.as_str()), Some("3"));
    assert_eq!(l.get("b").map(|s| s.as_str()), Some("2"));
    assert_eq!(l.get("c"), None);
    let mut l2 = Labels::new();
    assert_eq!(l2.insert("b".to_string(), "2".to_string()), None);
    assert_eq!(l2.insert("a".to_string(), "1".to_string()), None);
    assert_eq!(l2.insert("a".to_string(), "3".to_string()), Some("1".to_string()));
    assert_eq!(l, l2);
}

use std::collections::hash_map::DefaultHasher;
use std::hash::{Hash, Hasher};

use lenra_cli::docker::normalize_tag;
use regex::Regex;

fn expected_long_tag(name: &str) -> String {
    let re = Regex::new(r"[^A-Za-z0-9._-]").unwrap();
    let tag = re.replace_all(name, "-").to_string();
    let mut hacher = DefaultHasher::new();
    tag.hash(&mut hacher);
    let hash = format!("{:X}", hacher.finish());
    format!("{}{}", tag.chars().take(63 - hash.len()).collect::<String>(), hash)
}

#[test]
fn prefixed_tag_name() {
    let tag_name = "prefixed/branch-name".to_string();
    assert_eq!(normalize_tag(tag_name), "prefixed-branch-name".to_string());
}

#[test]
fn long_tag_name() {
    let tag_name =
        "prefixed/branch-name/with_many-many.many_many&many-many/underscore".to_string();
    let tag = expected_long_tag(&tag_name);
    assert_eq!(normalize_tag(tag_name), tag);
}

#[test]
fn normalized_tag_is_valid_and_stable() {
    let long = "feature/a-very-long-branch-name-that-goes/on-and-on-and-on-for-more-than-sixty-three";
    let tag = normalize_tag(long.to_string());
    assert_eq!(tag.chars().count(), 63);
    assert!(tag
        .chars()
        .all(|c| c.is_ascii_alphanumeric() || c == '.' || c == '_' || c == '-'));
    assert_eq!(normalize_tag(tag.clone()), tag);
    assert_eq!(normalize_tag("main".to_string()), "main");
    assert_eq!(normalize_tag("é/ü".to_string()), "---");
}

use pixbox::naming::{artifact_key, edited_path, output_path, short_name, EDITED_ROOT, OUTPUT_ROOT};
use pixbox::registry::{registry, Transform};

#[test]
fn roots_are_the_fixed_directories() {
    assert_eq!(EDITED_ROOT, "./images/edited/");
    assert_eq!(OUTPUT_ROOT, "./data/test-output/");
}

#[test]
fn key_is_transform_hyphen_name() {
    assert_eq!(artifact_key(Transform::Oceanic, "cat.png"), "oceanic-cat.png");
    assert_eq!(artifact_key(Transform::Bluechrome, "x"), "bluechrome-x");
    assert_eq!(artifact_key(Transform::Radio, ""), "radio-");
}

#[test]
fn key_keeps_the_name_verbatim() {
    assert_eq!(artifact_key(Transform::Mauve, "a-b/c d.png"), "mauve-a-b/c d.png");
    assert_eq!(artifact_key(Transform::Mauve, "caf\u{e9}.png"), "mauve-caf\u{e9}.png");
}

#[test]
fn keys_of_distinct_uploads_differ() {
    let names = ["cat.png", "dog.png", "-cat.png", "oceanic-cat.png", ""];
    let mut keys: Vec<String> = Vec::new();
    for t in registry() {
        for n in names.iter() {
            keys.push(artifact_key(t, n));
        }
    }
    for i in 0..keys.len() {
        for j in 0..keys.len() {
            assert_eq!(keys[i] == keys[j], i == j);
        }
    }
}

#[test]
fn name_alone_is_not_a_key() {
    for t in registry() {
        assert_ne!(artifact_key(t, "cat.png"), "cat.png");
    }
}

#[test]
fn edited_path_is_root_and_key() {
    assert_eq!(edited_path("oceanic-cat.png"), "./images/edited/oceanic-cat.png");
    assert_eq!(edited_path(""), "./images/edited/");
}

#[test]
fn edited_path_does_not_sanitise() {
    assert_eq!(edited_path("../secret.png"), "./images/edited/../secret.png");
}

#[test]
fn output_path_is_root_and_key() {
    assert_eq!(output_path("oceanic-cat.png"), "./data/test-output/oceanic-cat.png");
}

#[test]
fn short_name_is_the_last_segment() {
    assert_eq!(short_name("data/input/cat.png"), "cat.png");
    assert_eq!(short_name("/cat.png"), "cat.png");
    assert_eq!(short_name("./a/b/c"), "c");
}

#[test]
fn short_name_of_a_plain_name_is_the_name() {
    assert_eq!(short_name("cat.png"), "cat.png");
    assert_eq!(short_name(""), "");
}

#[test]
fn short_name_behind_a_trailing_separator_is_empty() {
    assert_eq!(short_name("data/input/"), "");
    assert_eq!(short_name("/"), "");
}

#[test]
fn short_name_counts_characters_not_bytes() {
    assert_eq!(short_name("d\u{e9}p\u{f4}t/caf\u{e9}.png"), "caf\u{e9}.png");
    assert_eq!(short_name("\u{1f431}/\u{1f431}"), "\u{1f431}");
}

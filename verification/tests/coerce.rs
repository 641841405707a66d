use angle_gles_generator::{resolve_gles_version, resolve_rust_target, GlesVersion};
use bindgen::RustTarget;

#[test]
fn known_gles_versions_resolve_to_themselves() {
    assert_eq!(resolve_gles_version("2.0"), (2, 0));
    assert_eq!(resolve_gles_version("3.0"), (3, 0));
    assert_eq!(resolve_gles_version("3.1"), (3, 1));
}

#[test]
fn unknown_gles_versions_fall_back_to_3_1() {
    for text in ["", "3.2", "1.0", "4.6", "2", "2.00", "3.0 ", " 3.0", "v2.0", "latest", "２.０"] {
        assert_eq!(resolve_gles_version(text), (3, 1), "{:?}", text);
    }
}

#[test]
fn a_mistyped_gles_version_silently_becomes_3_1() {
    assert_eq!(resolve_gles_version("2,0"), (3, 1));
    assert_eq!(resolve_gles_version("3.O"), (3, 1));
}

#[test]
fn a_gles_version_given_as_pair_is_taken_as_it_is() {
    assert_eq!(GlesVersion::Pair((2, 0)).resolve(), (2, 0));
    assert_eq!(GlesVersion::Pair((3, 2)).resolve(), (3, 2));
    assert_eq!(GlesVersion::Pair((0, 0)).resolve(), (0, 0));
    assert_eq!(GlesVersion::Pair((255, 255)).resolve(), (255, 255));
}

#[test]
fn a_gles_version_given_as_text_is_resolved() {
    assert_eq!(GlesVersion::Text("3.0".to_string()).resolve(), (3, 0));
    assert_eq!(GlesVersion::Text("2.0".to_string()).resolve(), (2, 0));
    assert_eq!(GlesVersion::Text("3.2".to_string()).resolve(), (3, 1));
}

#[test]
fn rust_1_40_is_recognised() {
    assert_eq!(resolve_rust_target("1.40"), Some(RustTarget::Stable_1_40));
}

#[test]
fn nightly_is_recognised_in_any_case() {
    for text in ["nightly", "Nightly", "NIGHTLY", "nIgHtLy"] {
        assert_eq!(resolve_rust_target(text), Some(RustTarget::Nightly), "{:?}", text);
    }
}

#[test]
fn other_rust_versions_are_unspecified() {
    for text in
        ["", "1.4", "1.400", "1.41", "1.73", "stable", "beta", "night", "nightly ", " 1.40", "1,40"]
    {
        assert_eq!(resolve_rust_target(text), None, "{:?}", text);
    }
}

#[test]
fn letters_outside_ascii_are_not_folded() {
    // U+212A, the Kelvin sign, lower-cases to `k` in Unicode; U+0130 to `i`
    // with a dot above.
    assert_eq!(resolve_rust_target("n\u{0130}ghtly"), None);
    assert_eq!(resolve_rust_target("ＮＩＧＨＴＬＹ"), None);
}

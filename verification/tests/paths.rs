use angle_gles_generator::paths::{eglplatform_header, include_dir, join, khrplatform_header};
use std::path::Path;

#[test]
fn join_puts_one_separator_between_base_and_component() {
    assert_eq!(join("/tmp/out", "gl_bindings.rs"), "/tmp/out/gl_bindings.rs");
    assert_eq!(join("out", "egl_bindings.rs"), "out/egl_bindings.rs");
}

#[test]
fn join_adds_no_separator_after_one() {
    assert_eq!(join("/tmp/out/", "gl_bindings.rs"), "/tmp/out/gl_bindings.rs");
    assert_eq!(join("/", "gl_bindings.rs"), "/gl_bindings.rs");
    assert_eq!(join("a//", "b"), "a//b");
}

#[test]
fn join_to_an_empty_base_is_the_component() {
    assert_eq!(join("", "gl_bindings.rs"), "gl_bindings.rs");
    assert_eq!(join("", ""), "");
}

#[test]
fn join_of_an_empty_component_closes_the_base() {
    assert_eq!(join("out", ""), "out/");
    assert_eq!(join("out/", ""), "out/");
}

#[test]
fn join_of_a_rooted_component_drops_the_base() {
    assert_eq!(join("/tmp/out", "/etc/passwd"), "/etc/passwd");
    assert_eq!(join("", "/"), "/");
}

#[test]
fn join_keeps_characters_outside_ascii() {
    assert_eq!(join("/home/jürgen/出力", "gl_bindings.rs"), "/home/jürgen/出力/gl_bindings.rs");
    assert_eq!(join("out", "ö"), "out/ö");
}

#[test]
fn join_agrees_with_std_paths() {
    let parts = ["", "/", "a", "a/", "/a", "/a/b", "a//", "../", "..", ".", "include", "é/"];
    for base in parts {
        for component in parts {
            let expected = Path::new(base).join(component);
            assert_eq!(
                join(base, component),
                expected.to_str().unwrap(),
                "{:?} {:?}",
                base,
                component
            );
        }
    }
}

#[test]
fn headers_lie_beside_the_build_directory() {
    let home = "/src/angle/out/Release";
    assert_eq!(include_dir(home), "/src/angle/out/Release/../include");
    assert_eq!(khrplatform_header(home), "/src/angle/out/Release/../include/KHR/khrplatform.h");
    assert_eq!(eglplatform_header(home), "/src/angle/out/Release/../include/EGL/eglplatform.h");
}

#[test]
fn a_closing_separator_of_the_build_directory_is_not_doubled() {
    let home = "/src/angle/out/Release/";
    assert_eq!(include_dir(home), "/src/angle/out/Release/../include");
    assert_eq!(khrplatform_header(home), "/src/angle/out/Release/../include/KHR/khrplatform.h");
    assert_eq!(eglplatform_header(home), "/src/angle/out/Release/../include/EGL/eglplatform.h");
}

#[test]
fn an_empty_build_directory_means_the_current_one() {
    assert_eq!(include_dir(""), "../include");
    assert_eq!(khrplatform_header(""), "../include/KHR/khrplatform.h");
    assert_eq!(eglplatform_header(""), "../include/EGL/eglplatform.h");
}

#[test]
fn header_paths_agree_with_std_paths() {
    for home in ["", "out", "out/", "/a/b c/out", "./out/Debug", "/"] {
        let dir = Path::new(home).join("../").join("include");
        assert_eq!(include_dir(home), dir.to_str().unwrap());
        assert_eq!(
            khrplatform_header(home),
            dir.join("KHR").join("khrplatform.h").to_str().unwrap()
        );
        assert_eq!(
            eglplatform_header(home),
            dir.join("EGL").join("eglplatform.h").to_str().unwrap()
        );
    }
}

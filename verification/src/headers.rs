//! The two platform headers, as requests to `bindgen`.
//!
//! Each header is translated with the declarations it emits held to a fixed
//! list of types: the types that the generated EGL bindings leave to the
//! platform.

use vstd::prelude::*;
use vstd::string::StringExecFns;
use crate::paths::{
    eglplatform_header, eglplatform_header_of, include_dir, include_dir_of, khrplatform_header,
    khrplatform_header_of,
};

verus! {

/// `bindgen::Builder`: the options of one translation. The library sees
/// nothing inside it; what it holds is spoken of through `builder_options`.
#[verifier::external_type_specification]
#[verifier::external_body]
pub struct ExBuilder(bindgen::Builder);

/// What a `bindgen::Builder` has been told of the translation to make.
pub struct BuilderOptions {
    /// The input headers, in the order they were given.
    pub headers: Seq<Seq<char>>,
    /// The arguments handed through to clang, in the order they were given.
    pub clang_args: Seq<Seq<char>>,
    /// The patterns of the types to emit, in the order they were given.
    pub allowlisted_types: Seq<Seq<char>>,
    /// The Rust release that the emitted code must compile with.
    pub rust_target: bindgen::RustTarget,
}

/// The options that a builder holds: the headers, clang arguments and type
/// patterns passed to it so far, and its Rust target.
pub uninterp spec fn builder_options(builder: bindgen::Builder) -> BuilderOptions;

/// The Rust release that `bindgen` generates for unless told otherwise: the
/// latest stable release it knows.
pub open spec fn default_rust_target() -> bindgen::RustTarget {
    bindgen::RustTarget::Stable_1_73
}

/// `bindgen::builder` returns a builder with no header, no clang argument and
/// no type pattern, targeting the latest stable release that `bindgen` knows.
pub assume_specification[ bindgen::builder ]() -> (r: bindgen::Builder)
    ensures
        builder_options(r) == (BuilderOptions {
            headers: Seq::empty(),
            clang_args: Seq::empty(),
            allowlisted_types: Seq::empty(),
            rust_target: default_rust_target(),
        }),
;

/// `bindgen::Builder::rust_target` replaces the Rust target and leaves the
/// headers, clang arguments and type patterns as they are.
pub assume_specification[ bindgen::Builder::rust_target ](
    builder: bindgen::Builder,
    rust_target: bindgen::RustTarget,
) -> (r: bindgen::Builder)
    ensures
        builder_options(r) == (BuilderOptions { rust_target, ..builder_options(builder) }),
;

/// `bindgen::Builder::header` adds `header` after the input headers given so
/// far and changes nothing else.
#[verifier::external_body]
fn add_header(builder: bindgen::Builder, header: &str) -> (r: bindgen::Builder)
    ensures
        builder_options(r) == (BuilderOptions {
            headers: builder_options(builder).headers.push(header@),
            ..builder_options(builder)
        }),
{
    builder.header(header)
}

/// `bindgen::Builder::clang_arg` adds `arg` after the clang arguments given
/// so far and changes nothing else.
#[verifier::external_body]
fn add_clang_arg(builder: bindgen::Builder, arg: &str) -> (r: bindgen::Builder)
    ensures
        builder_options(r) == (BuilderOptions {
            clang_args: builder_options(builder).clang_args.push(arg@),
            ..builder_options(builder)
        }),
{
    builder.clang_arg(arg)
}

/// `bindgen::Builder::allowlist_type` adds `pattern` after the type patterns
/// given so far and changes nothing else.
#[verifier::external_body]
fn add_allowlisted_type(builder: bindgen::Builder, pattern: &str) -> (r: bindgen::Builder)
    ensures
        builder_options(r) == (BuilderOptions {
            allowlisted_types: builder_options(builder).allowlisted_types.push(pattern@),
            ..builder_options(builder)
        }),
{
    builder.allowlist_type(pattern)
}

/// The Rust target of a translation: the one asked for, else the one that
/// `bindgen` prefers.
pub open spec fn target_or_default(target: Option<bindgen::RustTarget>) -> bindgen::RustTarget {
    match target {
        Some(target) => target,
        None => default_rust_target(),
    }
}

/// The types that `khrplatform.h` is translated for.
pub open spec fn khrplatform_types() -> Seq<Seq<char>> {
    seq!["khronos_utime_nanoseconds_t"@, "khronos_uint64_t"@, "khronos_ssize_t"@]
}

/// The types that `eglplatform.h` is translated for.
pub open spec fn eglplatform_types() -> Seq<Seq<char>> {
    seq![
        "EGLNativeDisplayType"@,
        "EGLNativePixmapType"@,
        "EGLNativeWindowType"@,
        "EGLint"@,
        "NativeDisplayType"@,
        "NativePixmapType"@,
        "NativeWindowType"@,
    ]
}

/// The translation of `khrplatform.h`: the header alone, its three types.
pub open spec fn khrplatform_options(
    angle_out_home: Seq<char>,
    rust_target: Option<bindgen::RustTarget>,
) -> BuilderOptions {
    BuilderOptions {
        headers: seq![khrplatform_header_of(angle_out_home)],
        clang_args: Seq::empty(),
        allowlisted_types: khrplatform_types(),
        rust_target: target_or_default(rust_target),
    }
}

/// The translation of `eglplatform.h`: the header, its seven types, and the
/// directory of ANGLE's headers as include path, since the header draws on
/// others there.
pub open spec fn eglplatform_options(
    angle_out_home: Seq<char>,
    rust_target: Option<bindgen::RustTarget>,
) -> BuilderOptions {
    BuilderOptions {
        headers: seq![eglplatform_header_of(angle_out_home)],
        clang_args: seq!["-I"@ + include_dir_of(angle_out_home)],
        allowlisted_types: eglplatform_types(),
        rust_target: target_or_default(rust_target),
    }
}

/// A builder with nothing to translate yet, for the given Rust target.
fn build_with(target: Option<bindgen::RustTarget>) -> (r: bindgen::Builder)
    ensures
        builder_options(r) == (BuilderOptions {
            headers: Seq::empty(),
            clang_args: Seq::empty(),
            allowlisted_types: Seq::empty(),
            rust_target: target_or_default(target),
        }),
{
    match target {
        Some(target) => bindgen::builder().rust_target(target),
        None => bindgen::builder(),
    }
}

/// Sets up the translation of `khrplatform.h` for an ANGLE build in
/// `angle_out_home`.
pub fn build_khrplatform(
    angle_out_home: &str,
    rust_target: Option<bindgen::RustTarget>,
) -> (r: bindgen::Builder)
    ensures
        builder_options(r) == khrplatform_options(angle_out_home@, rust_target),
{
    let khrplatform = khrplatform_header(angle_out_home);
    let builder = add_header(build_with(rust_target), khrplatform.as_str());
    let builder = add_allowlisted_type(builder, "khronos_utime_nanoseconds_t");
    let builder = add_allowlisted_type(builder, "khronos_uint64_t");
    let builder = add_allowlisted_type(builder, "khronos_ssize_t");
    assert(builder_options(builder).headers =~= seq![khrplatform_header_of(angle_out_home@)]);
    assert(builder_options(builder).allowlisted_types =~= khrplatform_types());
    builder
}

/// Sets up the translation of `eglplatform.h` for an ANGLE build in
/// `angle_out_home`.
pub fn build_eglplatform(
    angle_out_home: &str,
    rust_target: Option<bindgen::RustTarget>,
) -> (r: bindgen::Builder)
    ensures
        builder_options(r) == eglplatform_options(angle_out_home@, rust_target),
{
    let include_dir = include_dir(angle_out_home);
    let eglplatform = eglplatform_header(angle_out_home);

    let mut include_search = String::from_str("-I");
    include_search.append(include_dir.as_str());
    let builder = add_clang_arg(build_with(rust_target), include_search.as_str());
    let builder = add_header(builder, eglplatform.as_str());
    let builder = add_allowlisted_type(builder, "EGLNativeDisplayType");
    let builder = add_allowlisted_type(builder, "EGLNativePixmapType");
    let builder = add_allowlisted_type(builder, "EGLNativeWindowType");
    let builder = add_allowlisted_type(builder, "EGLint");
    let builder = add_allowlisted_type(builder, "NativeDisplayType");
    let builder = add_allowlisted_type(builder, "NativePixmapType");
    let builder = add_allowlisted_type(builder, "NativeWindowType");
    assert(builder_options(builder).headers =~= seq![eglplatform_header_of(angle_out_home@)]);
    assert(builder_options(builder).clang_args =~= seq!["-I"@ + include_dir_of(angle_out_home@)]);
    assert(builder_options(builder).allowlisted_types =~= eglplatform_types());
    builder
}

} // verus!

//! From the free text of a configuration to the values the generators take.
//!
//! Neither function fails: a text that names nothing known stands for a
//! default, without a diagnostic.

use vstd::prelude::*;
use crate::config::{GlesVersion, GlesVersionView};
use crate::text::{same_ignoring_ascii_case, same_text, same_text_ignoring_ascii_case};

verus! {

/// `bindgen::RustTarget`, with its variants: the nightly compiler and the
/// stable releases that `bindgen` tells apart.
#[verifier::external_type_specification]
pub struct ExRustTarget(bindgen::RustTarget);

/// The OpenGL ES version that a text stands for: `2.0`, `3.0` and `3.1` for
/// themselves, every other text for 3.1.
pub open spec fn gles_version_of(text: Seq<char>) -> (u8, u8) {
    if text == "2.0"@ {
        (2u8, 0u8)
    } else if text == "3.0"@ {
        (3u8, 0u8)
    } else {
        (3u8, 1u8)
    }
}

/// The Rust release that a text stands for, if any: `1.40` for Rust 1.40 and
/// `nightly`, in any mix of upper and lower case, for the nightly compiler.
pub open spec fn rust_target_of(text: Seq<char>) -> Option<bindgen::RustTarget> {
    if same_ignoring_ascii_case(text, "1.40"@) {
        Some(bindgen::RustTarget::Stable_1_40)
    } else if same_ignoring_ascii_case(text, "nightly"@) {
        Some(bindgen::RustTarget::Nightly)
    } else {
        None
    }
}

impl GlesVersionView {
    /// The version that the setting stands for.
    pub open spec fn resolved(self) -> (u8, u8) {
        match self {
            GlesVersionView::Pair(version) => version,
            GlesVersionView::Text(text) => gles_version_of(text),
        }
    }
}

impl GlesVersion {
    /// Resolves the setting to major and minor number.
    pub fn resolve(&self) -> (r: (u8, u8))
        ensures
            r == self@.resolved(),
    {
        match self {
            GlesVersion::Pair(version) => *version,
            GlesVersion::Text(text) => resolve_gles_version(text.as_str()),
        }
    }
}

/// Resolves the text of an OpenGL ES version.
///
/// A text other than `2.0`, `3.0` and `3.1` is not refused: it yields 3.1.
pub fn resolve_gles_version(text: &str) -> (r: (u8, u8))
    ensures
        r == gles_version_of(text@),
        text@ != "2.0"@ && text@ != "3.0"@ && text@ != "3.1"@ ==> r == (3u8, 1u8),
{
    if same_text(text, "2.0") {
        (2, 0)
    } else if same_text(text, "3.0") {
        (3, 0)
    } else {
        (3, 1)
    }
}

/// Resolves the text of a Rust release to the target that `bindgen` is to
/// generate for.
///
/// A text other than `1.40` and `nightly` is not refused: it yields `None`,
/// and the headers are translated for the release that `bindgen` prefers.
pub fn resolve_rust_target(text: &str) -> (r: Option<bindgen::RustTarget>)
    ensures
        r == rust_target_of(text@),
        !same_ignoring_ascii_case(text@, "1.40"@) && !same_ignoring_ascii_case(text@, "nightly"@)
            ==> r is None,
{
    if same_text_ignoring_ascii_case(text, "1.40") {
        Some(bindgen::RustTarget::Stable_1_40)
    } else if same_text_ignoring_ascii_case(text, "nightly") {
        Some(bindgen::RustTarget::Nightly)
    } else {
        None
    }
}

} // verus!

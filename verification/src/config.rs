//! The configuration record, as it stands once the configuration file is read.

use vstd::prelude::*;

verus! {

/// `gl_generator::Fallbacks`, with its variants: `All` and `None`.
#[verifier::external_type_specification]
pub struct ExFallbacks(gl_generator::Fallbacks);

/// Whether the generated code falls back on an equivalent entry point where
/// the one asked for cannot be loaded.
#[derive(Clone, Copy, Debug, PartialEq, Eq, Structural)]
pub enum Fallback {
    /// Fall back wherever the registry names an equivalent.
    All,
    /// Never fall back.
    Nothing,
}

impl Fallback {
    /// The policy as `gl_generator` spells it.
    pub open spec fn converted(self) -> gl_generator::Fallbacks {
        match self {
            Fallback::All => gl_generator::Fallbacks::All,
            Fallback::Nothing => gl_generator::Fallbacks::None,
        }
    }

    /// Translates the policy into the one `gl_generator` takes.
    pub fn convert(self) -> (r: gl_generator::Fallbacks)
        ensures
            r == self.converted(),
    {
        if self == Fallback::All {
            gl_generator::Fallbacks::All
        } else {
            gl_generator::Fallbacks::None
        }
    }
}

/// The shape of the generated API bindings.
#[derive(Clone, Copy, Debug, PartialEq, Eq, Structural)]
pub enum Generator {
    /// A struct of function pointers that traces and checks each call.
    DebugStructGenerator,
    /// Free functions over entry points loaded once for the whole program.
    GlobalGenerator,
    /// Declarations of statically linked functions.
    StaticGenerator,
    /// A struct whose methods call statically linked functions.
    StaticStructGenerator,
    /// A struct of function pointers, loaded per instance.
    StructGenerator,
}

/// The OpenGL ES version of a configuration: a pair of numbers, or a text
/// that stands for one.
#[derive(Debug, PartialEq, Eq)]
pub enum GlesVersion {
    /// Major and minor number.
    Pair((u8, u8)),
    /// A version by name, as in `"3.0"`.
    Text(String),
}

/// A [`GlesVersion`] as a value of mathematics.
pub enum GlesVersionView {
    /// Major and minor number.
    Pair((u8, u8)),
    /// A version by name.
    Text(Seq<char>),
}

impl View for GlesVersion {
    type V = GlesVersionView;

    open spec fn view(&self) -> GlesVersionView {
        match *self {
            GlesVersion::Pair(version) => GlesVersionView::Pair(version),
            GlesVersion::Text(text) => GlesVersionView::Text(text@),
        }
    }
}

/// What one run of the tool is asked to generate.
#[derive(Debug, PartialEq, Eq)]
pub struct Config {
    /// The shape of the generated EGL and OpenGL ES bindings.
    pub generator: Generator,
    /// The Rust release that the translated headers must compile with.
    pub rust_version: String,
    /// The directory that ANGLE was built into.
    pub angle_out_home: String,
    /// The fallback policy of both API surfaces.
    pub fallback: Fallback,
    /// The EGL version, major and minor.
    pub egl_version: (u8, u8),
    /// The EGL extensions to include, in this order.
    pub egl_extensions: Vec<String>,
    /// The OpenGL ES version.
    pub gles_version: GlesVersion,
    /// The OpenGL ES extensions to include, in this order.
    pub gles_extensions: Vec<String>,
}

/// A [`Config`] as a value of mathematics, field by field.
pub struct ConfigView {
    pub generator: Generator,
    pub rust_version: Seq<char>,
    pub angle_out_home: Seq<char>,
    pub fallback: Fallback,
    pub egl_version: (u8, u8),
    pub egl_extensions: Seq<Seq<char>>,
    pub gles_version: GlesVersionView,
    pub gles_extensions: Seq<Seq<char>>,
}

impl View for Config {
    type V = ConfigView;

    open spec fn view(&self) -> ConfigView {
        ConfigView {
            generator: self.generator,
            rust_version: self.rust_version@,
            angle_out_home: self.angle_out_home@,
            fallback: self.fallback,
            egl_version: self.egl_version,
            egl_extensions: self.egl_extensions.deep_view(),
            gles_version: self.gles_version@,
            gles_extensions: self.gles_extensions.deep_view(),
        }
    }
}

} // verus!

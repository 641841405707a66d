//! The two API surfaces, as requests to `gl_generator`.
//!
//! A request names everything that `gl_generator` needs to build a registry
//! and to write it out. Building the registry is left to the caller:
//! `gl_generator` ends the program where the Khronos registry does not list
//! the version, or lists an extension for other APIs only. Writing a registry
//! out is done here.

use vstd::prelude::*;
use crate::config::Generator;

verus! {

/// `gl_generator::Api`, with its variants: the APIs that a registry can be
/// read for.
#[verifier::external_type_specification]
pub struct ExApi(gl_generator::Api);

/// `gl_generator::Profile`, with its variants: `Core` and `Compatibility`.
#[verifier::external_type_specification]
pub struct ExProfile(gl_generator::Profile);

/// `gl_generator::Registry`: the enums and commands of one API, read from
/// the Khronos registry. The library hands it on and looks at nothing in it.
#[verifier::external_type_specification]
#[verifier::external_body]
pub struct ExRegistry(gl_generator::Registry);

/// `std::io::Error`, for a registry that could not be written out.
#[verifier::external_type_specification]
#[verifier::external_body]
pub struct ExIoError(std::io::Error);

/// One API surface to generate bindings for.
#[derive(Debug, PartialEq, Eq)]
pub struct RegistryRequest {
    /// The API whose registry is read.
    pub api: gl_generator::Api,
    /// The version of the API, major and minor.
    pub version: (u8, u8),
    /// The profile of the API.
    pub profile: gl_generator::Profile,
    /// Whether entry points fall back on their equivalents.
    pub fallbacks: gl_generator::Fallbacks,
    /// The extensions to include, in this order.
    pub extensions: Vec<String>,
    /// The shape of the generated code.
    pub generator: Generator,
}

/// A [`RegistryRequest`] as a value of mathematics, field by field.
pub struct RegistryRequestView {
    pub api: gl_generator::Api,
    pub version: (u8, u8),
    pub profile: gl_generator::Profile,
    pub fallbacks: gl_generator::Fallbacks,
    pub extensions: Seq<Seq<char>>,
    pub generator: Generator,
}

impl View for RegistryRequest {
    type V = RegistryRequestView;

    open spec fn view(&self) -> RegistryRequestView {
        RegistryRequestView {
            api: self.api,
            version: self.version,
            profile: self.profile,
            fallbacks: self.fallbacks,
            extensions: self.extensions.deep_view(),
            generator: self.generator,
        }
    }
}

/// The request for EGL: the EGL registry in its core profile.
pub open spec fn egl_request(
    version: (u8, u8),
    fallbacks: gl_generator::Fallbacks,
    extensions: Seq<Seq<char>>,
    generator: Generator,
) -> RegistryRequestView {
    RegistryRequestView {
        api: gl_generator::Api::Egl,
        version,
        profile: gl_generator::Profile::Core,
        fallbacks,
        extensions,
        generator,
    }
}

/// The request for OpenGL ES: the registry of OpenGL ES 2 and later in its
/// core profile.
pub open spec fn gles_request(
    version: (u8, u8),
    fallbacks: gl_generator::Fallbacks,
    extensions: Seq<Seq<char>>,
    generator: Generator,
) -> RegistryRequestView {
    RegistryRequestView {
        api: gl_generator::Api::Gles2,
        version,
        profile: gl_generator::Profile::Core,
        fallbacks,
        extensions,
        generator,
    }
}

/// Requests the bindings of EGL `version`.
pub fn gen_egl(
    version: (u8, u8),
    fallbacks: gl_generator::Fallbacks,
    extensions: Vec<String>,
    generator: Generator,
) -> (r: RegistryRequest)
    ensures
        r@ == egl_request(version, fallbacks, extensions.deep_view(), generator),
{
    RegistryRequest {
        api: gl_generator::Api::Egl,
        version,
        profile: gl_generator::Profile::Core,
        fallbacks,
        extensions,
        generator,
    }
}

/// Requests the bindings of OpenGL ES `version`.
pub fn gen_gles(
    version: (u8, u8),
    fallbacks: gl_generator::Fallbacks,
    extensions: Vec<String>,
    generator: Generator,
) -> (r: RegistryRequest)
    ensures
        r@ == gles_request(version, fallbacks, extensions.deep_view(), generator),
{
    RegistryRequest {
        api: gl_generator::Api::Gles2,
        version,
        profile: gl_generator::Profile::Core,
        fallbacks,
        extensions,
        generator,
    }
}

/// What comes of having `gl_generator` write the bindings for `registry`
/// into memory, in the shape that `generator` names: the text, or `None`
/// where the writing failed.
pub uninterp spec fn bindings_written(
    registry: gl_generator::Registry,
    generator: Generator,
) -> Option<Seq<u8>>;

/// What came of writing into memory: the text that was written, or `None`
/// for a failure, whatever its error.
pub open spec fn written(outcome: Result<Vec<u8>, std::io::Error>) -> Option<Seq<u8>> {
    match outcome {
        Ok(text) => Some(text@),
        Err(_) => None,
    }
}

/// `gl_generator::Registry::write_bindings` with `DebugStructGenerator`, writing into
/// memory. Whether it writes all of the text, and what the text is, depends
/// on the registry alone. The text begins with the imports of the generated
/// code, so it is not empty.
#[verifier::external_body]
fn write_debug_struct(registry: &gl_generator::Registry) -> (r: Result<Vec<u8>, std::io::Error>)
    ensures
        written(r) == bindings_written(*registry, Generator::DebugStructGenerator),
        r matches Ok(text) ==> text@.len() > 0,
{
    let mut text = Vec::new();
    registry.write_bindings(gl_generator::DebugStructGenerator, &mut text)?;
    Ok(text)
}

/// `gl_generator::Registry::write_bindings` with `GlobalGenerator`, writing into
/// memory. Whether it writes all of the text, and what the text is, depends
/// on the registry alone. The text begins with the imports of the generated
/// code, so it is not empty.
#[verifier::external_body]
fn write_global(registry: &gl_generator::Registry) -> (r: Result<Vec<u8>, std::io::Error>)
    ensures
        written(r) == bindings_written(*registry, Generator::GlobalGenerator),
        r matches Ok(text) ==> text@.len() > 0,
{
    let mut text = Vec::new();
    registry.write_bindings(gl_generator::GlobalGenerator, &mut text)?;
    Ok(text)
}

/// `gl_generator::Registry::write_bindings` with `StaticGenerator`, writing into
/// memory. Whether it writes all of the text, and what the text is, depends
/// on the registry alone. The text begins with the imports of the generated
/// code, so it is not empty.
#[verifier::external_body]
fn write_static(registry: &gl_generator::Registry) -> (r: Result<Vec<u8>, std::io::Error>)
    ensures
        written(r) == bindings_written(*registry, Generator::StaticGenerator),
        r matches Ok(text) ==> text@.len() > 0,
{
    let mut text = Vec::new();
    registry.write_bindings(gl_generator::StaticGenerator, &mut text)?;
    Ok(text)
}

/// `gl_generator::Registry::write_bindings` with `StaticStructGenerator`, writing into
/// memory. Whether it writes all of the text, and what the text is, depends
/// on the registry alone. The text begins with the imports of the generated
/// code, so it is not empty.
#[verifier::external_body]
fn write_static_struct(registry: &gl_generator::Registry) -> (r: Result<Vec<u8>, std::io::Error>)
    ensures
        written(r) == bindings_written(*registry, Generator::StaticStructGenerator),
        r matches Ok(text) ==> text@.len() > 0,
{
    let mut text = Vec::new();
    registry.write_bindings(gl_generator::StaticStructGenerator, &mut text)?;
    Ok(text)
}

/// `gl_generator::Registry::write_bindings` with `StructGenerator`, writing into
/// memory. Whether it writes all of the text, and what the text is, depends
/// on the registry alone. The text begins with the imports of the generated
/// code, so it is not empty.
#[verifier::external_body]
fn write_struct(registry: &gl_generator::Registry) -> (r: Result<Vec<u8>, std::io::Error>)
    ensures
        written(r) == bindings_written(*registry, Generator::StructGenerator),
        r matches Ok(text) ==> text@.len() > 0,
{
    let mut text = Vec::new();
    registry.write_bindings(gl_generator::StructGenerator, &mut text)?;
    Ok(text)
}

/// Writes the bindings for `registry` out, in the shape that `generator`
/// names.
///
/// The outcome is that of `gl_generator` with the generator of this name:
/// its text, which is not empty, or the error that it met while writing.
pub fn write_bindings(
    registry: &gl_generator::Registry,
    generator: Generator,
) -> (r: Result<Vec<u8>, std::io::Error>)
    ensures
        written(r) == bindings_written(*registry, generator),
        r matches Ok(text) ==> text@.len() > 0,
{
    match generator {
        Generator::DebugStructGenerator => write_debug_struct(registry),
        Generator::GlobalGenerator => write_global(registry),
        Generator::StaticGenerator => write_static(registry),
        Generator::StaticStructGenerator => write_static_struct(registry),
        Generator::StructGenerator => write_struct(registry),
    }
}

} // verus!

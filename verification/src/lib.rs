//! Plans the generation of EGL and OpenGL ES bindings for an ANGLE build.
//!
//! A [`Config`] names the ANGLE output directory, the API versions and
//! extensions, and the shape of the generated code. From it [`plan`] works
//! out a [`Plan`]: two platform headers to translate with `bindgen`, and two
//! API surfaces to generate with `gl_generator`, each with the file it is
//! written to. The caller carries the plan out: it runs `bindgen`, builds
//! each registry and has [`write_bindings`] write it out, and writes the
//! files.

pub mod cli;
pub mod coerce;
pub mod config;
pub mod headers;
pub mod paths;
pub mod pipeline;
pub mod registry;
pub mod text;

pub use cli::{select_command, Command};
pub use coerce::{resolve_gles_version, resolve_rust_target};
pub use config::{Config, Fallback, Generator, GlesVersion};
pub use headers::{build_eglplatform, build_khrplatform};
pub use pipeline::{plan, Job, Plan};
pub use registry::{gen_egl, gen_gles, write_bindings, RegistryRequest};

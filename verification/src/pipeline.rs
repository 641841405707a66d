//! From a configuration to the work of one run.
//!
//! A run either does nothing, because there is no ANGLE build to read the
//! headers of, or makes four files: two translated headers, then two
//! generated API surfaces.

use vstd::prelude::*;
use crate::coerce::{resolve_rust_target, rust_target_of};
use crate::config::{Config, ConfigView};
use crate::headers::{
    build_eglplatform, build_khrplatform, builder_options, eglplatform_options,
    khrplatform_options, BuilderOptions,
};
use crate::paths::{as_directory, join};
use crate::registry::{
    egl_request, gen_egl, gen_gles, gles_request, RegistryRequest, RegistryRequestView,
};

verus! {

/// One file to make.
#[derive(Debug)]
pub enum Job {
    /// Translate a header with `bindgen` and write the result to `output`.
    Translate { builder: bindgen::Builder, output: String },
    /// Generate an API surface with `gl_generator` and write it to `output`.
    Generate { request: RegistryRequest, output: String },
}

/// The work of one run.
#[derive(Debug)]
pub enum Plan {
    /// No ANGLE build was found: nothing is made, and the run succeeds.
    Skip,
    /// The files to make. They are made in this order, and the first failure
    /// ends the run.
    Run(Vec<Job>),
}

/// A [`Job`] as a value of mathematics: of a builder, the options it holds.
pub enum JobView {
    Translate { options: BuilderOptions, output: Seq<char> },
    Generate { request: RegistryRequestView, output: Seq<char> },
}

impl JobView {
    /// The file that the job writes.
    pub open spec fn output(self) -> Seq<char> {
        match self {
            JobView::Translate { output, .. } => output,
            JobView::Generate { output, .. } => output,
        }
    }
}

impl View for Job {
    type V = JobView;

    open spec fn view(&self) -> JobView {
        match *self {
            Job::Translate { builder, output } => JobView::Translate {
                options: builder_options(builder),
                output: output@,
            },
            Job::Generate { request, output } => JobView::Generate {
                request: request@,
                output: output@,
            },
        }
    }
}

impl View for Plan {
    /// The jobs in their order, or `None` for a run that is skipped.
    type V = Option<Seq<JobView>>;

    open spec fn view(&self) -> Option<Seq<JobView>> {
        match *self {
            Plan::Skip => None,
            Plan::Run(jobs) => Some(jobs@.map_values(|job: Job| job@)),
        }
    }
}

/// The four files of a run that writes into the directory `dest`: they lie
/// in it, under fixed names.
pub open spec fn output_files(dest: Seq<char>) -> Seq<Seq<char>> {
    seq![
        as_directory(dest) + "khrplatform_bindings.rs"@,
        as_directory(dest) + "eglplatform_bindings.rs"@,
        as_directory(dest) + "egl_bindings.rs"@,
        as_directory(dest) + "gl_bindings.rs"@,
    ]
}

/// The four jobs of a run for `config` that writes into the directory
/// `dest`: `khrplatform.h`, `eglplatform.h`, EGL and OpenGL ES, in this
/// order, each into its own file.
pub open spec fn planned_jobs(config: ConfigView, dest: Seq<char>) -> Seq<JobView> {
    let rust_target = rust_target_of(config.rust_version);
    let fallbacks = config.fallback.converted();
    seq![
        JobView::Translate {
            options: khrplatform_options(config.angle_out_home, rust_target),
            output: output_files(dest)[0],
        },
        JobView::Translate {
            options: eglplatform_options(config.angle_out_home, rust_target),
            output: output_files(dest)[1],
        },
        JobView::Generate {
            request: egl_request(
                config.egl_version,
                fallbacks,
                config.egl_extensions,
                config.generator,
            ),
            output: output_files(dest)[2],
        },
        JobView::Generate {
            request: gles_request(
                config.gles_version.resolved(),
                fallbacks,
                config.gles_extensions,
                config.generator,
            ),
            output: output_files(dest)[3],
        },
    ]
}

/// The work of a run for `config` that writes into the directory `dest`:
/// its four jobs where ANGLE's build exists, and none where it does not.
pub open spec fn planned(
    config: ConfigView,
    dest: Seq<char>,
    angle_out_home_exists: bool,
) -> Option<Seq<JobView>> {
    if angle_out_home_exists {
        Some(planned_jobs(config, dest))
    } else {
        None
    }
}

/// The files that a run writes, in the order it writes them.
pub open spec fn files_written(work: Option<Seq<JobView>>) -> Seq<Seq<char>> {
    match work {
        Some(jobs) => jobs.map_values(|job: JobView| job.output()),
        None => Seq::empty(),
    }
}

/// Plans the run for `config` that writes into the directory `dest`.
///
/// `angle_out_home_exists` says whether the directory that the configuration
/// names as ANGLE's build exists. Where it does not, there is nothing to do:
/// the run is skipped and makes no file. Where it does, the run makes exactly
/// four files, the four fixed names joined to `dest`.
pub fn plan(config: Config, dest: &str, angle_out_home_exists: bool) -> (r: Plan)
    ensures
        r@ == planned(config@, dest@, angle_out_home_exists),
        r is Skip <==> !angle_out_home_exists,
        files_written(r@) == if angle_out_home_exists {
            output_files(dest@)
        } else {
            Seq::empty()
        },
{
    if !angle_out_home_exists {
        return Plan::Skip;
    }
    let Config {
        generator,
        rust_version,
        angle_out_home,
        fallback,
        egl_version,
        egl_extensions,
        gles_version,
        gles_extensions,
    } = config;
    let rust_target = resolve_rust_target(rust_version.as_str());
    let fallbacks = fallback.convert();
    proof {
        reveal_strlit("khrplatform_bindings.rs");
        reveal_strlit("eglplatform_bindings.rs");
        reveal_strlit("egl_bindings.rs");
        reveal_strlit("gl_bindings.rs");
    }

    let mut jobs: Vec<Job> = Vec::new();
    jobs.push(
        Job::Translate {
            builder: build_khrplatform(angle_out_home.as_str(), rust_target),
            output: join(dest, "khrplatform_bindings.rs"),
        },
    );
    jobs.push(
        Job::Translate {
            builder: build_eglplatform(angle_out_home.as_str(), rust_target),
            output: join(dest, "eglplatform_bindings.rs"),
        },
    );
    jobs.push(
        Job::Generate {
            request: gen_egl(egl_version, fallbacks, egl_extensions, generator),
            output: join(dest, "egl_bindings.rs"),
        },
    );
    jobs.push(
        Job::Generate {
            request: gen_gles(gles_version.resolve(), fallbacks, gles_extensions, generator),
            output: join(dest, "gl_bindings.rs"),
        },
    );
    Plan::Run(jobs)
}

/// In a run, every header is translated before any API surface is
/// generated: no translation follows a generation.
pub proof fn headers_come_first(config: ConfigView, dest: Seq<char>)
    ensures
        forall|i: int, j: int|
            #![trigger planned_jobs(config, dest)[i], planned_jobs(config, dest)[j]]
            0 <= i < j < planned_jobs(config, dest).len() && planned_jobs(config, dest)[i]
                is Generate ==> planned_jobs(config, dest)[j] is Generate,
{
}

} // verus!

//! Where the platform headers lie under an ANGLE build, and where the
//! generated files go.
//!
//! Paths are texts with `/` between their components. ANGLE's headers lie
//! beside the build directory, in `../include`.

use vstd::prelude::*;
use vstd::string::StringExecFns;

verus! {

/// A directory's path as the start of the paths below it: closed by a `/`,
/// unless it is empty and so stands for the current directory.
pub open spec fn as_directory(path: Seq<char>) -> Seq<char> {
    if path.len() == 0 || path.last() == '/' {
        path
    } else {
        path + seq!['/']
    }
}

/// `component` adjoined to `base`: a component that starts at the root
/// replaces the base, any other lies in the directory `base`.
pub open spec fn joined(base: Seq<char>, component: Seq<char>) -> Seq<char> {
    if component.len() > 0 && component[0] == '/' {
        component
    } else {
        as_directory(base) + component
    }
}

/// The directory of ANGLE's headers, for a build in `angle_out_home`.
pub open spec fn include_dir_of(angle_out_home: Seq<char>) -> Seq<char> {
    as_directory(angle_out_home) + "../include"@
}

/// The path of `khrplatform.h`, for a build in `angle_out_home`.
pub open spec fn khrplatform_header_of(angle_out_home: Seq<char>) -> Seq<char> {
    as_directory(angle_out_home) + "../include/KHR/khrplatform.h"@
}

/// The path of `eglplatform.h`, for a build in `angle_out_home`.
pub open spec fn eglplatform_header_of(angle_out_home: Seq<char>) -> Seq<char> {
    as_directory(angle_out_home) + "../include/EGL/eglplatform.h"@
}

/// Adjoins `component` to `base`.
pub fn join(base: &str, component: &str) -> (r: String)
    ensures
        r@ == joined(base@, component@),
{
    if component.unicode_len() > 0 && component.get_char(0) == '/' {
        return component.to_owned();
    }
    let n = base.unicode_len();
    let mut r = base.to_owned();
    if n > 0 && base.get_char(n - 1) != '/' {
        proof {
            reveal_strlit("/");
        }
        r.append("/");
    }
    r.append(component);
    r
}

/// The directory of ANGLE's headers, for a build in `angle_out_home`.
pub fn include_dir(angle_out_home: &str) -> (r: String)
    ensures
        r@ == include_dir_of(angle_out_home@),
{
    let parent = join(angle_out_home, "../");
    let dir = join(parent.as_str(), "include");
    proof {
        reveal_strlit("../");
        reveal_strlit("include");
        reveal_strlit("../include");
    }
    dir
}

/// The path of `khrplatform.h`, for a build in `angle_out_home`.
pub fn khrplatform_header(angle_out_home: &str) -> (r: String)
    ensures
        r@ == khrplatform_header_of(angle_out_home@),
{
    let dir = include_dir(angle_out_home);
    let khr = join(dir.as_str(), "KHR");
    let header = join(khr.as_str(), "khrplatform.h");
    proof {
        reveal_strlit("../include");
        reveal_strlit("KHR");
        reveal_strlit("khrplatform.h");
        reveal_strlit("../include/KHR/khrplatform.h");
    }
    header
}

/// The path of `eglplatform.h`, for a build in `angle_out_home`.
pub fn eglplatform_header(angle_out_home: &str) -> (r: String)
    ensures
        r@ == eglplatform_header_of(angle_out_home@),
{
    let dir = include_dir(angle_out_home);
    let egl = join(dir.as_str(), "EGL");
    let header = join(egl.as_str(), "eglplatform.h");
    proof {
        reveal_strlit("../include");
        reveal_strlit("EGL");
        reveal_strlit("eglplatform.h");
        reveal_strlit("../include/EGL/eglplatform.h");
    }
    header
}

} // verus!

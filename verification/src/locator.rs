//! Computing the ordered candidate locations of the native module and
//! selecting the first one that probed as loadable.
//!
//! The order of the candidates encodes deployment precedence: next to
//! the executable, then an installed package's `resources` directory,
//! then an application bundle's `Resources` directory, then the
//! development build output. The filesystem probes and the actual
//! loading happen in the host shell; their outcomes come back here as
//! plain [`ProbeOutcome`] values.

use vstd::prelude::*;
use vstd::string::StringExecFns;

use crate::platform::Platform;
use crate::platform::library_file_name;
use crate::platform::spec_library_file_name;

verus! {

/// A directory joined with a further path component.
pub open spec fn spec_join(dir: Seq<char>, name: Seq<char>) -> Seq<char> {
    dir + "/"@ + name
}

/// The fixed development build output path of the native module, used
/// when running from a source checkout.
pub open spec fn spec_dev_path(p: Platform) -> Seq<char> {
    match p {
        Platform::Windows => "../cpp_cross_platform/build/bin/systemapi.dll"@,
        Platform::MacOs => "../cpp_cross_platform/build/lib/libsystemapi.dylib"@,
        Platform::Linux => "../cpp_cross_platform/build/lib/libsystemapi.so"@,
    }
}

/// The candidate locations of the native module, in precedence order.
/// With a known executable directory there are exactly four; without
/// one, only the development path remains.
pub open spec fn spec_candidate_paths(p: Platform, exe_dir: Option<Seq<char>>) -> Seq<Seq<char>> {
    match exe_dir {
        Option::Some(dir) => seq![
            spec_join(dir, spec_library_file_name(p)),
            spec_join(spec_join(dir, "resources"@), spec_library_file_name(p)),
            spec_join(spec_join(dir, "../Resources"@), spec_library_file_name(p)),
            spec_dev_path(p),
        ],
        Option::None => seq![spec_dev_path(p)],
    }
}

/// The view of an optional directory string.
pub open spec fn spec_opt_dir(d: Option<String>) -> Option<Seq<char>> {
    match d {
        Option::Some(s) => Option::Some(s@),
        Option::None => Option::None,
    }
}

/// Joins a directory and a path component with a separator.
fn join_path(dir: &str, name: &str) -> (r: String)
    ensures
        r@ == spec_join(dir@, name@),
{
    let mut s = dir.to_owned();
    s.append("/");
    s.append(name);
    s
}

/// Computes the ordered candidate locations of the native module for
/// the given platform and executable directory.
pub fn candidate_paths(p: Platform, exe_dir: &Option<String>) -> (r: Vec<String>)
    ensures
        r@.map_values(|s: String| s@) == spec_candidate_paths(p, spec_opt_dir(*exe_dir)),
{
    let name = library_file_name(p);
    let dev: &str = match p {
        Platform::Windows => "../cpp_cross_platform/build/bin/systemapi.dll",
        Platform::MacOs => "../cpp_cross_platform/build/lib/libsystemapi.dylib",
        Platform::Linux => "../cpp_cross_platform/build/lib/libsystemapi.so",
    };
    let mut r: Vec<String> = Vec::new();
    match exe_dir {
        Option::Some(dir) => {
            r.push(join_path(dir.as_str(), name.as_str()));
            let resources = join_path(dir.as_str(), "resources");
            r.push(join_path(resources.as_str(), name.as_str()));
            let bundle = join_path(dir.as_str(), "../Resources");
            r.push(join_path(bundle.as_str(), name.as_str()));
            r.push(dev.to_owned());
            proof {
                assert(r@.map_values(|s: String| s@) =~= spec_candidate_paths(
                    p,
                    spec_opt_dir(*exe_dir),
                ));
            }
        },
        Option::None => {
            r.push(dev.to_owned());
            proof {
                assert(r@.map_values(|s: String| s@) =~= spec_candidate_paths(
                    p,
                    spec_opt_dir(*exe_dir),
                ));
            }
        },
    }
    r
}

/// Law: with a known executable directory the candidate list has, on
/// every platform, exactly four entries in the fixed precedence order —
/// beside the executable, the installed `resources` directory, the
/// bundle `Resources` directory, the development build output — and
/// each of the first three is the platform's library file name under
/// the respective directory. Without a known executable directory only
/// the development path remains.
pub proof fn lemma_candidate_precedence(p: Platform, dir: Seq<char>)
    ensures
        spec_candidate_paths(p, Some(dir)).len() == 4,
        spec_candidate_paths(p, Some(dir))[0] == spec_join(dir, spec_library_file_name(p)),
        spec_candidate_paths(p, Some(dir))[1] == spec_join(
            spec_join(dir, "resources"@),
            spec_library_file_name(p),
        ),
        spec_candidate_paths(p, Some(dir))[2] == spec_join(
            spec_join(dir, "../Resources"@),
            spec_library_file_name(p),
        ),
        spec_candidate_paths(p, Some(dir))[3] == spec_dev_path(p),
        spec_candidate_paths(p, None).len() == 1,
        spec_candidate_paths(p, None)[0] == spec_dev_path(p),
{
}

/// What a single probe of one candidate location reported: the file was
/// not there, it was there but did not load, or it loaded.
#[derive(Clone, Copy, PartialEq, Eq, Structural, Debug)]
pub enum ProbeOutcome {
    Missing,
    LoadFailed,
    Loaded,
}

/// Selects the first candidate whose probe loaded, honouring the
/// precedence order; yields nothing when no probe loaded.
pub fn first_loaded(outcomes: &Vec<ProbeOutcome>) -> (r: Option<usize>)
    ensures
        match r {
            Option::Some(i) => i < outcomes@.len() && outcomes@[i as int] is Loaded && (forall|
                j: int,
            |
                0 <= j < i ==> !(outcomes@[j] is Loaded)),
            Option::None => forall|j: int| 0 <= j < outcomes@.len() ==> !(outcomes@[j] is Loaded),
        },
{
    let mut i: usize = 0;
    while i < outcomes.len()
        invariant
            i <= outcomes@.len(),
            forall|j: int| 0 <= j < i ==> !(outcomes@[j] is Loaded),
        decreases outcomes@.len() - i,
    {
        if outcomes[i] == ProbeOutcome::Loaded {
            return Some(i);
        }
        i = i + 1;
    }
    None
}

/// The locator's verdict over a finished walk of the candidates: the
/// index of the first probe that loaded, or — when none loaded, in
/// particular when every candidate was missing — the descriptive
/// failure. The caller stays constructable either way; an absent module
/// is a normal state, not a crash.
pub fn locate(p: Platform, outcomes: &Vec<ProbeOutcome>) -> (r: Result<usize, String>)
    ensures
        (r is Ok) ==> r->Ok_0 < outcomes@.len() && outcomes@[r->Ok_0 as int] is Loaded && (forall|
            j: int,
        |
            0 <= j < r->Ok_0 ==> !(outcomes@[j] is Loaded)),
        (r is Err) ==> r->Err_0@ == spec_load_failure_message(p) && (forall|j: int|
            0 <= j < outcomes@.len() ==> !(outcomes@[j] is Loaded)),
{
    match first_loaded(outcomes) {
        Some(i) => Ok(i),
        None => Err(load_failure_message(p)),
    }
}

/// The failure reported when no candidate loaded: it names the expected
/// file and says how to produce it from source.
pub open spec fn spec_load_failure_message(p: Platform) -> Seq<char> {
    "Failed to load library '"@ + spec_library_file_name(p)
        + "' from any location.\n\nFor development, make sure to build the C++ library first:\ncd cpp_cross_platform && mkdir build && cd build && cmake .. && cmake --build ."@
}

/// Builds the descriptive failure message for a locator run in which no
/// candidate loaded.
pub fn load_failure_message(p: Platform) -> (r: String)
    ensures
        r@ == spec_load_failure_message(p),
{
    let name = library_file_name(p);
    let mut s = "Failed to load library '".to_owned();
    s.append(name.as_str());
    s.append(
        "' from any location.\n\nFor development, make sure to build the C++ library first:\ncd cpp_cross_platform && mkdir build && cd build && cmake .. && cmake --build .",
    );
    s
}

} // verus!

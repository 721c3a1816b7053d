//! The platforms the host distinguishes, and the native-library file
//! name each of them expects.

use vstd::prelude::*;

verus! {

/// The operating systems the host distinguishes when naming the native
/// module and reporting its own identity.
#[derive(Clone, Copy, PartialEq, Eq, Structural, Debug)]
pub enum Platform {
    Windows,
    MacOs,
    Linux,
}

/// The identifier the platform query reports for each platform.
pub open spec fn spec_platform_name(p: Platform) -> Seq<char> {
    match p {
        Platform::Windows => "windows"@,
        Platform::MacOs => "macos"@,
        Platform::Linux => "linux"@,
    }
}

/// The file name of the native module under each platform's shared
/// library naming convention.
pub open spec fn spec_library_file_name(p: Platform) -> Seq<char> {
    match p {
        Platform::Windows => "systemapi.dll"@,
        Platform::MacOs => "libsystemapi.dylib"@,
        Platform::Linux => "libsystemapi.so"@,
    }
}

/// True when `s` begins with `prefix`.
pub open spec fn spec_starts_with(s: Seq<char>, prefix: Seq<char>) -> bool {
    prefix.len() <= s.len() && s.subrange(0, prefix.len() as int) == prefix
}

/// True when `s` ends with `suffix`.
pub open spec fn spec_ends_with(s: Seq<char>, suffix: Seq<char>) -> bool {
    suffix.len() <= s.len() && s.subrange(s.len() - suffix.len(), s.len() as int) == suffix
}

/// Law: the native module's file name follows each platform's shared
/// library naming convention — the platform's extension, and the `lib`
/// prefix where the platform expects one.
pub proof fn lemma_file_name_convention(p: Platform)
    ensures
        p is Windows ==> spec_ends_with(spec_library_file_name(p), ".dll"@),
        p is MacOs ==> spec_starts_with(spec_library_file_name(p), "lib"@) && spec_ends_with(
            spec_library_file_name(p),
            ".dylib"@,
        ),
        p is Linux ==> spec_starts_with(spec_library_file_name(p), "lib"@) && spec_ends_with(
            spec_library_file_name(p),
            ".so"@,
        ),
{
    reveal_strlit("systemapi.dll");
    reveal_strlit("libsystemapi.dylib");
    reveal_strlit("libsystemapi.so");
    reveal_strlit(".dll");
    reveal_strlit(".dylib");
    reveal_strlit(".so");
    reveal_strlit("lib");
    match p {
        Platform::Windows => {
            assert("systemapi.dll"@.subrange(9, 13) =~= ".dll"@);
        },
        Platform::MacOs => {
            assert("libsystemapi.dylib"@.subrange(0, 3) =~= "lib"@);
            assert("libsystemapi.dylib"@.subrange(12, 18) =~= ".dylib"@);
        },
        Platform::Linux => {
            assert("libsystemapi.so"@.subrange(0, 3) =~= "lib"@);
            assert("libsystemapi.so"@.subrange(12, 15) =~= ".so"@);
        },
    }
}

/// The platform query: pure host information, available whether or not
/// any native module could be loaded.
pub fn platform_name(p: Platform) -> (r: String)
    ensures
        r@ == spec_platform_name(p),
{
    match p {
        Platform::Windows => "windows".to_owned(),
        Platform::MacOs => "macos".to_owned(),
        Platform::Linux => "linux".to_owned(),
    }
}

/// The platform-appropriate file name of the native module.
pub fn library_file_name(p: Platform) -> (r: String)
    ensures
        r@ == spec_library_file_name(p),
{
    match p {
        Platform::Windows => "systemapi.dll".to_owned(),
        Platform::MacOs => "libsystemapi.dylib".to_owned(),
        Platform::Linux => "libsystemapi.so".to_owned(),
    }
}

} // verus!

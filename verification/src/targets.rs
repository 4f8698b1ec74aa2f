//! Which Rust targets a build of the Android library needs, and what is
//! handed to `cargo ndk` for them.

use vstd::prelude::*;

verus! {

/// The Rust targets to install for a build, and the arguments that select
/// the architectures for `cargo ndk`.
pub struct AndroidTargets {
    /// The targets to add with `rustup`.
    pub rust_targets: Vec<&'static str>,
    /// The arguments for `cargo ndk`: `-t` before each architecture.
    pub ndk_args: Vec<&'static str>,
}

/// The views of a sequence of strings, in the same order.
pub open spec fn str_views(parts: Seq<&'static str>) -> Seq<Seq<char>> {
    parts.map_values(|part: &'static str| part@)
}

/// The Rust targets of a build: all four Android targets for a build of all
/// architectures; else the 64-bit ARM target on a Mac with Apple silicon,
/// and the 64-bit x86 target on any other host.
pub open spec fn rust_targets(all_archs: bool, apple_silicon: bool) -> Seq<Seq<char>> {
    if all_archs {
        seq![
            "armv7-linux-androideabi"@,
            "i686-linux-android"@,
            "aarch64-linux-android"@,
            "x86_64-linux-android"@,
        ]
    } else if apple_silicon {
        seq!["aarch64-linux-android"@]
    } else {
        seq!["x86_64-linux-android"@]
    }
}

/// The arguments for `cargo ndk`: each Rust target after a `-t` for a build
/// of all architectures; else the Android name of the one architecture,
/// `arm64-v8a` on a Mac with Apple silicon and `x86_64` on any other host.
pub open spec fn ndk_args(all_archs: bool, apple_silicon: bool) -> Seq<Seq<char>> {
    if all_archs {
        seq![
            "-t"@,
            "armv7-linux-androideabi"@,
            "-t"@,
            "i686-linux-android"@,
            "-t"@,
            "aarch64-linux-android"@,
            "-t"@,
            "x86_64-linux-android"@,
        ]
    } else if apple_silicon {
        seq!["-t"@, "arm64-v8a"@]
    } else {
        seq!["-t"@, "x86_64"@]
    }
}

/// The Rust targets to add for a build and the target list to pass to
/// `cargo ndk`. `all_archs` asks for all architectures; `apple_silicon`
/// tells that the host is a Mac with Apple silicon.
pub fn add_android_rust_targets(all_archs: bool, apple_silicon: bool) -> (targets: AndroidTargets)
    ensures
        str_views(targets.rust_targets@) == rust_targets(all_archs, apple_silicon),
        str_views(targets.ndk_args@) == ndk_args(all_archs, apple_silicon),
{
    let targets = if all_archs {
        AndroidTargets {
            rust_targets: vec![
                "armv7-linux-androideabi",
                "i686-linux-android",
                "aarch64-linux-android",
                "x86_64-linux-android",
            ],
            ndk_args: vec![
                "-t",
                "armv7-linux-androideabi",
                "-t",
                "i686-linux-android",
                "-t",
                "aarch64-linux-android",
                "-t",
                "x86_64-linux-android",
            ],
        }
    } else if apple_silicon {
        AndroidTargets { rust_targets: vec!["aarch64-linux-android"], ndk_args: vec!["-t", "arm64-v8a"] }
    } else {
        AndroidTargets { rust_targets: vec!["x86_64-linux-android"], ndk_args: vec!["-t", "x86_64"] }
    };
    assert(str_views(targets.rust_targets@) =~= rust_targets(all_archs, apple_silicon));
    assert(str_views(targets.ndk_args@) =~= ndk_args(all_archs, apple_silicon));
    targets
}

/// Whether a build is a release build, and the directory of its products:
/// it is one where a release is asked for, and on Windows where
/// `force_release_on_windows` is set.
pub fn check_release(release: bool, force_release_on_windows: bool, windows: bool) -> (res: (
    bool,
    &'static str,
))
    ensures
        res.0 == (release || (force_release_on_windows && windows)),
        res.1@ == if res.0 {
            "release"@
        } else {
            "debug"@
        },
{
    if release || (force_release_on_windows && windows) {
        (true, "release")
    } else {
        (false, "debug")
    }
}

} // verus!

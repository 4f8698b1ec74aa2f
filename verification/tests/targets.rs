use rsdroid::targets::{add_android_rust_targets, check_release};

#[test]
fn all_architectures() {
    for apple_silicon in [false, true] {
        let targets = add_android_rust_targets(true, apple_silicon);
        assert_eq!(
            targets.rust_targets,
            vec![
                "armv7-linux-androideabi",
                "i686-linux-android",
                "aarch64-linux-android",
                "x86_64-linux-android"
            ]
        );
        assert_eq!(
            targets.ndk_args,
            vec![
                "-t",
                "armv7-linux-androideabi",
                "-t",
                "i686-linux-android",
                "-t",
                "aarch64-linux-android",
                "-t",
                "x86_64-linux-android"
            ]
        );
    }
}

#[test]
fn one_architecture_for_the_host() {
    let targets = add_android_rust_targets(false, true);
    assert_eq!(targets.rust_targets, vec!["aarch64-linux-android"]);
    assert_eq!(targets.ndk_args, vec!["-t", "arm64-v8a"]);
    let targets = add_android_rust_targets(false, false);
    assert_eq!(targets.rust_targets, vec!["x86_64-linux-android"]);
    assert_eq!(targets.ndk_args, vec!["-t", "x86_64"]);
}

#[test]
fn release_or_debug() {
    assert_eq!(check_release(true, false, false), (true, "release"));
    assert_eq!(check_release(true, true, true), (true, "release"));
    assert_eq!(check_release(false, true, true), (true, "release"));
    assert_eq!(check_release(false, true, false), (false, "debug"));
    assert_eq!(check_release(false, false, true), (false, "debug"));
    assert_eq!(check_release(false, false, false), (false, "debug"));
}

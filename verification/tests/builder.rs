use colb::builder::{
    anchored_filter, BuildOutput, ColconInvocation, TestConfiguration, TestResultConfig, What,
};
use colb::config::{BuildConfiguration, BuildType, EventHandlers};
use colb::exec::Tool;
use colb::text::decimal_string;

fn strings(items: &[&str]) -> Vec<String> {
    items.iter().map(|s| s.to_string()).collect()
}

fn bare_profile() -> BuildConfiguration {
    BuildConfiguration {
        mixins: vec![],
        cmake_args: vec![],
        build_type: BuildType::Debug,
        parallel_jobs: None,
        event_handlers: EventHandlers::silent(),
        build_tests: false,
    }
}

#[test]
fn decimal_string_writes_numerals() {
    assert_eq!(decimal_string(0), "0");
    assert_eq!(decimal_string(8), "8");
    assert_eq!(decimal_string(10), "10");
    assert_eq!(decimal_string(907), "907");
    assert_eq!(decimal_string(u32::MAX), "4294967295");
}

#[test]
fn anchored_filter_wraps_name() {
    assert_eq!(anchored_filter("foo"), "^foo$");
    assert_eq!(anchored_filter(""), "^$");
}

#[test]
fn build_output_default_is_plain() {
    let o = BuildOutput::default();
    assert!(!o.symlink);
    assert!(!o.merge);
}

#[test]
fn dependencies_build_with_upstream_defaults() {
    let cmd = ColconInvocation::new("/ws", false)
        .build(&BuildOutput::default())
        .configure(&BuildConfiguration::upstream())
        .finish(&What::DependenciesFor(strings(&["foo"])));
    assert_eq!(cmd.which(), Tool::Colcon);
    assert_eq!(cmd.program(), "colcon");
    assert_eq!(cmd.current_dir(), &Some("/ws".to_string()));
    assert_eq!(
        cmd.args(),
        &strings(&[
            "--log-base",
            "/dev/null",
            "build",
            "--build-base",
            "build",
            "--install-base",
            "install",
            "--executor",
            "parallel",
            "--parallel-workers",
            "8",
            "--event-handlers",
            "summary+",
            "console_start_end+",
            "console_cohesion-",
            "desktop_notification-",
            "--mixin",
            "compile-commands",
            "ninja",
            "mold",
            "ccache",
            "--cmake-args",
            "-DBUILD_TESTING=OFF",
            "-DCMAKE_BUILD_TYPE=Debug",
            "--packages-up-to",
            "foo",
            "--packages-skip",
            "foo",
        ])
    );
}

#[test]
fn package_build_with_active_defaults() {
    let cmd = ColconInvocation::new("ws", true)
        .build(&BuildOutput { symlink: true, merge: true })
        .configure(&BuildConfiguration::active())
        .finish(&What::ThesePackages(strings(&["a", "b"])));
    assert_eq!(
        cmd.args(),
        &strings(&[
            "--log-base",
            "log",
            "build",
            "--build-base",
            "build",
            "--install-base",
            "install",
            "--symlink-install",
            "--merge-install",
            "--executor",
            "parallel",
            "--parallel-workers",
            "8",
            "--event-handlers",
            "summary-",
            "console_start_end-",
            "console_cohesion+",
            "desktop_notification-",
            "--mixin",
            "compile-commands",
            "ninja",
            "mold",
            "ccache",
            "--cmake-args",
            "-DBUILD_TESTING=ON",
            "-DCMAKE_BUILD_TYPE=Debug",
            "--packages-select",
            "a",
            "b",
        ])
    );
}

#[test]
fn merge_without_symlink() {
    let cmd = ColconInvocation::new("ws", false)
        .build(&BuildOutput { symlink: false, merge: true })
        .configure(&bare_profile())
        .finish(&What::ThesePackages(vec![]));
    assert_eq!(
        cmd.args(),
        &strings(&[
            "--log-base",
            "/dev/null",
            "build",
            "--build-base",
            "build",
            "--install-base",
            "install",
            "--merge-install",
            "--event-handlers",
            "summary-",
            "console_start_end-",
            "console_cohesion-",
            "desktop_notification-",
            "--cmake-args",
            "-DBUILD_TESTING=OFF",
            "-DCMAKE_BUILD_TYPE=Debug",
            "--packages-select",
        ])
    );
}

#[test]
fn empty_mixins_emit_no_mixin_flag() {
    let cmd = ColconInvocation::new("ws", false)
        .build(&BuildOutput::default())
        .configure(&bare_profile())
        .finish(&What::ThesePackages(strings(&["p"])));
    assert!(!cmd.args().iter().any(|a| a == "--mixin"));
}

#[test]
fn mixins_follow_single_flag_in_order() {
    let mut profile = bare_profile();
    profile.mixins = strings(&["z", "a", "m"]);
    let cmd = ColconInvocation::new("ws", false)
        .build(&BuildOutput::default())
        .configure(&profile)
        .finish(&What::ThesePackages(strings(&["p"])));
    let args = cmd.args();
    let places: Vec<usize> =
        args.iter().enumerate().filter(|(_, a)| *a == "--mixin").map(|(i, _)| i).collect();
    assert_eq!(places, vec![12]);
    assert_eq!(&args[13..16], &strings(&["z", "a", "m"])[..]);
    assert_eq!(args[16], "--cmake-args");
}

#[test]
fn build_mode_is_last_profile_token() {
    let mut profile = bare_profile();
    profile.build_type = BuildType::Release;
    profile.cmake_args = strings(&["-DCMAKE_BUILD_TYPE=Debug", "-DFOO=1", "--weird"]);
    let cmd = ColconInvocation::new("ws", false)
        .build(&BuildOutput::default())
        .configure(&profile)
        .finish(&What::ThesePackages(strings(&["p"])));
    let args = cmd.args();
    let n = args.len();
    assert_eq!(args[n - 3], "-DCMAKE_BUILD_TYPE=Release");
    assert_eq!(args[n - 2], "--packages-select");
    assert_eq!(
        &args[n - 8..n - 3],
        &strings(&[
            "--cmake-args",
            "-DBUILD_TESTING=OFF",
            "-DCMAKE_BUILD_TYPE=Debug",
            "-DFOO=1",
            "--weird",
        ])[..]
    );
}

#[test]
fn parallel_jobs_are_written_in_decimal() {
    let mut profile = bare_profile();
    profile.parallel_jobs = Some(120);
    profile.build_type = BuildType::RelWithDebInfo;
    profile.build_tests = true;
    let cmd = ColconInvocation::new("ws", false)
        .build(&BuildOutput::default())
        .configure(&profile)
        .finish(&What::DependenciesFor(strings(&["a", "b"])));
    assert_eq!(
        &cmd.args()[7..],
        &strings(&[
            "--executor",
            "parallel",
            "--parallel-workers",
            "120",
            "--event-handlers",
            "summary-",
            "console_start_end-",
            "console_cohesion-",
            "desktop_notification-",
            "--cmake-args",
            "-DBUILD_TESTING=ON",
            "-DCMAKE_BUILD_TYPE=RelWithDebInfo",
            "--packages-up-to",
            "a",
            "b",
            "--packages-skip",
            "a",
            "b",
        ])[..]
    );
}

#[test]
fn test_verb_for_single_test() {
    let cmd = ColconInvocation::new("/ws", true)
        .test(&TestConfiguration {
            package: "pkg".to_string(),
            test: Some("foo".to_string()),
            event_handlers: EventHandlers::silent(),
        })
        .finish();
    assert_eq!(cmd.which(), Tool::Colcon);
    assert_eq!(cmd.current_dir(), &Some("/ws".to_string()));
    assert_eq!(
        cmd.args(),
        &strings(&[
            "--log-base",
            "log",
            "test",
            "--event-handlers",
            "--event-handlers",
            "summary-",
            "console_start_end-",
            "console_cohesion-",
            "desktop_notification-",
            "--ctest-args",
            "--output-on-failure",
            "-R",
            "^foo$",
            "--packages-select",
            "pkg",
        ])
    );
}

#[test]
fn test_verb_for_all_tests() {
    let cmd = ColconInvocation::new("/ws", false)
        .test(&TestConfiguration {
            package: "pkg".to_string(),
            test: None,
            event_handlers: EventHandlers::default(),
        })
        .finish();
    assert_eq!(
        cmd.args(),
        &strings(&[
            "--log-base",
            "/dev/null",
            "test",
            "--event-handlers",
            "--event-handlers",
            "summary+",
            "console_start_end+",
            "console_cohesion-",
            "desktop_notification-",
            "--ctest-args",
            "--output-on-failure",
            "--packages-select",
            "pkg",
        ])
    );
}

#[test]
fn test_result_verb_flags() {
    let cmd = ColconInvocation::new("/ws", false)
        .test_result(&TestResultConfig { package: "pkg".to_string(), verbose: true, all: true })
        .finish();
    assert_eq!(
        cmd.args(),
        &strings(&[
            "--log-base",
            "/dev/null",
            "test-result",
            "--test-result-base",
            "build/pkg",
            "--verbose",
            "--all",
        ])
    );
    let cmd = ColconInvocation::new("/ws", false)
        .test_result(&TestResultConfig { package: "pkg".to_string(), verbose: false, all: true })
        .finish();
    assert_eq!(
        &cmd.args()[2..],
        &strings(&["test-result", "--test-result-base", "build/pkg", "--all"])[..]
    );
    let cmd = ColconInvocation::new("/ws", false)
        .test_result(&TestResultConfig { package: "p".to_string(), verbose: false, all: false })
        .finish();
    assert_eq!(&cmd.args()[2..], &strings(&["test-result", "--test-result-base", "build/p"])[..]);
}

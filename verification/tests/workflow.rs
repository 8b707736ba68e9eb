use colb::config::{BuildType, Config};
use colb::exec::Tool;
use colb::workflow::{
    exit_code, plan_build, plan_test, Action, BuildRequest, Step, TestRequest, Workflow,
    FATAL_EXIT,
};

fn strings(items: &[&str]) -> Vec<String> {
    items.iter().map(|s| s.to_string()).collect()
}

fn tools(steps: &[Step]) -> Vec<Tool> {
    steps.iter().map(|s| s.command.which()).collect()
}

fn titles(steps: &[Step]) -> Vec<String> {
    steps.iter().map(|s| s.title.clone()).collect()
}

fn has(step: &Step, token: &str) -> bool {
    step.command.args().iter().any(|a| a == token)
}

fn test_request(
    test: Option<&str>,
    direct: bool,
    skip_rebuild: bool,
    rebuild_dependencies: bool,
) -> TestRequest {
    TestRequest {
        package: "pkg".to_string(),
        test: test.map(|t| t.to_string()),
        direct,
        skip_rebuild,
        rebuild_dependencies,
    }
}

#[test]
fn exit_code_hands_on_child_code() {
    assert_eq!(FATAL_EXIT, -1);
    assert_eq!(exit_code(Some(0)), 0);
    assert_eq!(exit_code(Some(3)), 3);
    assert_eq!(exit_code(Some(-7)), -7);
    assert_eq!(exit_code(None), -1);
}

#[test]
fn build_plan_has_dependencies_then_packages() {
    let request = BuildRequest {
        packages: strings(&["a", "b"]),
        skip_dependencies: false,
        skip_tests: false,
        build_type: None,
    };
    let steps = plan_build("/ws", &request, Config::default());
    assert_eq!(steps.len(), 2);
    assert_eq!(tools(&steps), vec![Tool::Colcon, Tool::Colcon]);
    assert_eq!(
        titles(&steps),
        strings(&["Building dependencies for '[\"a\", \"b\"]'", "Building '[\"a\", \"b\"]'"])
    );
    assert_eq!(steps[0].command.current_dir(), &Some("/ws".to_string()));
    let deps = steps[0].command.args();
    assert_eq!(&deps[..2], &strings(&["--log-base", "/dev/null"])[..]);
    assert_eq!(
        &deps[deps.len() - 8..],
        &strings(&[
            "-DBUILD_TESTING=OFF",
            "-DCMAKE_BUILD_TYPE=Debug",
            "--packages-up-to",
            "a",
            "b",
            "--packages-skip",
            "a",
            "b",
        ])[..]
    );
    assert!(has(&steps[0], "summary+"));
    let pkgs = steps[1].command.args();
    assert_eq!(
        &pkgs[pkgs.len() - 5..],
        &strings(&[
            "-DBUILD_TESTING=ON",
            "-DCMAKE_BUILD_TYPE=Debug",
            "--packages-select",
            "a",
            "b",
        ])[..]
    );
    assert!(has(&steps[1], "console_cohesion+"));
}

#[test]
fn build_plan_skips_dependencies() {
    let request = BuildRequest {
        packages: strings(&["a"]),
        skip_dependencies: true,
        skip_tests: false,
        build_type: None,
    };
    let steps = plan_build("/ws", &request, Config::default());
    assert_eq!(steps.len(), 1);
    assert_eq!(titles(&steps), strings(&["Building '[\"a\"]'"]));
    assert!(has(&steps[0], "--packages-select"));
    assert!(!has(&steps[0], "--packages-up-to"));
}

#[test]
fn build_plan_skip_tests_turns_testing_off_everywhere() {
    let mut config = Config::default();
    config.upstream.build_tests = true;
    let request = BuildRequest {
        packages: strings(&["a"]),
        skip_dependencies: false,
        skip_tests: true,
        build_type: None,
    };
    let steps = plan_build("/ws", &request, config);
    assert_eq!(steps.len(), 2);
    for step in &steps {
        assert!(has(step, "-DBUILD_TESTING=OFF"));
        assert!(!has(step, "-DBUILD_TESTING=ON"));
    }
}

#[test]
fn build_plan_build_type_applies_to_packages_only() {
    let request = BuildRequest {
        packages: strings(&["a"]),
        skip_dependencies: false,
        skip_tests: false,
        build_type: Some(BuildType::Release),
    };
    let steps = plan_build("/ws", &request, Config::default());
    assert!(has(&steps[0], "-DCMAKE_BUILD_TYPE=Debug"));
    assert!(!has(&steps[0], "-DCMAKE_BUILD_TYPE=Release"));
    assert!(has(&steps[1], "-DCMAKE_BUILD_TYPE=Release"));
    assert!(!has(&steps[1], "-DCMAKE_BUILD_TYPE=Debug"));
}

#[test]
fn test_plan_default_builds_package_runs_and_reports() {
    let steps = plan_test("/ws", &test_request(None, false, false, false), &Config::default());
    assert_eq!(tools(&steps), vec![Tool::Colcon, Tool::Colcon, Tool::Colcon]);
    assert_eq!(
        titles(&steps),
        strings(&["Building 'pkg'", "Running tests for 'pkg'", "Test results for 'pkg'"])
    );
    assert_eq!(
        &steps[0].command.args()[steps[0].command.args().len() - 2..],
        &strings(&["--packages-select", "pkg"])[..]
    );
    assert_eq!(
        steps[1].command.args(),
        &strings(&[
            "--log-base",
            "log",
            "test",
            "--event-handlers",
            "--event-handlers",
            "summary-",
            "console_start_end-",
            "console_cohesion-",
            "desktop_notification-",
            "--ctest-args",
            "--output-on-failure",
            "--packages-select",
            "pkg",
        ])
    );
    assert_eq!(
        steps[2].command.args(),
        &strings(&[
            "--log-base",
            "/dev/null",
            "test-result",
            "--test-result-base",
            "build/pkg",
            "--verbose",
            "--all",
        ])
    );
}

#[test]
fn test_plan_direct_single_test_without_rebuild_launches_ctest_only() {
    let steps =
        plan_test("/ws", &test_request(Some("foo"), true, true, false), &Config::default());
    assert_eq!(steps.len(), 1);
    assert_eq!(tools(&steps), vec![Tool::Ctest]);
    assert_eq!(titles(&steps), strings(&["Running test 'foo' in 'pkg'"]));
    assert_eq!(
        steps[0].command.args(),
        &strings(&["--test-dir", "/ws/build/pkg", "--output-on-failure", "-R", "^foo$"])
    );
    let steps =
        plan_test("/ws", &test_request(Some("foo"), true, true, true), &Config::default());
    assert_eq!(tools(&steps), vec![Tool::Ctest]);
}

#[test]
fn test_plan_single_test_builds_target_with_ninja() {
    let steps =
        plan_test("/ws", &test_request(Some("foo"), false, false, false), &Config::default());
    assert_eq!(tools(&steps), vec![Tool::Ninja, Tool::Colcon, Tool::Colcon]);
    assert_eq!(
        titles(&steps),
        strings(&[
            "Building test 'foo' in 'pkg'",
            "Running test 'foo' in 'pkg'",
            "Test results for 'pkg'",
        ])
    );
    assert_eq!(steps[0].command.args(), &strings(&["-C", "/ws/build/pkg", "foo"]));
    assert!(has(&steps[1], "^foo$"));
}

#[test]
fn test_plan_rebuild_dependencies_with_single_test() {
    let steps =
        plan_test("/ws", &test_request(Some("foo"), true, false, true), &Config::default());
    assert_eq!(tools(&steps), vec![Tool::Colcon, Tool::Colcon, Tool::Ninja, Tool::Ctest]);
    assert_eq!(
        titles(&steps),
        strings(&[
            "Building dependencies for 'pkg'",
            "Building 'pkg'",
            "Building test 'foo' in 'pkg'",
            "Running test 'foo' in 'pkg'",
        ])
    );
    assert!(has(&steps[0], "--packages-up-to"));
    assert!(has(&steps[0], "--packages-skip"));
    assert!(has(&steps[1], "--packages-select"));
}

#[test]
fn test_plan_rebuild_dependencies_without_single_test() {
    let steps = plan_test("/ws", &test_request(None, true, false, true), &Config::default());
    assert_eq!(tools(&steps), vec![Tool::Colcon, Tool::Colcon, Tool::Colcon, Tool::Colcon]);
    assert_eq!(
        titles(&steps),
        strings(&[
            "Building dependencies for 'pkg'",
            "Building 'pkg'",
            "Running tests for 'pkg'",
            "Test results for 'pkg'",
        ])
    );
}

#[test]
fn test_plan_skip_rebuild_wins_over_rebuild_dependencies() {
    let steps = plan_test("/ws", &test_request(None, false, true, true), &Config::default());
    assert_eq!(titles(&steps), strings(&["Running tests for 'pkg'", "Test results for 'pkg'"]));
}

#[test]
fn workflow_runs_all_steps_then_exits_zero() {
    let steps = plan_test("/ws", &test_request(None, false, false, false), &Config::default());
    let mut flow = Workflow::new(steps);
    assert_eq!(flow.next_action(), Action::Launch(0));
    assert_eq!(flow.step(0).map(|s| s.title.as_str()), Some("Building 'pkg'"));
    assert_eq!(flow.child_exited(Some(0)), Action::Launch(1));
    assert_eq!(flow.child_exited(Some(0)), Action::Launch(2));
    assert_eq!(flow.step(2).map(|s| s.title.as_str()), Some("Test results for 'pkg'"));
    assert!(flow.step(3).is_none());
    assert_eq!(flow.child_exited(Some(0)), Action::Exit(0));
    assert_eq!(flow.next_action(), Action::Exit(0));
}

#[test]
fn workflow_stops_at_first_failure() {
    let steps = plan_test("/ws", &test_request(None, false, false, false), &Config::default());
    let mut flow = Workflow::new(steps);
    assert_eq!(flow.next_action(), Action::Launch(0));
    assert_eq!(flow.child_exited(Some(0)), Action::Launch(1));
    assert_eq!(flow.child_exited(Some(2)), Action::Exit(2));
    assert_eq!(flow.next_action(), Action::Exit(2));
    assert_eq!(flow.child_exited(Some(0)), Action::Exit(2));
}

#[test]
fn workflow_signal_is_fatal() {
    let steps = plan_test("/ws", &test_request(None, false, false, false), &Config::default());
    let mut flow = Workflow::new(steps);
    assert_eq!(flow.child_exited(None), Action::Exit(-1));
    assert_eq!(flow.next_action(), Action::Exit(-1));
}

#[test]
fn empty_workflow_exits_zero() {
    let mut flow = Workflow::new(Vec::new());
    assert_eq!(flow.next_action(), Action::Exit(0));
    assert_eq!(flow.child_exited(Some(5)), Action::Exit(0));
}

//! The workflow of a verb: which commands are launched, in which order, and
//! what happens when one of them has ended. The caller launches; the
//! decisions are made here.

use crate::args::tokens_of;
use crate::builder::{
    build_command_tokens, log_tokens, test_result_tokens, test_verb_tokens, BuildOutput,
    ColconInvocation, Selection, TestConfiguration, TestResultConfig, What,
};
use crate::config::{BuildConfiguration, BuildProfile, BuildType, Config, EventHandlers, Profiles};
use crate::exec::{
    ctest_tokens, ninja_build_target, ninja_tokens, run_single_ctest, Runnable, Tool,
};
use crate::text::{concat, copy_strings, text_of};
use vstd::prelude::*;
use vstd::string::*;

verus! {

/// The exit code of a run that ended on a fault of its own, or on a child
/// that ended without an exit code.
pub const FATAL_EXIT: i32 = -1;

/// The exit code that a finished child hands on: its own, or the fatal one
/// where it ended without any.
pub open spec fn exit_code_of(code: Option<i32>) -> i32 {
    match code {
        Some(c) => c,
        None => FATAL_EXIT,
    }
}

/// The exit code that a finished child hands on.
pub fn exit_code(code: Option<i32>) -> (exit: i32)
    ensures
        exit == exit_code_of(code),
{
    match code {
        Some(c) => c,
        None => FATAL_EXIT,
    }
}

/// One step of a workflow, as mathematical values.
pub struct StepView {
    pub title: Seq<char>,
    pub tool: Tool,
    pub args: Seq<Seq<char>>,
    pub dir: Option<Seq<char>>,
}

/// One step of a workflow: the title shown before the launch and the
/// command to launch.
pub struct Step {
    pub title: String,
    pub command: Runnable,
}

impl View for Step {
    type V = StepView;

    open spec fn view(&self) -> StepView {
        StepView {
            title: self.title@,
            tool: self.command.tool(),
            args: self.command.arguments(),
            dir: self.command.directory(),
        }
    }
}

/// The steps of a list, as mathematical values.
pub open spec fn steps_of(steps: Seq<Step>) -> Seq<StepView> {
    steps.map_values(|s: Step| s@)
}

/// `text` between single quotes.
pub open spec fn quoted(text: Seq<char>) -> Seq<char> {
    seq!['\''] + text + seq!['\'']
}

/// The title of a build of the dependencies of `subject`.
pub open spec fn dependencies_title(subject: Seq<char>) -> Seq<char> {
    "Building dependencies for "@ + quoted(subject)
}

/// The title of a build of `subject`.
pub open spec fn building_title(subject: Seq<char>) -> Seq<char> {
    "Building "@ + quoted(subject)
}

/// The title of a build of one test of a package.
pub open spec fn test_target_title(test: Seq<char>, package: Seq<char>) -> Seq<char> {
    "Building test "@ + quoted(test) + " in "@ + quoted(package)
}

/// The title of a test run: of one test, or of all tests of the package.
pub open spec fn running_title(test: Option<Seq<char>>, package: Seq<char>) -> Seq<char> {
    match test {
        Some(name) => "Running test "@ + quoted(name) + " in "@ + quoted(package),
        None => "Running tests for "@ + quoted(package),
    }
}

/// The title of the report of a package's test results.
pub open spec fn results_title(package: Seq<char>) -> Seq<char> {
    "Test results for "@ + quoted(package)
}

/// A colcon build in the workspace `ws`: no log, the default layout, the
/// given profile and selection.
pub open spec fn build_step(
    title: Seq<char>,
    ws: Seq<char>,
    profile: BuildProfile,
    what: Selection,
) -> StepView {
    StepView {
        title,
        tool: Tool::Colcon,
        args: build_command_tokens(false, false, false, profile, what),
        dir: Some(ws),
    }
}

/// The build of one test's target with ninja.
pub open spec fn test_target_step(ws: Seq<char>, package: Seq<char>, test: Seq<char>) -> StepView {
    StepView {
        title: test_target_title(test, package),
        tool: Tool::Ninja,
        args: ninja_tokens(ws, package, test),
        dir: None,
    }
}

/// The run of one test with ctest.
pub open spec fn direct_test_step(ws: Seq<char>, package: Seq<char>, test: Seq<char>) -> StepView {
    StepView {
        title: running_title(Some(test), package),
        tool: Tool::Ctest,
        args: ctest_tokens(ws, package, test),
        dir: None,
    }
}

/// The run of a package's tests, or of one of them, through colcon: with
/// a log and with no event handler reporting.
pub open spec fn colcon_test_step(
    ws: Seq<char>,
    package: Seq<char>,
    test: Option<Seq<char>>,
) -> StepView {
    StepView {
        title: running_title(test, package),
        tool: Tool::Colcon,
        args: log_tokens(true) + test_verb_tokens(package, test, EventHandlers::none()),
        dir: Some(ws),
    }
}

/// The report of all test results of a package, in full.
pub open spec fn results_step(ws: Seq<char>, package: Seq<char>) -> StepView {
    StepView {
        title: results_title(package),
        tool: Tool::Colcon,
        args: log_tokens(false) + test_result_tokens(package, true, true),
        dir: Some(ws),
    }
}

pub(crate) fn quote(text: &str) -> (s: String)
    ensures
        s@ == quoted(text@),
{
    proof {
        reveal_strlit("'");
    }
    let mut s = concat("'", text);
    s.append("'");
    assert(s@ =~= quoted(text@));
    s
}

pub(crate) fn titled(lead: &str, subject: &str) -> (s: String)
    ensures
        s@ == lead@ + quoted(subject@),
{
    let q = quote(subject);
    concat(lead, q.as_str())
}

fn titled_in(lead: &str, test: &str, package: &str) -> (s: String)
    ensures
        s@ == lead@ + quoted(test@) + " in "@ + quoted(package@),
{
    let mut s = titled(lead, test);
    s.append(" in ");
    let q = quote(package);
    s.append(q.as_str());
    s
}

fn colcon_build(title: String, ws: &str, profile: &BuildConfiguration, what: &What) -> (step:
    Step)
    ensures
        step@ == build_step(title@, ws@, profile@, what@),
{
    let command = ColconInvocation::new(ws, false).build(&BuildOutput::default()).configure(
        profile,
    ).finish(what);
    assert(command.arguments() =~= build_command_tokens(false, false, false, profile@, what@));
    Step { title, command }
}

/// What `Debug` formatting writes for a list of strings.
pub uninterp spec fn debug_list_text(items: Seq<Seq<char>>) -> Seq<char>;

/// Formats a list of strings with `format!` and `{:?}`, that is by the
/// standard library's `Debug` for a vector of strings. The contract claims
/// only that the text is a function of the strings' characters.
#[verifier::external_body]
fn debug_list(items: &Vec<String>) -> (s: String)
    ensures
        s@ == debug_list_text(tokens_of(items@)),
{
    format!("{:?}", items)
}

/// What a build was asked to do, the packages already resolved.
pub struct BuildRequest {
    pub packages: Vec<String>,
    pub skip_dependencies: bool,
    pub skip_tests: bool,
    /// A build mode for the packages of this run only.
    pub build_type: Option<BuildType>,
}

/// What a test run was asked to do, the package already resolved.
pub struct TestRequest {
    pub package: String,
    /// If set, only the test of this name is built and run.
    pub test: Option<String>,
    /// Run a single named test with ctest itself.
    pub direct: bool,
    pub skip_rebuild: bool,
    pub rebuild_dependencies: bool,
}

/// The steps of a build: the dependencies of the packages with the
/// upstream profile, unless they are skipped, and then the packages
/// themselves with the package profile.
pub open spec fn build_plan(
    ws: Seq<char>,
    packages: Seq<Seq<char>>,
    skip_dependencies: bool,
    profiles: Profiles,
) -> Seq<StepView> {
    (if skip_dependencies {
        Seq::empty()
    } else {
        seq![
            build_step(
                dependencies_title(debug_list_text(packages)),
                ws,
                profiles.upstream,
                Selection::DependenciesFor(packages),
            ),
        ]
    }) + seq![
        build_step(
            building_title(debug_list_text(packages)),
            ws,
            profiles.package,
            Selection::ThesePackages(packages),
        ),
    ]
}

/// The builds that come before a test run with a rebuild of the
/// dependencies: the dependencies, and after them the package itself where
/// a single test is named.
pub open spec fn dependency_steps(
    ws: Seq<char>,
    package: Seq<char>,
    test: Option<Seq<char>>,
    profiles: Profiles,
) -> Seq<StepView> {
    seq![
        build_step(
            dependencies_title(package),
            ws,
            profiles.upstream,
            Selection::DependenciesFor(seq![package]),
        ),
    ] + (match test {
        Some(_) => seq![
            build_step(
                building_title(package),
                ws,
                profiles.package,
                Selection::ThesePackages(seq![package]),
            ),
        ],
        None => Seq::empty(),
    })
}

/// The build that brings the package up to date before its tests run: the
/// target of the one named test, built with ninja, or else the package.
pub open spec fn rebuild_step(
    ws: Seq<char>,
    package: Seq<char>,
    test: Option<Seq<char>>,
    profiles: Profiles,
) -> StepView {
    match test {
        Some(name) => test_target_step(ws, package, name),
        None => build_step(
            building_title(package),
            ws,
            profiles.package,
            Selection::ThesePackages(seq![package]),
        ),
    }
}

/// The steps that run the tests: one named test with ctest itself where
/// that is asked for, and nothing after it; else the tests through colcon
/// and then the report of the results.
pub open spec fn run_steps(
    ws: Seq<char>,
    package: Seq<char>,
    test: Option<Seq<char>>,
    direct: bool,
) -> Seq<StepView> {
    match test {
        Some(name) if direct => seq![direct_test_step(ws, package, name)],
        _ => seq![colcon_test_step(ws, package, test), results_step(ws, package)],
    }
}

/// The steps of a test run, in order.
pub open spec fn test_plan(
    ws: Seq<char>,
    package: Seq<char>,
    test: Option<Seq<char>>,
    direct: bool,
    skip_rebuild: bool,
    rebuild_dependencies: bool,
    profiles: Profiles,
) -> Seq<StepView> {
    (if rebuild_dependencies && !skip_rebuild {
        dependency_steps(ws, package, test, profiles)
    } else {
        Seq::empty()
    }) + (if skip_rebuild {
        Seq::empty()
    } else {
        seq![rebuild_step(ws, package, test, profiles)]
    }) + run_steps(ws, package, test, direct)
}

fn single(package: &String) -> (list: Vec<String>)
    ensures
        tokens_of(list@) == seq![package@],
{
    let mut list: Vec<String> = Vec::new();
    list.push(package.clone());
    assert(tokens_of(list@) =~= seq![package@]);
    list
}

/// Plans a build. The overrides of the request are applied to the
/// configuration first; they last for this plan only.
pub fn plan_build(ws: &str, request: &BuildRequest, config: Config) -> (steps: Vec<Step>)
    ensures
        steps_of(steps@) == build_plan(
            ws@,
            tokens_of(request.packages@),
            request.skip_dependencies,
            config@.overridden(request.build_type, request.skip_tests),
        ),
{
    let mut config = config;
    config.apply_overrides(request.build_type, request.skip_tests);
    let mut steps: Vec<Step> = Vec::new();
    let list = debug_list(&request.packages);
    if !request.skip_dependencies {
        let what = What::DependenciesFor(copy_strings(&request.packages));
        let title = titled("Building dependencies for ", list.as_str());
        steps.push(colcon_build(title, ws, &config.upstream, &what));
    }
    let what = What::ThesePackages(copy_strings(&request.packages));
    let title = titled("Building ", list.as_str());
    steps.push(colcon_build(title, ws, &config.package, &what));
    assert(steps_of(steps@) =~= build_plan(
        ws@,
        tokens_of(request.packages@),
        request.skip_dependencies,
        config@,
    ));
    steps
}

fn package_build(ws: &str, package: &String, config: &Config) -> (step: Step)
    ensures
        step@ == build_step(
            building_title(package@),
            ws@,
            config@.package,
            Selection::ThesePackages(seq![package@]),
        ),
{
    let what = What::ThesePackages(single(package));
    colcon_build(titled("Building ", package.as_str()), ws, &config.package, &what)
}

/// Plans a test run.
pub fn plan_test(ws: &str, request: &TestRequest, config: &Config) -> (steps: Vec<Step>)
    ensures
        steps_of(steps@) == test_plan(
            ws@,
            request.package@,
            text_of(request.test),
            request.direct,
            request.skip_rebuild,
            request.rebuild_dependencies,
            config@,
        ),
{
    let package = &request.package;
    let mut steps: Vec<Step> = Vec::new();
    if request.rebuild_dependencies && !request.skip_rebuild {
        let what = What::DependenciesFor(single(package));
        let title = titled("Building dependencies for ", package.as_str());
        steps.push(colcon_build(title, ws, &config.upstream, &what));
        if request.test.is_some() {
            steps.push(package_build(ws, package, config));
        }
    }
    let ghost first = steps_of(steps@);
    assert(first =~= if request.rebuild_dependencies && !request.skip_rebuild {
        dependency_steps(ws@, package@, text_of(request.test), config@)
    } else {
        Seq::empty()
    });
    if !request.skip_rebuild {
        if let Some(test) = &request.test {
            let title = titled_in("Building test ", test.as_str(), package.as_str());
            let command = ninja_build_target(ws, package.as_str(), test.as_str());
            steps.push(Step { title, command });
        } else {
            steps.push(package_build(ws, package, config));
        }
    }
    let ghost second = steps_of(steps@);
    assert(second =~= first + if request.skip_rebuild {
        Seq::empty()
    } else {
        seq![rebuild_step(ws@, package@, text_of(request.test), config@)]
    });
    let mut direct_done = false;
    if let Some(test) = &request.test {
        if request.direct {
            let title = titled_in("Running test ", test.as_str(), package.as_str());
            let command = run_single_ctest(ws, package.as_str(), test.as_str());
            steps.push(Step { title, command });
            direct_done = true;
        }
    }
    if !direct_done {
        let title = match &request.test {
            Some(test) => titled_in("Running test ", test.as_str(), package.as_str()),
            None => titled("Running tests for ", package.as_str()),
        };
        let test_config = TestConfiguration {
            package: package.clone(),
            test: match &request.test {
                Some(test) => Some(test.clone()),
                None => None,
            },
            event_handlers: EventHandlers::silent(),
        };
        let command = ColconInvocation::new(ws, true).test(&test_config).finish();
        steps.push(Step { title, command });
        let result_config = TestResultConfig { package: package.clone(), verbose: true, all: true };
        let command = ColconInvocation::new(ws, false).test_result(&result_config).finish();
        steps.push(Step { title: titled("Test results for ", package.as_str()), command });
    }
    assert(steps_of(steps@) =~= second + run_steps(
        ws@,
        package@,
        text_of(request.test),
        request.direct,
    ));
    steps
}

/// What the caller of a workflow does next.
#[derive(Clone, Copy, Debug, PartialEq, Eq, Structural)]
pub enum Action {
    /// Show the title of the step at this index, launch its command and
    /// report how it ended.
    Launch(usize),
    /// Launch nothing more and exit with this code.
    Exit(i32),
}

/// Where a workflow stands, as mathematical values.
pub struct Progress {
    /// The number of steps that have ended well.
    pub done: nat,
    /// The exit code of the step that failed, once one has.
    pub failed: Option<i32>,
}

/// What is to be done in a workflow of `len` steps that stands at
/// `progress`: exit with the code of the failed step; else launch the first
/// step that has not run; else, all steps having ended well, exit with 0.
pub open spec fn pending(len: nat, progress: Progress) -> Action {
    match progress.failed {
        Some(code) => Action::Exit(code),
        None => if progress.done < len {
            Action::Launch(progress.done as usize)
        } else {
            Action::Exit(0)
        },
    }
}

/// Where a workflow of `len` steps stands after the step in flight has
/// ended with `code`. Exit code 0 moves on to the next step. Any other
/// code, or none, is a failure: it is kept, and no later step will run.
/// A workflow that has failed or has no step in flight stays as it is.
pub open spec fn settled(len: nat, progress: Progress, code: Option<i32>) -> Progress {
    if progress.failed.is_some() || progress.done >= len {
        progress
    } else if code == Some(0i32) {
        Progress { done: progress.done + 1, failed: None }
    } else {
        Progress { done: progress.done, failed: Some(exit_code_of(code)) }
    }
}

/// The steps of one verb and how far they have come. The caller launches
/// each step it is told to and reports the exit code; the workflow decides
/// what follows.
pub struct Workflow {
    steps: Vec<Step>,
    done: usize,
    failed: Option<i32>,
}

impl Workflow {
    /// The steps, in order.
    pub closed spec fn plan(&self) -> Seq<StepView> {
        steps_of(self.steps@)
    }

    /// How far the steps have come.
    pub closed spec fn progress(&self) -> Progress {
        Progress { done: self.done as nat, failed: self.failed }
    }

    /// A workflow of the given steps, none of them launched yet.
    pub fn new(steps: Vec<Step>) -> (flow: Workflow)
        ensures
            flow.plan() == steps_of(steps@),
            flow.progress() == (Progress { done: 0, failed: None }),
    {
        Workflow { steps, done: 0, failed: None }
    }

    /// What the caller does now.
    pub fn next_action(&self) -> (action: Action)
        ensures
            action == pending(self.plan().len(), self.progress()),
            action matches Action::Launch(index) ==> index < self.plan().len(),
    {
        match self.failed {
            Some(code) => Action::Exit(code),
            None => if self.done < self.steps.len() {
                Action::Launch(self.done)
            } else {
                Action::Exit(0)
            },
        }
    }

    /// Takes note that the step in flight has ended with `code` (none
    /// where the child was ended by a signal) and says what the caller
    /// does next: the next step after a success, and after a failure the
    /// exit with the failed step's code, whatever steps were left.
    pub fn child_exited(&mut self, code: Option<i32>) -> (action: Action)
        ensures
            final(self).plan() == old(self).plan(),
            final(self).progress() == settled(old(self).plan().len(), old(self).progress(), code),
            action == pending(final(self).plan().len(), final(self).progress()),
            action matches Action::Launch(index) ==> index < final(self).plan().len(),
    {
        if self.failed.is_none() && self.done < self.steps.len() {
            match code {
                Some(0) => {
                    self.done = self.done + 1;
                },
                _ => {
                    self.failed = Some(exit_code(code));
                },
            }
        }
        self.next_action()
    }

    /// The step at `index`, if there is one.
    pub fn step(&self, index: usize) -> (step: Option<&Step>)
        ensures
            index < self.plan().len() ==> step.is_some() && step.unwrap()@ == self.plan()[
                index as int
            ],
            index >= self.plan().len() ==> step.is_none(),
    {
        if index < self.steps.len() {
            Some(&self.steps[index])
        } else {
            None
        }
    }
}

/// A single named test that is run directly and without a rebuild makes a
/// plan of one step, the run of that test with ctest: no dependency and no
/// package is built, colcon runs no test and reports no result, whether a
/// rebuild of the dependencies was asked for or not.
pub proof fn lemma_direct_test_without_rebuild_is_one_step(
    ws: Seq<char>,
    package: Seq<char>,
    test: Seq<char>,
    rebuild_dependencies: bool,
    profiles: Profiles,
)
    ensures
        test_plan(ws, package, Some(test), true, true, rebuild_dependencies, profiles) == seq![
            direct_test_step(ws, package, test),
        ],
        direct_test_step(ws, package, test).tool == Tool::Ctest,
{
    assert(test_plan(ws, package, Some(test), true, true, rebuild_dependencies, profiles) =~= seq![
        direct_test_step(ws, package, test),
    ]);
}

/// The exit codes of `n` steps that all ended well.
pub open spec fn all_well(n: nat) -> Seq<Option<i32>> {
    Seq::new(n, |i: int| Some(0i32))
}

/// Where a workflow of `len` steps stands after its steps in flight have
/// ended with `codes`, one after the other.
pub open spec fn settled_all(len: nat, progress: Progress, codes: Seq<Option<i32>>) -> Progress
    decreases codes.len(),
{
    if codes.len() == 0 {
        progress
    } else {
        settled(len, settled_all(len, progress, codes.drop_last()), codes.last())
    }
}

/// A workflow stops at the first step that fails: when `k` steps have ended
/// well and the next one ends with a code other than 0, the workflow exits
/// with that code (the fatal one where the child had none), whatever the
/// steps after it would have done, and it has moved past none of them.
pub proof fn lemma_first_failure_ends_workflow(
    len: nat,
    k: nat,
    code: Option<i32>,
    later: Seq<Option<i32>>,
)
    requires
        k < len,
        code != Some(0i32),
    ensures
        ({
            let start = Progress { done: 0, failed: None };
            let end = settled_all(len, start, all_well(k).push(code) + later);
            &&& end == (Progress { done: k, failed: Some(exit_code_of(code)) })
            &&& pending(len, end) == Action::Exit(exit_code_of(code))
        }),
    decreases later.len(),
{
    let start = Progress { done: 0, failed: None };
    if later.len() == 0 {
        assert(all_well(k).push(code) + later =~= all_well(k).push(code));
        assert(all_well(k).push(code).drop_last() =~= all_well(k));
        lemma_successes_advance(len, k);
    } else {
        let codes = all_well(k).push(code) + later;
        assert(codes.drop_last() =~= all_well(k).push(code) + later.drop_last());
        lemma_first_failure_ends_workflow(len, k, code, later.drop_last());
    }
}

/// A workflow whose first `k` steps all end well stands at step `k`, and
/// once every step has ended well it exits with 0.
pub proof fn lemma_successes_advance(len: nat, k: nat)
    requires
        k <= len,
    ensures
        settled_all(len, Progress { done: 0, failed: None }, all_well(k)) == (Progress {
            done: k,
            failed: None,
        }),
        k == len ==> pending(
            len,
            settled_all(len, Progress { done: 0, failed: None }, all_well(k)),
        ) == Action::Exit(0),
        k < len && len <= usize::MAX ==> pending(
            len,
            settled_all(len, Progress { done: 0, failed: None }, all_well(k)),
        ) == Action::Launch(k as usize),
    decreases k,
{
    if k > 0 {
        lemma_successes_advance(len, (k - 1) as nat);
        assert(all_well(k).drop_last() =~= all_well((k - 1) as nat));
    }
}

} // verus!

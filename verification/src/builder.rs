//! The staged builder of colcon command lines. Each stage is a type of its
//! own and each operation consumes its stage and returns the next one, so a
//! command line can only be put together in colcon's own order: the bare
//! invocation, then the verb, then (for a build) the profile, then the
//! selection of packages.

use crate::args::{tokens_of, ArgStack};
use crate::config::{cmake_arg, cmake_arg_text, BuildConfiguration, BuildProfile, EventHandlers};
use crate::exec::{Runnable, Tool};
use crate::text::{concat, decimal, decimal_string};
use vstd::prelude::*;
use vstd::string::*;

verus! {

/// How the install space of a build is laid out.
pub struct BuildOutput {
    /// Install by symbolic links where possible.
    pub symlink: bool,
    /// Install all packages into one folder.
    pub merge: bool,
}

impl Default for BuildOutput {
    /// Copied files, one install folder per package.
    fn default() -> (output: BuildOutput)
        ensures
            !output.symlink,
            !output.merge,
    {
        BuildOutput { symlink: false, merge: false }
    }
}

/// What a test run covers and how it reports.
pub struct TestConfiguration {
    pub package: String,
    /// If set, only the test of this name is run.
    pub test: Option<String>,
    pub event_handlers: EventHandlers,
}

/// Which test results are shown.
pub struct TestResultConfig {
    pub package: String,
    pub verbose: bool,
    pub all: bool,
}

/// The packages that a build applies to.
pub enum What {
    /// The dependencies of the named packages, without those packages.
    DependenciesFor(Vec<String>),
    /// The named packages and no others.
    ThesePackages(Vec<String>),
}

/// The tokens that every colcon command line starts with: where the log
/// goes, a folder `log` or nowhere.
pub open spec fn log_tokens(log: bool) -> Seq<Seq<char>> {
    seq![
        "--log-base"@,
        if log {
            "log"@
        } else {
            "/dev/null"@
        },
    ]
}

/// The tokens of the build verb: the verb, the build and install folders,
/// and the layout of the install space.
pub open spec fn build_verb_tokens(symlink: bool, merge: bool) -> Seq<Seq<char>> {
    seq!["build"@, "--build-base"@, "build"@, "--install-base"@, "install"@] + (if symlink {
        seq!["--symlink-install"@]
    } else {
        Seq::empty()
    }) + (if merge {
        seq!["--merge-install"@]
    } else {
        Seq::empty()
    })
}

/// The regular expression that matches the name `name` and nothing else.
pub open spec fn anchored(name: Seq<char>) -> Seq<char> {
    seq!['^'] + name + seq!['$']
}

/// The tokens of the test verb: the verb, the event handlers, the output
/// of failing tests, the filter for one test where one is named, and the
/// package.
pub open spec fn test_verb_tokens(
    package: Seq<char>,
    test: Option<Seq<char>>,
    handlers: EventHandlers,
) -> Seq<Seq<char>> {
    seq!["test"@, "--event-handlers"@] + handlers.tokens() + seq![
        "--ctest-args"@,
        "--output-on-failure"@,
    ] + (match test {
        Some(name) => seq!["-R"@, anchored(name)],
        None => Seq::empty(),
    }) + seq!["--packages-select"@, package]
}

/// The folder, relative to the workspace, that holds a package's build.
pub open spec fn result_base(package: Seq<char>) -> Seq<char> {
    "build/"@ + package
}

/// The tokens of the test-result verb.
pub open spec fn test_result_tokens(package: Seq<char>, verbose: bool, all: bool) -> Seq<
    Seq<char>,
> {
    seq!["test-result"@, "--test-result-base"@, result_base(package)] + (if verbose {
        seq!["--verbose"@]
    } else {
        Seq::empty()
    }) + (if all {
        seq!["--all"@]
    } else {
        Seq::empty()
    })
}

/// The tokens that choose the parallel executor, where a number of jobs is
/// set.
pub open spec fn parallel_tokens(jobs: Option<u32>) -> Seq<Seq<char>> {
    match jobs {
        Some(n) => seq!["--executor"@, "parallel"@, "--parallel-workers"@, decimal(n as nat)],
        None => Seq::empty(),
    }
}

/// The mixin flag followed by the mixins in their order, or nothing at all
/// where there is no mixin.
pub open spec fn mixin_tokens(mixins: Seq<Seq<char>>) -> Seq<Seq<char>> {
    if mixins.len() == 0 {
        Seq::empty()
    } else {
        seq!["--mixin"@] + mixins
    }
}

/// The token that switches the building of tests on or off.
pub open spec fn testing_flag(build_tests: bool) -> Seq<char> {
    cmake_arg_text(
        "BUILD_TESTING"@,
        if build_tests {
            "ON"@
        } else {
            "OFF"@
        },
    )
}

/// The tokens that a build profile contributes, in colcon's order: the
/// executor, the event handlers, the mixins, the CMake arguments (first the
/// switch for tests, then the profile's own) and last the build mode.
pub open spec fn profile_tokens(profile: BuildProfile) -> Seq<Seq<char>> {
    parallel_tokens(profile.parallel_jobs) + profile.event_handlers.tokens() + mixin_tokens(
        profile.mixins,
    ) + seq!["--cmake-args"@, testing_flag(profile.build_tests)] + profile.cmake_args + seq![
        profile.build_type.flag(),
    ]
}

/// The packages of a selection, as mathematical values.
pub enum Selection {
    DependenciesFor(Seq<Seq<char>>),
    ThesePackages(Seq<Seq<char>>),
}

impl View for What {
    type V = Selection;

    open spec fn view(&self) -> Selection {
        match self {
            What::DependenciesFor(pkgs) => Selection::DependenciesFor(tokens_of(pkgs@)),
            What::ThesePackages(pkgs) => Selection::ThesePackages(tokens_of(pkgs@)),
        }
    }
}

/// The tokens that select the packages of a build.
pub open spec fn selection_tokens(what: Selection) -> Seq<Seq<char>> {
    match what {
        Selection::DependenciesFor(pkgs) => seq!["--packages-up-to"@] + pkgs + seq![
            "--packages-skip"@,
        ] + pkgs,
        Selection::ThesePackages(pkgs) => seq!["--packages-select"@] + pkgs,
    }
}

/// All tokens of a finished build command line: the log, the verb, the
/// profile and the selection of packages.
pub open spec fn build_command_tokens(
    log: bool,
    symlink: bool,
    merge: bool,
    profile: BuildProfile,
    what: Selection,
) -> Seq<Seq<char>> {
    log_tokens(log) + build_verb_tokens(symlink, merge) + profile_tokens(profile)
        + selection_tokens(what)
}

/// Writes the regular expression that matches `name` and nothing else.
pub fn anchored_filter(name: &str) -> (s: String)
    ensures
        s@ == anchored(name@),
{
    proof {
        reveal_strlit("^");
        reveal_strlit("$");
    }
    let mut s = concat("^", name);
    s.append("$");
    assert(s@ =~= anchored(name@));
    s
}

/// First stage: a colcon invocation without a verb.
pub struct ColconInvocation {
    args: ArgStack,
    workspace: String,
}

/// Second stage: the build verb is chosen, the profile is still to come.
pub struct BuildVerb {
    args: ArgStack,
    workspace: String,
}

/// Second stage of a verb that takes no profile: it can be finished as it
/// stands.
pub struct BasicVerb {
    args: ArgStack,
    workspace: String,
}

/// Third stage of a build: the profile is applied, the packages are still
/// to be selected.
pub struct ConfiguredBuild {
    args: ArgStack,
    workspace: String,
}

impl ColconInvocation {
    /// The tokens gathered so far.
    pub closed spec fn tokens(&self) -> Seq<Seq<char>> {
        self.args@
    }

    /// The workspace in which colcon will run.
    pub closed spec fn workspace(&self) -> Seq<char> {
        self.workspace@
    }

    /// Starts a command line for the workspace. With `log` colcon keeps its
    /// log in the folder `log`, without it the log is discarded.
    pub fn new(workspace: &str, log: bool) -> (invocation: ColconInvocation)
        ensures
            invocation.tokens() == log_tokens(log),
            invocation.workspace() == workspace@,
    {
        let mut args = ArgStack::default();
        args.arg("--log-base");
        if log {
            args.arg("log");
        } else {
            args.arg("/dev/null");
        }
        assert(args@ =~= log_tokens(log));
        ColconInvocation { args, workspace: workspace.to_owned() }
    }

    /// Chooses the build verb.
    pub fn build(self, base_setup: &BuildOutput) -> (verb: BuildVerb)
        ensures
            verb.tokens() == self.tokens() + build_verb_tokens(
                base_setup.symlink,
                base_setup.merge,
            ),
            verb.workspace() == self.workspace(),
    {
        let mut res = BuildVerb { args: self.args, workspace: self.workspace };
        res.args.arg("build");
        let folders = ["--build-base", "build", "--install-base", "install"];
        res.args.args(folders.as_slice());
        if base_setup.symlink {
            res.args.arg("--symlink-install");
        }
        if base_setup.merge {
            res.args.arg("--merge-install");
        }
        assert(res.args@ =~= self.tokens() + build_verb_tokens(
            base_setup.symlink,
            base_setup.merge,
        ));
        res
    }

    /// Chooses the test verb for one package, or for one test of it.
    pub fn test(self, config: &TestConfiguration) -> (verb: BasicVerb)
        ensures
            verb.tokens() == self.tokens() + test_verb_tokens(
                config.package@,
                match config.test {
                    Some(name) => Some(name@),
                    None => None,
                },
                config.event_handlers,
            ),
            verb.workspace() == self.workspace(),
    {
        let mut res = BasicVerb { args: self.args, workspace: self.workspace };
        res.args.arg("test");
        res.args.arg("--event-handlers");
        config.event_handlers.apply(&mut res.args);
        let output = ["--ctest-args", "--output-on-failure"];
        res.args.args(output.as_slice());
        if let Some(test) = &config.test {
            res.args.arg("-R");
            res.args.arg(anchored_filter(test.as_str()));
        }
        let selection = ["--packages-select", config.package.as_str()];
        res.args.args(selection.as_slice());
        assert(res.args@ =~= self.tokens() + test_verb_tokens(
            config.package@,
            match config.test {
                Some(name) => Some(name@),
                None => None,
            },
            config.event_handlers,
        ));
        res
    }

    /// Chooses the verb that shows the test results of one package.
    pub fn test_result(self, config: &TestResultConfig) -> (verb: BasicVerb)
        ensures
            verb.tokens() == self.tokens() + test_result_tokens(
                config.package@,
                config.verbose,
                config.all,
            ),
            verb.workspace() == self.workspace(),
    {
        let mut res = BasicVerb { args: self.args, workspace: self.workspace };
        res.args.arg("test-result");
        let base = concat("build/", config.package.as_str());
        let folder = ["--test-result-base", base.as_str()];
        res.args.args(folder.as_slice());
        if config.verbose {
            res.args.arg("--verbose");
        }
        if config.all {
            res.args.arg("--all");
        }
        assert(res.args@ =~= self.tokens() + test_result_tokens(
            config.package@,
            config.verbose,
            config.all,
        ));
        res
    }
}

impl BuildVerb {
    /// The tokens gathered so far.
    pub closed spec fn tokens(&self) -> Seq<Seq<char>> {
        self.args@
    }

    /// The workspace in which colcon will run.
    pub closed spec fn workspace(&self) -> Seq<char> {
        self.workspace@
    }

    /// Applies a build profile. The profile's tokens follow those already
    /// present, and the build mode comes last of them, after every CMake
    /// argument of the profile, so that no argument can override it.
    pub fn configure(self, config: &BuildConfiguration) -> (build: ConfiguredBuild)
        ensures
            build.tokens() == self.tokens() + profile_tokens(config@),
            build.tokens().last() == config.build_type.flag(),
            build.workspace() == self.workspace(),
    {
        let mut res = ConfiguredBuild { args: self.args, workspace: self.workspace };
        if let Some(n) = config.parallel_jobs {
            let n_arg = decimal_string(n);
            let executor = ["--executor", "parallel", "--parallel-workers", n_arg.as_str()];
            res.args.args(executor.as_slice());
        }
        assert(res.args@ =~= self.tokens() + parallel_tokens(config.parallel_jobs));
        config.event_handlers.apply(&mut res.args);
        let ghost reported = res.args@;
        if !config.mixins.is_empty() {
            res.args.arg("--mixin").args(config.mixins.as_slice());
        }
        assert(res.args@ =~= reported + mixin_tokens(config@.mixins));
        res.args.arg("--cmake-args");
        res.args.arg(
            cmake_arg(
                "BUILD_TESTING",
                if config.build_tests {
                    "ON"
                } else {
                    "OFF"
                },
            ),
        );
        res.args.args(config.cmake_args.as_slice());
        config.build_type.apply(&mut res.args);
        assert(res.args@ =~= self.tokens() + profile_tokens(config@));
        res
    }
}

impl BasicVerb {
    /// The tokens gathered so far.
    pub closed spec fn tokens(&self) -> Seq<Seq<char>> {
        self.args@
    }

    /// The workspace in which colcon will run.
    pub closed spec fn workspace(&self) -> Seq<char> {
        self.workspace@
    }

    /// Finishes the command line: colcon, launched in the workspace, with
    /// the tokens gathered so far.
    pub fn finish(self) -> (cmd: Runnable)
        ensures
            cmd.tool() == Tool::Colcon,
            cmd.arguments() == self.tokens(),
            cmd.directory() == Some(self.workspace()),
    {
        Runnable::assemble(Tool::Colcon, self.args, Some(self.workspace))
    }
}

impl ConfiguredBuild {
    /// The tokens gathered so far.
    pub closed spec fn tokens(&self) -> Seq<Seq<char>> {
        self.args@
    }

    /// The workspace in which colcon will run.
    pub closed spec fn workspace(&self) -> Seq<char> {
        self.workspace@
    }

    /// Selects the packages and finishes the command line: colcon,
    /// launched in the workspace, with the tokens gathered so far followed
    /// by the selection.
    pub fn finish(self, what: &What) -> (cmd: Runnable)
        ensures
            cmd.tool() == Tool::Colcon,
            cmd.arguments() == self.tokens() + selection_tokens(what@),
            cmd.directory() == Some(self.workspace()),
    {
        let mut args = self.args;
        match what {
            What::DependenciesFor(pkgs) => {
                args.arg("--packages-up-to").args(pkgs.as_slice());
                args.arg("--packages-skip").args(pkgs.as_slice());
            },
            What::ThesePackages(pkgs) => {
                args.arg("--packages-select").args(pkgs.as_slice());
            },
        }
        assert(args@ =~= self.tokens() + selection_tokens(what@));
        Runnable::assemble(Tool::Colcon, args, Some(self.workspace))
    }
}

} // verus!

//! The configuration model: two build profiles, one for the dependencies of
//! the package under development and one for that package itself.

use crate::args::{tokens_of, ArgStack};
use crate::text::concat;
use vstd::prelude::*;
use vstd::string::*;

verus! {

/// The text of a CMake definition: `-D`, the name, `=`, the value.
pub open spec fn cmake_arg_text(name: Seq<char>, value: Seq<char>) -> Seq<char> {
    seq!['-', 'D'] + name + seq!['='] + value
}

/// The text that switches one event handler on (`+`) or off (`-`).
pub open spec fn handler_text(name: Seq<char>, enabled: bool) -> Seq<char> {
    name.push(
        if enabled {
            '+'
        } else {
            '-'
        },
    )
}

/// Writes the token that switches the event handler `name` on or off.
pub fn handler_str(name: &str, enabled: bool) -> (s: String)
    ensures
        s@ == handler_text(name@, enabled),
{
    proof {
        reveal_strlit("+");
        reveal_strlit("-");
    }
    let s = concat(
        name,
        if enabled {
            "+"
        } else {
            "-"
        },
    );
    assert(s@ =~= handler_text(name@, enabled));
    s
}

/// Writes the CMake definition of `name` as `value`.
pub fn cmake_arg(name: &str, value: &str) -> (s: String)
    ensures
        s@ == cmake_arg_text(name@, value@),
{
    proof {
        reveal_strlit("-D");
        reveal_strlit("=");
    }
    let mut s = concat("-D", name);
    s.append("=");
    s.append(value);
    assert(s@ =~= cmake_arg_text(name@, value@));
    s
}

/// The build mode handed to CMake.
#[derive(Clone, Copy, Debug, PartialEq, Eq, Structural)]
pub enum BuildType {
    Debug,
    Release,
    RelWithDebInfo,
}

impl Default for BuildType {
    fn default() -> (mode: BuildType)
        ensures
            mode == BuildType::Debug,
    {
        BuildType::Debug
    }
}

impl BuildType {
    /// The mode's name as CMake spells it.
    pub open spec fn name(self) -> Seq<char> {
        match self {
            BuildType::Debug => "Debug"@,
            BuildType::Release => "Release"@,
            BuildType::RelWithDebInfo => "RelWithDebInfo"@,
        }
    }

    /// The token that selects this mode.
    pub open spec fn flag(self) -> Seq<char> {
        cmake_arg_text("CMAKE_BUILD_TYPE"@, self.name())
    }

    /// Appends the token that selects this mode.
    pub fn apply(&self, cmd: &mut ArgStack)
        ensures
            final(cmd)@ == old(cmd)@.push(self.flag()),
    {
        let t = match self {
            BuildType::Debug => "Debug",
            BuildType::Release => "Release",
            BuildType::RelWithDebInfo => "RelWithDebInfo",
        };
        cmd.arg(cmake_arg("CMAKE_BUILD_TYPE", t));
    }
}

/// Which of colcon's four event handlers report during a run.
#[derive(Clone, Copy, Debug, PartialEq, Eq, Structural)]
pub struct EventHandlers {
    pub desktop_notification: bool,
    pub console_cohesion: bool,
    pub summary: bool,
    pub console_start_end: bool,
}

impl Default for EventHandlers {
    /// Full progress reporting: the summary and the start and end of each
    /// package.
    fn default() -> (handlers: EventHandlers)
        ensures
            handlers == EventHandlers::full(),
    {
        EventHandlers {
            desktop_notification: false,
            console_cohesion: false,
            summary: true,
            console_start_end: true,
        }
    }
}

impl EventHandlers {
    /// Full progress reporting.
    pub open spec fn full() -> EventHandlers {
        EventHandlers {
            desktop_notification: false,
            console_cohesion: false,
            summary: true,
            console_start_end: true,
        }
    }

    /// No handler reports.
    pub open spec fn none() -> EventHandlers {
        EventHandlers {
            desktop_notification: false,
            console_cohesion: false,
            summary: false,
            console_start_end: false,
        }
    }

    /// The tokens that set the four handlers: the flag, then `summary`,
    /// `console_start_end`, `console_cohesion` and `desktop_notification`,
    /// each with its sign.
    pub open spec fn tokens(self) -> Seq<Seq<char>> {
        seq![
            "--event-handlers"@,
            handler_text("summary"@, self.summary),
            handler_text("console_start_end"@, self.console_start_end),
            handler_text("console_cohesion"@, self.console_cohesion),
            handler_text("desktop_notification"@, self.desktop_notification),
        ]
    }

    /// No handler reports.
    pub fn silent() -> (handlers: EventHandlers)
        ensures
            handlers == EventHandlers::none(),
    {
        EventHandlers {
            desktop_notification: false,
            console_cohesion: false,
            summary: false,
            console_start_end: false,
        }
    }

    /// Only the compiler's output, package by package.
    pub fn compile_logs_only() -> (handlers: EventHandlers)
        ensures
            handlers == (EventHandlers { console_cohesion: true, ..EventHandlers::none() }),
    {
        let mut res = Self::silent();
        res.console_cohesion = true;
        res
    }

    /// Appends the flag and the four handler settings.
    pub fn apply(&self, args: &mut ArgStack)
        ensures
            final(args)@ == old(args)@ + self.tokens(),
    {
        args.arg("--event-handlers");
        args.arg(handler_str("summary", self.summary));
        args.arg(handler_str("console_start_end", self.console_start_end));
        args.arg(handler_str("console_cohesion", self.console_cohesion));
        args.arg(handler_str("desktop_notification", self.desktop_notification));
        assert(args@ =~= old(args)@ + self.tokens());
    }
}

/// What a build profile holds, as mathematical values.
pub struct BuildProfile {
    pub mixins: Seq<Seq<char>>,
    pub cmake_args: Seq<Seq<char>>,
    pub build_type: BuildType,
    pub parallel_jobs: Option<u32>,
    pub event_handlers: EventHandlers,
    pub build_tests: bool,
}

/// The options with which one category of packages is built.
pub struct BuildConfiguration {
    /// Names of colcon mixins, in the order in which they are handed over.
    pub mixins: Vec<String>,
    /// Further arguments for CMake, handed over as they stand.
    pub cmake_args: Vec<String>,
    pub build_type: BuildType,
    /// The number of packages built in parallel, if it is set.
    pub parallel_jobs: Option<u32>,
    pub event_handlers: EventHandlers,
    pub build_tests: bool,
}

impl View for BuildConfiguration {
    type V = BuildProfile;

    open spec fn view(&self) -> BuildProfile {
        BuildProfile {
            mixins: tokens_of(self.mixins@),
            cmake_args: tokens_of(self.cmake_args@),
            build_type: self.build_type,
            parallel_jobs: self.parallel_jobs,
            event_handlers: self.event_handlers,
            build_tests: self.build_tests,
        }
    }
}

/// The mixins of both default profiles.
pub open spec fn default_mixins() -> Seq<Seq<char>> {
    seq!["compile-commands"@, "ninja"@, "mold"@, "ccache"@]
}

/// The default profile for dependencies: tests are not built and progress
/// is reported in full.
pub open spec fn upstream_profile() -> BuildProfile {
    BuildProfile {
        mixins: default_mixins(),
        cmake_args: Seq::empty(),
        build_type: BuildType::Debug,
        parallel_jobs: Some(8u32),
        event_handlers: EventHandlers::full(),
        build_tests: false,
    }
}

/// The default profile for the package under development: tests are built
/// and only the compiler's output is shown.
pub open spec fn active_profile() -> BuildProfile {
    BuildProfile {
        mixins: default_mixins(),
        cmake_args: Seq::empty(),
        build_type: BuildType::Debug,
        parallel_jobs: Some(8u32),
        event_handlers: EventHandlers { console_cohesion: true, ..EventHandlers::none() },
        build_tests: true,
    }
}

impl BuildConfiguration {
    fn mixin_defaults() -> (mixins: Vec<String>)
        ensures
            tokens_of(mixins@) == default_mixins(),
    {
        let mut mixins: Vec<String> = Vec::new();
        mixins.push("compile-commands".to_owned());
        mixins.push("ninja".to_owned());
        mixins.push("mold".to_owned());
        mixins.push("ccache".to_owned());
        assert(tokens_of(mixins@) =~= default_mixins());
        mixins
    }

    /// The default profile for dependencies.
    pub fn upstream() -> (profile: BuildConfiguration)
        ensures
            profile@ == upstream_profile(),
    {
        let profile = BuildConfiguration {
            mixins: Self::mixin_defaults(),
            cmake_args: Vec::new(),
            build_type: BuildType::Debug,
            parallel_jobs: Some(8),
            event_handlers: EventHandlers::default(),
            build_tests: false,
        };
        assert(tokens_of(profile.cmake_args@) =~= Seq::empty());
        profile
    }

    /// The default profile for the package under development.
    pub fn active() -> (profile: BuildConfiguration)
        ensures
            profile@ == active_profile(),
    {
        let profile = BuildConfiguration {
            mixins: Self::mixin_defaults(),
            cmake_args: Vec::new(),
            build_type: BuildType::Debug,
            parallel_jobs: Some(8),
            event_handlers: EventHandlers::compile_logs_only(),
            build_tests: true,
        };
        assert(tokens_of(profile.cmake_args@) =~= Seq::empty());
        profile
    }
}

/// What a configuration holds, as mathematical values.
pub struct Profiles {
    pub upstream: BuildProfile,
    pub package: BuildProfile,
}

impl Profiles {
    /// The profiles in effect for one run: the stored ones with the build
    /// mode of the package profile replaced where one is given, and then
    /// with tests switched off in both where they are to be skipped.
    pub open spec fn overridden(self, build_type: Option<BuildType>, skip_tests: bool) -> Profiles {
        Profiles {
            upstream: BuildProfile {
                build_tests: self.upstream.build_tests && !skip_tests,
                ..self.upstream
            },
            package: BuildProfile {
                build_type: match build_type {
                    Some(mode) => mode,
                    None => self.package.build_type,
                },
                build_tests: self.package.build_tests && !skip_tests,
                ..self.package
            },
        }
    }
}

/// The two profiles of a workspace.
pub struct Config {
    /// For the dependencies of the package under development.
    pub upstream: BuildConfiguration,
    /// For the package under development.
    pub package: BuildConfiguration,
}

impl View for Config {
    type V = Profiles;

    open spec fn view(&self) -> Profiles {
        Profiles { upstream: self.upstream@, package: self.package@ }
    }
}

impl Default for Config {
    /// The configuration of a workspace that has no configuration file.
    fn default() -> (config: Config)
        ensures
            config@ == (Profiles { upstream: upstream_profile(), package: active_profile() }),
    {
        Config { upstream: BuildConfiguration::upstream(), package: BuildConfiguration::active() }
    }
}

impl Config {
    /// Applies the overrides of one run to the configuration in memory:
    /// a build mode, where one is given, replaces that of the package
    /// profile only, and skipping tests switches the building of tests off
    /// in both profiles. Everything else stays as it was.
    pub fn apply_overrides(&mut self, build_type: Option<BuildType>, skip_tests: bool)
        ensures
            final(self)@ == old(self)@.overridden(build_type, skip_tests),
            skip_tests ==> !final(self)@.upstream.build_tests && !final(self)@.package.build_tests,
            final(self)@.upstream.build_type == old(self)@.upstream.build_type,
    {
        if let Some(mode) = build_type {
            self.package.build_type = mode;
        }
        if skip_tests {
            self.upstream.build_tests = false;
            self.package.build_tests = false;
        }
    }
}

/// Skipping tests leaves no profile that builds them, whatever was stored.
pub proof fn lemma_skip_tests_disables_both(
    stored: Profiles,
    build_type: Option<BuildType>,
)
    ensures
        !stored.overridden(build_type, true).upstream.build_tests,
        !stored.overridden(build_type, true).package.build_tests,
{
}

/// A build mode given for one run becomes the mode of the package profile
/// and leaves the upstream profile's mode as it was stored.
pub proof fn lemma_build_type_override_is_package_only(
    stored: Profiles,
    mode: BuildType,
    skip_tests: bool,
)
    ensures
        stored.overridden(Some(mode), skip_tests).package.build_type == mode,
        stored.overridden(Some(mode), skip_tests).upstream.build_type
            == stored.upstream.build_type,
        stored.overridden(Some(mode), skip_tests).upstream == stored.overridden(
            None,
            skip_tests,
        ).upstream,
{
}

} // verus!

//! The verbs that run no build tool: writing the default configuration,
//! opening it in an editor, and removing a package's build and install
//! folders. The caller touches the file system and the environment; what is
//! to be touched, what is said about it and how the run ends is decided
//! here.

use crate::args::tokens_of;
use crate::resolve::{joined, path_join};
use crate::workflow::{exit_code, exit_code_of, quoted, titled, FATAL_EXIT};
use vstd::prelude::*;
use vstd::string::*;

verus! {

/// What is said where a package has neither folder.
pub const NOTHING_TO_CLEAN: &'static str = "# Nothing to clean up";

/// The build folder of a package in a workspace.
pub open spec fn build_folder(workspace: Seq<char>, package: Seq<char>) -> Seq<char> {
    joined(joined(workspace, "build"@), package)
}

/// The install folder of a package in a workspace.
pub open spec fn install_folder(workspace: Seq<char>, package: Seq<char>) -> Seq<char> {
    joined(joined(workspace, "install"@), package)
}

/// The folders that a clean-up looks at: the package's build folder and
/// its install folder, in this order.
pub fn clean_candidates(workspace: &str, package: &str) -> (folders: Vec<String>)
    ensures
        tokens_of(folders@) == seq![
            build_folder(workspace@, package@),
            install_folder(workspace@, package@),
        ],
{
    let build = path_join(workspace, "build");
    let install = path_join(workspace, "install");
    let mut folders: Vec<String> = Vec::new();
    folders.push(path_join(build.as_str(), package));
    folders.push(path_join(install.as_str(), package));
    assert(tokens_of(folders@) =~= seq![
        build_folder(workspace@, package@),
        install_folder(workspace@, package@),
    ]);
    folders
}

/// What a clean-up does.
pub struct Cleanup {
    /// The folders to remove, in this order. A removal that fails is
    /// reported and the next one is still made.
    pub removals: Vec<String>,
    /// Nothing is there to be removed, which is to be said.
    pub nothing_to_clean: bool,
}

/// The folders to remove, given which of the two are present.
pub open spec fn removals_of(
    workspace: Seq<char>,
    package: Seq<char>,
    build_present: bool,
    install_present: bool,
) -> Seq<Seq<char>> {
    (if build_present {
        seq![build_folder(workspace, package)]
    } else {
        Seq::empty()
    }) + (if install_present {
        seq![install_folder(workspace, package)]
    } else {
        Seq::empty()
    })
}

/// Decides the clean-up of a package from what the look at its two
/// folders has shown: each folder that is present is removed, the build
/// folder first, and where neither is present nothing is removed.
pub fn clean_package(
    workspace: &str,
    package: &str,
    build_present: bool,
    install_present: bool,
) -> (cleanup: Cleanup)
    ensures
        tokens_of(cleanup.removals@) == removals_of(
            workspace@,
            package@,
            build_present,
            install_present,
        ),
        cleanup.nothing_to_clean == (!build_present && !install_present),
        cleanup.nothing_to_clean == (cleanup.removals@.len() == 0),
{
    let mut removals: Vec<String> = Vec::new();
    let mut did_stuff = false;
    if build_present {
        let build = path_join(workspace, "build");
        removals.push(path_join(build.as_str(), package));
        did_stuff = true;
    }
    if install_present {
        let install = path_join(workspace, "install");
        removals.push(path_join(install.as_str(), package));
        did_stuff = true;
    }
    assert(tokens_of(removals@) =~= removals_of(
        workspace@,
        package@,
        build_present,
        install_present,
    ));
    Cleanup { removals, nothing_to_clean: !did_stuff }
}

/// What is shown before a folder is removed: the command that would do
/// the same.
pub fn removal_notice(folder: &str) -> (notice: String)
    ensures
        notice@ == "rm -r "@ + quoted(folder@),
{
    titled("rm -r ", folder)
}

/// The title of a clean-up.
pub fn clean_title(package: &str) -> (title: String)
    ensures
        title@ == "Cleaning up "@ + quoted(package@),
{
    titled("Cleaning up ", package)
}

/// What writing the default configuration comes to.
#[derive(Clone, Copy, Debug, PartialEq, Eq, Structural)]
pub enum InitAction {
    /// A configuration file is there and is not to be overwritten: leave
    /// it as it is and fail.
    Refuse,
    /// Write the default configuration.
    Write,
}

/// Decides whether the default configuration is written: always, unless a
/// configuration file exists and overwriting was not asked for.
pub fn init_action(exists: bool, force: bool) -> (action: InitAction)
    ensures
        action == (if exists && !force {
            InitAction::Refuse
        } else {
            InitAction::Write
        }),
{
    if exists && !force {
        InitAction::Refuse
    } else {
        InitAction::Write
    }
}

/// The exit code of writing the default configuration: 0 where the file
/// was written, and the fatal code where it was refused or failed.
pub fn init_exit(written: bool) -> (code: i32)
    ensures
        code == (if written {
            0
        } else {
            FATAL_EXIT
        }),
{
    if written {
        0
    } else {
        FATAL_EXIT
    }
}

/// What is said where an existing configuration file is left as it is.
pub fn refusal_notice(path: &str) -> (notice: String)
    ensures
        notice@ == "Will not overwrite "@ + quoted(path@) + " without --force"@,
{
    let mut notice = titled("Will not overwrite ", path);
    notice.append(" without --force");
    notice
}

/// What is said where the default configuration was written.
pub fn success_notice(path: &str) -> (notice: String)
    ensures
        notice@ == "Initialized default configuration at "@ + quoted(path@),
{
    titled("Initialized default configuration at ", path)
}

/// How the attempt to open the configuration file in an editor went.
#[derive(Clone, Copy, Debug, PartialEq, Eq, Structural)]
pub enum EditorRun {
    /// The environment names no editor.
    Unset,
    /// The editor that the environment names could not be launched.
    NotLaunched,
    /// The editor ran and ended, with this exit code if it had one.
    Ended(Option<i32>),
}

/// The exit code after the attempt to open the configuration file: the
/// editor's own where it ran and had one, and the fatal code otherwise.
pub fn editor_exit(run: EditorRun) -> (code: i32)
    ensures
        code == match run {
            EditorRun::Ended(status) => exit_code_of(status),
            _ => FATAL_EXIT,
        },
{
    match run {
        EditorRun::Ended(status) => exit_code(status),
        _ => FATAL_EXIT,
    }
}

} // verus!

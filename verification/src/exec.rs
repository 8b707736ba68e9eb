//! Finished command lines, ready to be launched: the tool, its arguments and
//! the directory to launch it in, and the line that shows the command to
//! the user.

use crate::args::{tokens_of, ArgStack};
use crate::builder::{anchored, anchored_filter};
use crate::text::concat;
use vstd::prelude::*;
use vstd::string::*;

verus! {

/// The programs that a command line can be for.
#[derive(Clone, Copy, Debug, PartialEq, Eq, Structural)]
pub enum Tool {
    /// The orchestrator of the workspace.
    Colcon,
    /// The runner of a package's generated build files.
    Ninja,
    /// The runner of a package's compiled tests.
    Ctest,
}

impl Tool {
    /// The name by which the program is looked up.
    pub open spec fn name(self) -> Seq<char> {
        match self {
            Tool::Colcon => "colcon"@,
            Tool::Ninja => "ninja"@,
            Tool::Ctest => "ctest"@,
        }
    }

    /// The name by which the program is looked up.
    pub fn program(&self) -> (name: &'static str)
        ensures
            name@ == self.name(),
    {
        match self {
            Tool::Colcon => "colcon",
            Tool::Ninja => "ninja",
            Tool::Ctest => "ctest",
        }
    }
}

/// What is said where a tool cannot be launched at all: its name between
/// quotes, and that it was not found.
pub fn missing_tool_notice(tool: Tool) -> (notice: String)
    ensures
        notice@ == "'"@ + tool.name() + "' not found"@,
{
    let mut notice = concat("'", tool.program());
    notice.append("' not found");
    notice
}

/// The folder that holds the build of `package` in `workspace`.
pub open spec fn build_dir_text(workspace: Seq<char>, package: Seq<char>) -> Seq<char> {
    workspace + "/build/"@ + package
}

/// The arguments with which ninja builds one target of a package.
pub open spec fn ninja_tokens(workspace: Seq<char>, package: Seq<char>, target: Seq<char>) -> Seq<
    Seq<char>,
> {
    seq!["-C"@, build_dir_text(workspace, package), target]
}

/// The arguments with which ctest runs the one test of a package that is
/// named `target`, showing the output if it fails.
pub open spec fn ctest_tokens(workspace: Seq<char>, package: Seq<char>, target: Seq<char>) -> Seq<
    Seq<char>,
> {
    seq![
        "--test-dir"@,
        build_dir_text(workspace, package),
        "--output-on-failure"@,
        "-R"@,
        anchored(target),
    ]
}

/// Every argument with a space before it, one after the other.
pub open spec fn spaced(args: Seq<Seq<char>>) -> Seq<char>
    decreases args.len(),
{
    if args.len() == 0 {
        Seq::empty()
    } else {
        spaced(args.drop_last()) + seq![' '] + args.last()
    }
}

/// The command as a user would type it: the program's name and then each
/// argument after a space.
pub open spec fn command_text(program: Seq<char>, args: Seq<Seq<char>>) -> Seq<char> {
    program + spaced(args)
}

/// A finished command line: the tool, its arguments in order, and the
/// directory to launch it in where that is not the caller's own. Nothing
/// can be added to it.
pub struct Runnable {
    tool: Tool,
    args: ArgStack,
    current_dir: Option<String>,
}

impl Runnable {
    /// The tool to launch.
    pub closed spec fn tool(&self) -> Tool {
        self.tool
    }

    /// The arguments, in command-line order.
    pub closed spec fn arguments(&self) -> Seq<Seq<char>> {
        self.args@
    }

    /// The directory to launch the tool in, if it is not the caller's own.
    pub closed spec fn directory(&self) -> Option<Seq<char>> {
        match self.current_dir {
            Some(dir) => Some(dir@),
            None => None,
        }
    }

    pub(crate) fn assemble(tool: Tool, args: ArgStack, current_dir: Option<String>) -> (cmd:
        Runnable)
        ensures
            cmd.tool() == tool,
            cmd.arguments() == args@,
            cmd.directory() == match current_dir {
                Some(dir) => Some(dir@),
                None => None,
            },
    {
        Runnable { tool, args, current_dir }
    }

    /// The name of the program to launch.
    pub fn program(&self) -> (name: &'static str)
        ensures
            name@ == self.tool().name(),
    {
        self.tool.program()
    }

    /// The tool to launch.
    pub fn which(&self) -> (tool: Tool)
        ensures
            tool == self.tool(),
    {
        self.tool
    }

    /// The arguments, in command-line order.
    pub fn args(&self) -> (args: &Vec<String>)
        ensures
            tokens_of(args@) == self.arguments(),
    {
        self.args.tokens()
    }

    /// The directory to launch the tool in, if it is not the caller's own.
    pub fn current_dir(&self) -> (dir: &Option<String>)
        ensures
            self.directory() == match *dir {
                Some(d) => Some(d@),
                None => None,
            },
    {
        &self.current_dir
    }

    /// The command as a user would type it, to be shown before the launch.
    pub fn trace(&self) -> (line: String)
        ensures
            line@ == command_text(self.tool().name(), self.arguments()),
    {
        let args = self.args.tokens();
        let mut line = self.tool.program().to_owned();
        let n = args.len();
        let mut i: usize = 0;
        assert(spaced(tokens_of(args@).take(0)) =~= Seq::<char>::empty());
        assert(line@ =~= self.tool.name() + spaced(tokens_of(args@).take(0)));
        while i < n
            invariant
                n == args@.len(),
                i <= n,
                line@ == self.tool.name() + spaced(tokens_of(args@).take(i as int)),
            decreases n - i,
        {
            proof {
                reveal_strlit(" ");
                let next = tokens_of(args@).take(i + 1);
                assert(next.drop_last() =~= tokens_of(args@).take(i as int));
                assert(next.last() == args@[i as int]@);
            }
            line.append(" ");
            line.append(args[i].as_str());
            assert(line@ =~= self.tool.name() + spaced(tokens_of(args@).take(i + 1)));
            i = i + 1;
        }
        assert(tokens_of(args@).take(n as int) =~= tokens_of(args@));
        line
    }
}

/// Writes the folder that holds the build of `package` in `workspace`.
pub fn build_dir(workspace: &str, package: &str) -> (dir: String)
    ensures
        dir@ == build_dir_text(workspace@, package@),
{
    let mut dir = concat(workspace, "/build/");
    dir.append(package);
    dir
}

/// The command that builds one target of a package with ninja, in the
/// package's build folder and without going through colcon.
pub fn ninja_build_target(workspace: &str, package: &str, target: &str) -> (cmd: Runnable)
    ensures
        cmd.tool() == Tool::Ninja,
        cmd.arguments() == ninja_tokens(workspace@, package@, target@),
        cmd.directory().is_none(),
{
    let mut args = ArgStack::default();
    args.arg("-C");
    args.arg(build_dir(workspace, package));
    args.arg(target);
    assert(args@ =~= ninja_tokens(workspace@, package@, target@));
    Runnable::assemble(Tool::Ninja, args, None)
}

/// The command that runs the one test named `target` of a package with
/// ctest, in the package's build folder and without going through colcon.
pub fn run_single_ctest(workspace: &str, package: &str, target: &str) -> (cmd: Runnable)
    ensures
        cmd.tool() == Tool::Ctest,
        cmd.arguments() == ctest_tokens(workspace@, package@, target@),
        cmd.directory().is_none(),
{
    let mut args = ArgStack::default();
    args.arg("--test-dir");
    args.arg(build_dir(workspace, package));
    args.arg("--output-on-failure");
    args.arg("-R");
    args.arg(anchored_filter(target));
    assert(args@ =~= ctest_tokens(workspace@, package@, target@));
    Runnable::assemble(Tool::Ctest, args, None)
}

} // verus!

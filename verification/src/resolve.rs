//! Finding the workspace and the package: a search that starts in a
//! directory and moves up, parent by parent, until a directory holds one of
//! the markers looked for. The caller looks into the file system; which
//! paths to look at, and what follows from what was seen, is decided here.

use crate::args::tokens_of;
use crate::text::text_of;
use std::path::Path;
use vstd::prelude::*;

verus! {

/// The name of the configuration file, which lies in the workspace's root.
pub const COLB_CONFIG_FILENAME: &'static str = ".colb.toml";

/// What `Path::parent` gives for a path.
pub uninterp spec fn parent_of(path: Seq<char>) -> Option<Seq<char>>;

/// What `Path::file_name` gives for a path.
pub uninterp spec fn file_name_of(path: Seq<char>) -> Option<Seq<char>>;

/// What `Path::join` gives for a path and what is joined to it.
pub uninterp spec fn joined(base: Seq<char>, child: Seq<char>) -> Seq<char>;

/// Calls `std::path::Path::parent`: the path without its last component,
/// or nothing where the path ends in a root or is empty. The contract
/// claims only that the result is a function of the path's characters.
#[verifier::external_body]
fn path_parent(path: &str) -> (parent: Option<String>)
    ensures
        text_of(parent) == parent_of(path@),
{
    match Path::new(path).parent() {
        Some(p) => Some(p.to_string_lossy().into_owned()),
        None => None,
    }
}

/// Calls `std::path::Path::file_name`: the last component of the path, or
/// nothing where the path ends in `..` or has no component. The contract
/// claims only that the result is a function of the path's characters.
#[verifier::external_body]
fn path_file_name(path: &str) -> (name: Option<String>)
    ensures
        text_of(name) == file_name_of(path@),
{
    match Path::new(path).file_name() {
        Some(n) => Some(n.to_string_lossy().into_owned()),
        None => None,
    }
}

/// Calls `std::path::Path::join`: `child` put behind `base`, or `child`
/// alone where it is absolute. The contract claims only that the result is
/// a function of the two paths' characters.
#[verifier::external_body]
pub(crate) fn path_join(base: &str, child: &str) -> (path: String)
    ensures
        path@ == joined(base@, child@),
{
    Path::new(base).join(child).to_string_lossy().into_owned()
}

/// The markers of a package's directory.
pub open spec fn package_marker_names() -> Seq<Seq<char>> {
    seq!["package.xml"@]
}

/// The markers of a workspace's root: the build folder or the
/// configuration file.
pub open spec fn workspace_marker_names() -> Seq<Seq<char>> {
    seq!["build"@, COLB_CONFIG_FILENAME@]
}

/// The paths at which the markers would lie in `dir`, marker by marker.
pub open spec fn candidate_paths(dir: Seq<char>, markers: Seq<Seq<char>>) -> Seq<Seq<char>> {
    markers.map_values(|m: Seq<char>| joined(dir, m))
}

/// Where a search stands after a look into one directory.
pub enum Outcome {
    /// The directory holds a marker: the search ends there.
    Found(Seq<char>),
    /// The directory holds none: the search goes on in its parent.
    Continue(Seq<char>),
    /// The directory holds none and has no parent: nothing was found.
    NotFound,
}

/// What follows from a look into `dir`.
pub open spec fn outcome_of(dir: Seq<char>, marker_found: bool) -> Outcome {
    if marker_found {
        Outcome::Found(dir)
    } else {
        match parent_of(dir) {
            Some(parent) => Outcome::Continue(parent),
            None => Outcome::NotFound,
        }
    }
}

/// A search that has come to one directory and has not looked into it yet.
pub struct UpwardSearch {
    markers: Vec<String>,
    current: String,
}

/// What the caller of a search does next.
pub enum SearchStep {
    /// The search has ended at this directory.
    Found(String),
    /// Look into the directory of this search and report.
    Continue(UpwardSearch),
    /// The search has ended and has found nothing.
    NotFound,
}

impl UpwardSearch {
    /// The directory that the search has come to.
    pub closed spec fn directory(&self) -> Seq<char> {
        self.current@
    }

    /// The markers looked for.
    pub closed spec fn markers(&self) -> Seq<Seq<char>> {
        tokens_of(self.markers@)
    }

    /// The directory that the search has come to.
    pub fn current(&self) -> (dir: &String)
        ensures
            dir@ == self.directory(),
    {
        &self.current
    }

    /// The paths to look at in the current directory, one for each marker.
    pub fn candidates(&self) -> (paths: Vec<String>)
        ensures
            tokens_of(paths@) == candidate_paths(self.directory(), self.markers()),
    {
        let mut paths: Vec<String> = Vec::new();
        let n = self.markers.len();
        let mut i: usize = 0;
        while i < n
            invariant
                n == self.markers@.len(),
                i <= n,
                tokens_of(paths@) == candidate_paths(
                    self.current@,
                    tokens_of(self.markers@).take(i as int),
                ),
            decreases n - i,
        {
            let ghost before = paths@;
            let path = path_join(self.current.as_str(), self.markers[i].as_str());
            paths.push(path);
            assert(tokens_of(paths@) =~= tokens_of(before).push(
                joined(self.current@, self.markers@[i as int]@),
            ));
            assert(candidate_paths(self.current@, tokens_of(self.markers@).take(i + 1))
                =~= candidate_paths(self.current@, tokens_of(self.markers@).take(i as int)).push(
                joined(self.current@, self.markers@[i as int]@),
            ));
            i = i + 1;
        }
        assert(tokens_of(self.markers@).take(n as int) =~= tokens_of(self.markers@));
        paths
    }

    /// Takes note of what the look into the current directory has shown,
    /// and says what follows: with a marker the search ends at this
    /// directory; without one it moves to the parent, or ends with nothing
    /// found where there is no parent.
    pub fn advance(self, marker_found: bool) -> (step: SearchStep)
        ensures
            step.outcome() == outcome_of(self.directory(), marker_found),
            step matches SearchStep::Continue(next) ==> next.markers() == self.markers(),
    {
        if marker_found {
            SearchStep::Found(self.current)
        } else {
            match path_parent(self.current.as_str()) {
                Some(parent) => SearchStep::Continue(
                    UpwardSearch { markers: self.markers, current: parent },
                ),
                None => SearchStep::NotFound,
            }
        }
    }
}

impl SearchStep {
    /// The step as mathematical values.
    pub open spec fn outcome(&self) -> Outcome {
        match self {
            SearchStep::Found(dir) => Outcome::Found(dir@),
            SearchStep::Continue(search) => Outcome::Continue(search.directory()),
            SearchStep::NotFound => Outcome::NotFound,
        }
    }
}

/// Whether a look at the candidate paths of a directory has shown a
/// marker: one of them is known to exist. A path that could not be looked
/// at counts as absent.
pub fn contains_marker(probes: &Vec<Option<bool>>) -> (found: bool)
    ensures
        found <==> probes@.contains(Some(true)),
{
    let n = probes.len();
    let mut i: usize = 0;
    while i < n
        invariant
            n == probes@.len(),
            i <= n,
            forall|j: int| 0 <= j < i ==> probes@[j] != Some(true),
        decreases n - i,
    {
        if let Some(x) = probes[i] {
            if x {
                assert(probes@[i as int] == Some(true));
                return true;
            }
        }
        i = i + 1;
    }
    false
}

/// Starts a search for the markers at `start`, the caller's own directory
/// in its canonical form. Without such a directory nothing can be found.
pub fn find_upwards(start: Option<String>, markers: Vec<String>) -> (step: SearchStep)
    ensures
        match start {
            Some(dir) => step matches SearchStep::Continue(search) && search.directory() == dir@
                && search.markers() == tokens_of(markers@),
            None => step is NotFound,
        },
{
    match start {
        Some(dir) => SearchStep::Continue(UpwardSearch { markers, current: dir }),
        None => SearchStep::NotFound,
    }
}

/// Starts the search for the directory of the package that `start` lies
/// in.
pub fn locate_package(start: Option<String>) -> (step: SearchStep)
    ensures
        match start {
            Some(dir) => step matches SearchStep::Continue(search) && search.directory() == dir@
                && search.markers() == package_marker_names(),
            None => step is NotFound,
        },
{
    let mut markers: Vec<String> = Vec::new();
    markers.push("package.xml".to_owned());
    assert(tokens_of(markers@) =~= package_marker_names());
    find_upwards(start, markers)
}

/// Starts the search for the root of the workspace that `start` lies in.
pub fn detect_workspace(start: Option<String>) -> (step: SearchStep)
    ensures
        match start {
            Some(dir) => step matches SearchStep::Continue(search) && search.directory() == dir@
                && search.markers() == workspace_marker_names(),
            None => step is NotFound,
        },
{
    let mut markers: Vec<String> = Vec::new();
    markers.push("build".to_owned());
    markers.push(COLB_CONFIG_FILENAME.to_owned());
    assert(tokens_of(markers@) =~= workspace_marker_names());
    find_upwards(start, markers)
}

/// The package that a command applies to: the one that was named, or else
/// the name of the package directory that the search has found, if it has
/// found one and that directory has a name.
pub open spec fn package_choice(package: Option<Seq<char>>, located: Option<Seq<char>>) -> Option<
    Seq<char>,
> {
    match package {
        Some(name) => Some(name),
        None => match located {
            Some(dir) => file_name_of(dir),
            None => None,
        },
    }
}

/// The package that a command applies to. `located` is what the search
/// for the package's directory has ended with; it is not looked at where a
/// package is named.
pub fn package_or(package: Option<String>, located: Option<String>) -> (chosen: Option<String>)
    ensures
        text_of(chosen) == package_choice(text_of(package), text_of(located)),
{
    if package.is_some() {
        return package;
    }
    match located {
        Some(dir) => path_file_name(dir.as_str()),
        None => None,
    }
}

/// The packages that a build applies to: those that were named, or else,
/// where none was named, the one package that the search has found.
pub open spec fn packages_choice(named: Seq<Seq<char>>, located: Option<Seq<char>>) -> Option<
    Seq<Seq<char>>,
> {
    if named.len() > 0 {
        Some(named)
    } else {
        match package_choice(None, located) {
            Some(name) => Some(seq![name]),
            None => None,
        }
    }
}

/// The packages that a build applies to. `located` is what the search for
/// the package's directory has ended with; it is not looked at where a
/// package is named. Nothing comes back where no package is named and none
/// was found.
pub fn packages_or(named: Vec<String>, located: Option<String>) -> (chosen: Option<Vec<String>>)
    ensures
        match chosen {
            Some(list) => Some(tokens_of(list@)),
            None => None,
        } == packages_choice(tokens_of(named@), text_of(located)),
{
    if named.len() > 0 {
        return Some(named);
    }
    match package_or(None, located) {
        Some(name) => {
            let mut list: Vec<String> = Vec::new();
            list.push(name);
            assert(tokens_of(list@) =~= seq![name@]);
            Some(list)
        },
        None => None,
    }
}

/// The workspace that a command runs in: the one that was named, else the
/// one detected, else the caller's own directory.
pub open spec fn workspace_choice(named: Option<Seq<char>>, detected: Option<Seq<char>>) -> Seq<
    char,
> {
    match named {
        Some(ws) => ws,
        None => match detected {
            Some(ws) => ws,
            None => seq!['.'],
        },
    }
}

/// The workspace that a command runs in. `detected` is what the search for
/// the workspace's root has ended with; it is not looked at where a
/// workspace is named.
pub fn workspace_or(named: Option<String>, detected: Option<String>) -> (ws: String)
    ensures
        ws@ == workspace_choice(text_of(named), text_of(detected)),
{
    proof {
        reveal_strlit(".");
    }
    match named {
        Some(ws) => ws,
        None => match detected {
            Some(ws) => ws,
            None => {
                let ws = ".".to_owned();
                assert(ws@ =~= seq!['.']);
                ws
            },
        },
    }
}

/// The path of the configuration file of a workspace.
pub fn config_file_path(workspace: &str) -> (path: String)
    ensures
        path@ == joined(workspace@, COLB_CONFIG_FILENAME@),
{
    path_join(workspace, COLB_CONFIG_FILENAME)
}

/// The directory `n` levels above `dir`, if there is one.
pub open spec fn nth_ancestor(dir: Seq<char>, n: nat) -> Option<Seq<char>>
    decreases n,
{
    if n == 0 {
        Some(dir)
    } else {
        match parent_of(dir) {
            Some(parent) => nth_ancestor(parent, (n - 1) as nat),
            None => None,
        }
    }
}

/// How a search from `dir` ends when `marked` says which directories hold
/// a marker and at most `levels` moves to a parent are made: the directory
/// found, or none; or nothing yet where the moves do not suffice.
pub open spec fn search_result(
    dir: Seq<char>,
    marked: spec_fn(Seq<char>) -> bool,
    levels: nat,
) -> Option<Option<Seq<char>>>
    decreases levels,
{
    match outcome_of(dir, marked(dir)) {
        Outcome::Found(found) => Some(Some(found)),
        Outcome::NotFound => Some(None),
        Outcome::Continue(parent) => if levels == 0 {
            None
        } else {
            search_result(parent, marked, (levels - 1) as nat)
        },
    }
}

/// A search ends at the nearest directory that holds a marker: where the
/// directory `n` levels above the start holds one and none of those below
/// it does, the search finds that directory.
pub proof fn lemma_search_finds_nearest_marked(
    start: Seq<char>,
    marked: spec_fn(Seq<char>) -> bool,
    n: nat,
)
    requires
        nth_ancestor(start, n) matches Some(dir) && marked(dir),
        forall|k: nat| k < n ==> (#[trigger] nth_ancestor(start, k) matches Some(dir) && !marked(dir)),
    ensures
        search_result(start, marked, n) == Some(nth_ancestor(start, n)),
    decreases n,
{
    if n > 0 {
        assert(nth_ancestor(start, 0) == Some(start));
        let parent = parent_of(start).unwrap();
        assert forall|k: nat| k < n - 1 implies (#[trigger] nth_ancestor(parent, k) matches Some(
            dir,
        ) && !marked(dir)) by {
            assert(nth_ancestor(start, k + 1) == nth_ancestor(parent, k));
        }
        lemma_search_finds_nearest_marked(parent, marked, (n - 1) as nat);
    }
}

/// A search that meets no marker up to the root finds nothing: where no
/// directory from the start to the one `n` levels above it holds a marker
/// and that one has no parent, the search ends with nothing found.
pub proof fn lemma_search_without_marker_finds_nothing(
    start: Seq<char>,
    marked: spec_fn(Seq<char>) -> bool,
    n: nat,
)
    requires
        forall|k: nat|
            k <= n ==> (#[trigger] nth_ancestor(start, k) matches Some(dir) && !marked(dir)),
        nth_ancestor(start, n + 1).is_none(),
    ensures
        search_result(start, marked, n) == Some(None::<Seq<char>>),
    decreases n,
{
    assert(nth_ancestor(start, 0) == Some(start));
    if n > 0 {
        assert(nth_ancestor(start, 1) is Some);
        let parent = parent_of(start).unwrap();
        assert forall|k: nat| k <= n - 1 implies (#[trigger] nth_ancestor(parent, k) matches Some(
            dir,
        ) && !marked(dir)) by {
            assert(nth_ancestor(start, k + 1) == nth_ancestor(parent, k));
        }
        lemma_search_without_marker_finds_nothing(parent, marked, (n - 1) as nat);
    } else {
        assert(nth_ancestor(start, 1) == match parent_of(start) {
            Some(parent) => nth_ancestor(parent, 0),
            None => None,
        });
    }
}

/// The package of a directory is named after the nearest directory above it
/// that holds the package marker: where no package is named and the
/// directory `n` levels above the start is the first to hold a marker, the
/// package chosen is that directory's name. Where the search has found
/// nothing, no package is chosen.
pub proof fn lemma_package_is_named_after_nearest_marked(
    start: Seq<char>,
    marked: spec_fn(Seq<char>) -> bool,
    n: nat,
)
    requires
        nth_ancestor(start, n) matches Some(dir) && marked(dir),
        forall|k: nat| k < n ==> (#[trigger] nth_ancestor(start, k) matches Some(dir) && !marked(dir)),
    ensures
        search_result(start, marked, n) matches Some(located) && package_choice(None, located)
            == file_name_of(nth_ancestor(start, n).unwrap()),
        package_choice(None, None) == None::<Seq<char>>,
{
    lemma_search_finds_nearest_marked(start, marked, n);
}

} // verus!

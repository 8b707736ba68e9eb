use colb::resolve::{
    config_file_path, contains_marker, detect_workspace, find_upwards, locate_package,
    package_or, packages_or, workspace_or, SearchStep, COLB_CONFIG_FILENAME,
};

fn strings(items: &[&str]) -> Vec<String> {
    items.iter().map(|s| s.to_string()).collect()
}

/// Runs a search against a list of paths that exist; returns the directory
/// found and the directories looked into.
fn run(mut step: SearchStep, existing: &[&str]) -> (Option<String>, Vec<String>) {
    let mut visited = Vec::new();
    loop {
        match step {
            SearchStep::Found(dir) => return (Some(dir), visited),
            SearchStep::NotFound => return (None, visited),
            SearchStep::Continue(search) => {
                visited.push(search.current().clone());
                let probes: Vec<Option<bool>> = search
                    .candidates()
                    .iter()
                    .map(|c| Some(existing.contains(&c.as_str())))
                    .collect();
                step = search.advance(contains_marker(&probes));
            }
        }
    }
}

#[test]
fn contains_marker_needs_one_present_path() {
    assert!(!contains_marker(&vec![]));
    assert!(!contains_marker(&vec![None, Some(false)]));
    assert!(contains_marker(&vec![None, Some(false), Some(true)]));
    assert!(contains_marker(&vec![Some(true), None]));
}

#[test]
fn candidates_join_each_marker_to_directory() {
    match detect_workspace(Some("/a/b".to_string())) {
        SearchStep::Continue(search) => {
            assert_eq!(search.current(), "/a/b");
            assert_eq!(search.candidates(), strings(&["/a/b/build", "/a/b/.colb.toml"]));
        }
        _ => panic!("a search with a start directory must look into it"),
    }
    match locate_package(Some("/a/b".to_string())) {
        SearchStep::Continue(search) => {
            assert_eq!(search.candidates(), strings(&["/a/b/package.xml"]));
        }
        _ => panic!("a search with a start directory must look into it"),
    }
}

#[test]
fn package_found_three_levels_up() {
    let (found, visited) = run(
        locate_package(Some("/ws/src/pkg/a/b/c".to_string())),
        &["/ws/src/pkg/package.xml", "/ws/build"],
    );
    assert_eq!(found, Some("/ws/src/pkg".to_string()));
    assert_eq!(
        visited,
        strings(&["/ws/src/pkg/a/b/c", "/ws/src/pkg/a/b", "/ws/src/pkg/a", "/ws/src/pkg"])
    );
    assert_eq!(package_or(None, found), Some("pkg".to_string()));
}

#[test]
fn nearest_marked_directory_wins() {
    let (found, _) = run(
        locate_package(Some("/ws/src/outer/inner/x".to_string())),
        &["/ws/src/outer/package.xml", "/ws/src/outer/inner/package.xml"],
    );
    assert_eq!(found, Some("/ws/src/outer/inner".to_string()));
}

#[test]
fn start_directory_itself_can_hold_the_marker() {
    let (found, visited) =
        run(locate_package(Some("/ws/src/pkg".to_string())), &["/ws/src/pkg/package.xml"]);
    assert_eq!(found, Some("/ws/src/pkg".to_string()));
    assert_eq!(visited, strings(&["/ws/src/pkg"]));
}

#[test]
fn no_marker_up_to_root_finds_nothing() {
    let (found, visited) = run(locate_package(Some("/a/b/c".to_string())), &["/a/b/other.xml"]);
    assert_eq!(found, None);
    assert_eq!(visited, strings(&["/a/b/c", "/a/b", "/a", "/"]));
    assert_eq!(package_or(None, found), None);
}

#[test]
fn search_without_start_finds_nothing() {
    assert!(matches!(locate_package(None), SearchStep::NotFound));
    assert!(matches!(detect_workspace(None), SearchStep::NotFound));
    assert!(matches!(find_upwards(None, strings(&["x"])), SearchStep::NotFound));
}

#[test]
fn workspace_found_by_either_marker() {
    let (found, _) = run(detect_workspace(Some("/ws/src/pkg".to_string())), &["/ws/build"]);
    assert_eq!(found, Some("/ws".to_string()));
    let (found, _) = run(detect_workspace(Some("/ws/src/pkg".to_string())), &["/ws/.colb.toml"]);
    assert_eq!(found, Some("/ws".to_string()));
    let (found, _) = run(detect_workspace(Some("/ws/src/pkg".to_string())), &["/ws/install"]);
    assert_eq!(found, None);
}

#[test]
fn find_upwards_with_custom_markers() {
    let (found, visited) = run(
        find_upwards(Some("/x/y".to_string()), strings(&["m1", "m2"])),
        &["/x/m2"],
    );
    assert_eq!(found, Some("/x".to_string()));
    assert_eq!(visited, strings(&["/x/y", "/x"]));
}

#[test]
fn package_or_prefers_named_package() {
    assert_eq!(
        package_or(Some("named".to_string()), Some("/ws/src/pkg".to_string())),
        Some("named".to_string())
    );
    assert_eq!(package_or(Some("named".to_string()), None), Some("named".to_string()));
    assert_eq!(package_or(None, Some("/ws/src/pkg".to_string())), Some("pkg".to_string()));
    assert_eq!(package_or(None, Some("/".to_string())), None);
    assert_eq!(package_or(None, None), None);
}

#[test]
fn workspace_or_falls_back_to_current_directory() {
    assert_eq!(workspace_or(Some("/named".to_string()), Some("/found".to_string())), "/named");
    assert_eq!(workspace_or(None, Some("/found".to_string())), "/found");
    assert_eq!(workspace_or(None, None), ".");
}

#[test]
fn config_file_lies_in_workspace_root() {
    assert_eq!(COLB_CONFIG_FILENAME, ".colb.toml");
    assert_eq!(config_file_path("/ws"), "/ws/.colb.toml");
    assert_eq!(config_file_path("."), "./.colb.toml");
}

#[test]
fn packages_default_to_the_located_package() {
    assert_eq!(
        packages_or(strings(&["a", "b"]), Some("/ws/src/pkg".to_string())),
        Some(strings(&["a", "b"]))
    );
    assert_eq!(packages_or(strings(&["a"]), None), Some(strings(&["a"])));
    assert_eq!(packages_or(vec![], Some("/ws/src/pkg".to_string())), Some(strings(&["pkg"])));
    assert_eq!(packages_or(vec![], None), None);
    assert_eq!(packages_or(vec![], Some("/".to_string())), None);
}

use phoenixd_supervisor::host::{FileSet, Request};
use phoenixd_supervisor::layout::{
    candidate_dirs, candidate_layouts, find_resource_dir, first_complete_layout, resource_probe,
    ResourceLayout,
};
use phoenixd_supervisor::platform::Platform;
use std::path::Path;

fn at(base: &str, parts: &[&str]) -> String {
    let mut path = Path::new(base).to_path_buf();
    for part in parts {
        path = path.join(part);
    }
    path.to_str().unwrap().to_string()
}

fn files(paths: &[String]) -> FileSet {
    FileSet::from_paths(paths.to_vec())
}

fn required(root: &str) -> Vec<String> {
    vec![
        at(root, &["binaries", "phoenixd"]),
        at(root, &["backend", "dist", "index.js"]),
        at(root, &["frontend", "server.js"]),
    ]
}

#[test]
fn layout_paths_on_linux() {
    let layout = ResourceLayout::at("/opt/app", Platform::Linux);
    assert_eq!(layout.root, "/opt/app");
    assert_eq!(layout.phoenixd_binary, "/opt/app/binaries/phoenixd");
    assert_eq!(layout.backend_dir, "/opt/app/backend");
    assert_eq!(layout.backend_entry, "/opt/app/backend/dist/index.js");
    assert_eq!(layout.frontend_dir, "/opt/app/frontend");
    assert_eq!(layout.frontend_entry, "/opt/app/frontend/server.js");
    assert_eq!(layout.node_binary, "/opt/app/node/bin/node");
    assert_eq!(layout.template_db, "/opt/app/template.db");
    assert_eq!(layout.compose_file, "/opt/app/docker-compose.yml");
}

#[test]
fn layout_paths_on_macos_are_those_of_linux() {
    assert_eq!(
        ResourceLayout::at("/opt/app", Platform::MacOsArm64),
        ResourceLayout::at("/opt/app", Platform::Linux)
    );
    assert_eq!(
        ResourceLayout::at("/opt/app", Platform::MacOsAmd64),
        ResourceLayout::at("/opt/app", Platform::Linux)
    );
}

#[test]
fn layout_paths_on_windows_carry_the_suffix() {
    let layout = ResourceLayout::at("app", Platform::Windows);
    assert_eq!(layout.phoenixd_binary, at("app", &["binaries", "phoenixd.exe"]));
    assert_eq!(layout.node_binary, at("app", &["node", "node.exe"]));
    assert_eq!(layout.backend_entry, at("app", &["backend", "dist", "index.js"]));
    assert_eq!(layout.frontend_entry, at("app", &["frontend", "server.js"]));
}

#[test]
fn daemon_binary_names() {
    assert_eq!(Platform::Linux.daemon_binary(), "phoenixd");
    assert_eq!(Platform::MacOsArm64.daemon_binary(), "phoenixd");
    assert_eq!(Platform::MacOsAmd64.daemon_binary(), "phoenixd");
    assert_eq!(Platform::Windows.daemon_binary(), "phoenixd.exe");
    assert!(Platform::Windows.is_windows());
    assert!(!Platform::Linux.is_windows());
}

#[test]
fn three_candidates_for_a_deep_base() {
    assert_eq!(
        candidate_dirs("/work/desktop/src-tauri/target/debug"),
        vec![
            "/work/desktop/src-tauri/target/debug".to_string(),
            "/work/desktop/src-tauri/target/debug/_up_/resources".to_string(),
            "/work/desktop/resources".to_string(),
        ]
    );
}

#[test]
fn two_candidates_for_a_shallow_base() {
    assert_eq!(candidate_dirs("/a/b"), vec!["/a/b".to_string(), "/a/b/_up_/resources".to_string()]);
    assert_eq!(candidate_dirs("/"), vec!["/".to_string(), "/_up_/resources".to_string()]);
}

#[test]
fn base_three_levels_deep_reaches_the_root() {
    assert_eq!(
        candidate_dirs("/a/b/c"),
        vec!["/a/b/c".to_string(), "/a/b/c/_up_/resources".to_string(), "/resources".to_string()]
    );
}

#[test]
fn complete_layout_needs_all_three_files() {
    let layout = ResourceLayout::at("/opt/app", Platform::Linux);
    let all = required("/opt/app");
    assert!(layout.is_complete(&files(&all)));
    for missing in 0..3 {
        let mut some = all.clone();
        some.remove(missing);
        assert!(!layout.is_complete(&files(&some)), "without {}", all[missing]);
    }
    assert!(!layout.is_complete(&FileSet::new()));
}

#[test]
fn runtime_template_and_compose_file_may_be_absent() {
    let layout = ResourceLayout::at("/opt/app", Platform::Linux);
    let present = files(&required("/opt/app"));
    assert!(!present.contains(&layout.node_binary));
    assert!(!present.contains(&layout.template_db));
    assert!(!present.contains(&layout.compose_file));
    assert!(layout.is_complete(&present));
}

#[test]
fn windows_layout_wants_the_suffixed_binary() {
    let layout = ResourceLayout::at("/opt/app", Platform::Windows);
    assert!(!layout.is_complete(&files(&required("/opt/app"))));
    let mut with_exe = required("/opt/app");
    with_exe[0] = at("/opt/app", &["binaries", "phoenixd.exe"]);
    assert!(layout.is_complete(&files(&with_exe)));
    assert!(!ResourceLayout::at("/opt/app", Platform::Linux).is_complete(&files(&with_exe)));
}

#[test]
fn base_wins_when_complete() {
    let base = "/work/desktop/src-tauri/target/debug";
    let mut present = required(base);
    present.extend(required(&at(base, &["_up_", "resources"])));
    present.extend(required("/work/desktop/resources"));
    assert_eq!(find_resource_dir(base, Platform::Linux, &files(&present)), base);
}

#[test]
fn relocated_resources_win_over_the_build_tree() {
    let base = "/work/desktop/src-tauri/target/debug";
    let relocated = at(base, &["_up_", "resources"]);
    let mut present = required(&relocated);
    present.extend(required("/work/desktop/resources"));
    assert_eq!(find_resource_dir(base, Platform::Linux, &files(&present)), relocated);
}

#[test]
fn build_tree_is_the_last_candidate() {
    let base = "/work/desktop/src-tauri/target/debug";
    let present = required("/work/desktop/resources");
    assert_eq!(
        find_resource_dir(base, Platform::Linux, &files(&present)),
        "/work/desktop/resources"
    );
}

#[test]
fn base_is_returned_when_nothing_is_complete() {
    let base = "/work/desktop/src-tauri/target/debug";
    assert_eq!(find_resource_dir(base, Platform::Linux, &FileSet::new()), base);
    let mut partial = required(base);
    partial.pop();
    partial.extend(required(&at(base, &["_up_", "resources"])).into_iter().skip(1));
    partial.extend(required("/work/desktop/resources").into_iter().take(2));
    assert_eq!(find_resource_dir(base, Platform::Linux, &files(&partial)), base);
}

#[test]
fn incomplete_base_is_passed_over() {
    let base = "/work/desktop/src-tauri/target/debug";
    let relocated = at(base, &["_up_", "resources"]);
    let mut present = required(base);
    present.remove(1);
    present.extend(required(&relocated));
    assert_eq!(find_resource_dir(base, Platform::Linux, &files(&present)), relocated);
}

#[test]
fn files_of_different_candidates_do_not_add_up() {
    let base = "/work/desktop/src-tauri/target/debug";
    let relocated = at(base, &["_up_", "resources"]);
    let present = vec![
        required(base)[0].clone(),
        required(&relocated)[1].clone(),
        required("/work/desktop/resources")[2].clone(),
    ];
    assert_eq!(find_resource_dir(base, Platform::Linux, &files(&present)), base);
}

#[test]
fn shallow_base_has_no_build_tree_candidate() {
    let present = required("/resources");
    assert_eq!(find_resource_dir("/a/b", Platform::Linux, &files(&present)), "/a/b");
    assert_eq!(find_resource_dir("/a/b/c", Platform::Linux, &files(&present)), "/resources");
}

#[test]
fn locator_probes_the_required_files_of_every_candidate() {
    let base = "/work/desktop/src-tauri/target/debug";
    let mut expected = required(base);
    expected.extend(required(&at(base, &["_up_", "resources"])));
    expected.extend(required("/work/desktop/resources"));
    assert_eq!(resource_probe(base, Platform::Linux), Request::Probe(expected));
}

#[test]
fn locator_probes_two_candidates_for_a_shallow_base() {
    let mut expected = required("/a");
    expected.extend(required("/a/_up_/resources"));
    assert_eq!(resource_probe("/a", Platform::Linux), Request::Probe(expected));
}

#[test]
fn file_set_holds_what_was_inserted() {
    let mut set = FileSet::new();
    assert!(!set.contains("/a"));
    set.insert("/a".to_string());
    set.insert("/b/c".to_string());
    assert!(set.contains("/a"));
    assert!(set.contains("/b/c"));
    assert!(!set.contains("/b"));
    assert!(!set.contains("/a/"));
    assert!(!set.contains(""));
    let from = FileSet::from_paths(vec!["/x".to_string(), "/x".to_string()]);
    assert!(from.contains("/x"));
    assert!(!from.contains("/y"));
}

#[test]
fn candidate_layouts_follow_the_candidate_directories() {
    let base = "/work/desktop/src-tauri/target/debug";
    let layouts = candidate_layouts(base, Platform::Linux);
    let roots: Vec<String> = layouts.iter().map(|l| l.root.clone()).collect();
    assert_eq!(roots, candidate_dirs(base));
    assert_eq!(layouts[2], ResourceLayout::at("/work/desktop/resources", Platform::Linux));
    assert_eq!(candidate_layouts("/a", Platform::Windows).len(), 2);
}

#[test]
fn first_complete_layout_by_itself() {
    let layouts = vec![
        ResourceLayout::at("/one", Platform::Linux),
        ResourceLayout::at("/two", Platform::Linux),
        ResourceLayout::at("/three", Platform::Linux),
    ];
    let mut present = required("/two");
    present.extend(required("/three"));
    assert_eq!(first_complete_layout(&layouts, &files(&present)), Some(1));
    present.extend(required("/one"));
    assert_eq!(first_complete_layout(&layouts, &files(&present)), Some(0));
    assert_eq!(first_complete_layout(&layouts, &files(&required("/three"))), Some(2));
    assert_eq!(first_complete_layout(&layouts, &FileSet::new()), None);
    assert_eq!(first_complete_layout(&layouts, &files(&required("/four"))), None);
    assert_eq!(first_complete_layout(&Vec::new(), &files(&required("/one"))), None);
}

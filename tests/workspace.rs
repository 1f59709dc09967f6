use presence_lsp::workspace::{
    ancestor_dirs, detect_workspace_name, get_filename_from_uri, marker_path, path_last_segment,
    workspace_dirs,
};

fn strings(v: &[&str]) -> Vec<String> {
    v.iter().map(|s| s.to_string()).collect()
}

#[test]
fn filename_is_the_last_path_segment() {
    assert_eq!(
        get_filename_from_uri("file:///home/u/demo/src/lib.rs").as_deref(),
        Some("lib.rs")
    );
    assert_eq!(get_filename_from_uri("file:///home/u/dir/").as_deref(), Some(""));
    assert_eq!(get_filename_from_uri("mailto:someone@example.com"), None);
    assert_eq!(get_filename_from_uri("not a uri"), None);
    assert_eq!(path_last_segment("/a/b%20c.rs").as_deref(), Some("b%20c.rs"));
    assert_eq!(path_last_segment("relative"), None);
}

#[test]
fn directories_go_up_to_the_root() {
    assert_eq!(
        ancestor_dirs("/home/u/project/src/deep/main.rs"),
        strings(&[
            "/home/u/project/src/deep",
            "/home/u/project/src",
            "/home/u/project",
            "/home/u",
            "/home",
            "/",
        ])
    );
    assert_eq!(ancestor_dirs("/a//b/./c.rs"), strings(&["/a/b", "/a", "/"]));
    assert_eq!(ancestor_dirs("/"), Vec::<String>::new());
}

#[test]
fn workspace_dirs_of_file_uri() {
    assert_eq!(
        workspace_dirs("file:///home/u/my%20proj/lib.rs"),
        Some(strings(&["/home/u/my proj", "/home/u", "/home", "/"]))
    );
    assert_eq!(workspace_dirs("https://example.com/a/b.rs"), None);
}

#[test]
fn marked_directory_names_the_workspace_at_any_depth() {
    for depth in 0..4usize {
        let mut path = String::from("/home/u/project");
        for i in 0..depth {
            path.push_str(&format!("/sub{}", i));
        }
        path.push_str("/file.rs");
        let dirs = ancestor_dirs(&path);
        let marks: Vec<bool> = dirs.iter().map(|d| d == "/home/u/project").collect();
        assert_eq!(detect_workspace_name(&dirs, &marks).as_deref(), Some("project"));
    }
}

#[test]
fn nearest_marker_wins() {
    let dirs = ancestor_dirs("/w/outer/inner/x.rs");
    let marks: Vec<bool> = dirs.iter().map(|d| d == "/w/outer" || d == "/w/outer/inner").collect();
    assert_eq!(detect_workspace_name(&dirs, &marks).as_deref(), Some("inner"));
}

#[test]
fn without_marker_the_parent_names_the_workspace() {
    let dirs = ancestor_dirs("/home/u/project/src/main.rs");
    let marks = vec![false; dirs.len()];
    assert_eq!(detect_workspace_name(&dirs, &marks).as_deref(), Some("src"));
    assert_eq!(detect_workspace_name(&dirs, &Vec::new()).as_deref(), Some("src"));
}

#[test]
fn file_at_the_root_has_no_workspace() {
    let dirs = ancestor_dirs("/x.rs");
    assert_eq!(dirs, strings(&["/"]));
    assert_eq!(detect_workspace_name(&dirs, &vec![false]), None);
    assert_eq!(detect_workspace_name(&Vec::new(), &Vec::new()), None);
}

#[test]
fn marker_is_under_the_directory() {
    assert_eq!(marker_path("/home/u/project"), "/home/u/project/.git");
    assert_eq!(marker_path("/"), "/.git");
}

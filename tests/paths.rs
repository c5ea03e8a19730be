use desktop_bridge::home::{get_home_directory, get_safe_directories, home_directory_from, safe_directories};
use desktop_bridge::path::{join_path, path_starts_with};
use desktop_bridge::error::FileError;

#[test]
fn child_is_within_directory() {
    assert!(path_starts_with("/home/u/Documents/a.txt", "/home/u/Documents"));
    assert!(path_starts_with("/home/u/Documents/x/y/z.md", "/home/u/Documents"));
}

#[test]
fn directory_is_within_itself() {
    assert!(path_starts_with("/home/u/Documents", "/home/u/Documents"));
}

#[test]
fn name_prefix_sibling_is_not_within() {
    assert!(!path_starts_with("/home/u/DocumentsArchive", "/home/u/Documents"));
    assert!(!path_starts_with("/home/u/DocumentsEvil/a.txt", "/home/u/Documents"));
}

#[test]
fn parent_and_unrelated_paths_are_not_within() {
    assert!(!path_starts_with("/home/u", "/home/u/Documents"));
    assert!(!path_starts_with("/etc/passwd", "/home/u/Documents"));
    assert!(!path_starts_with("/home/u/Documents", ""));
}

#[test]
fn root_contains_everything_absolute() {
    assert!(path_starts_with("/etc/passwd", "/"));
}

#[test]
fn base_with_trailing_separator() {
    assert!(path_starts_with("/home/u/Documents/a", "/home/u/"));
}

#[test]
fn join_adds_one_separator() {
    assert_eq!(join_path("/home/u", "Desktop"), "/home/u/Desktop");
    assert_eq!(join_path("/home/u/", "Desktop"), "/home/u/Desktop");
    assert_eq!(join_path("/", "Desktop"), "/Desktop");
}

#[test]
fn join_onto_empty_and_absolute_name() {
    assert_eq!(join_path("", "a.txt"), "a.txt");
    assert_eq!(join_path("/home/u", "/etc"), "/etc");
}

#[test]
fn join_keeps_non_ascii_names() {
    assert_eq!(join_path("/Users/李", "文稿"), "/Users/李/文稿");
}

#[test]
fn allow_list_under_home() {
    let dirs = safe_directories("/home/u");
    assert_eq!(
        dirs,
        vec![
            "/home/u/Desktop".to_string(),
            "/home/u/Documents".to_string(),
            "/home/u/Downloads".to_string(),
            "/home/u/桌面".to_string(),
            "/home/u/文稿".to_string(),
            "/home/u/下载".to_string(),
        ]
    );
}

#[test]
fn home_lookup_outcomes() {
    assert_eq!(home_directory_from(Some("/home/u".to_string())), Ok("/home/u".to_string()));
    assert_eq!(home_directory_from(None), Err(FileError::UnresolvableHome));
}

#[test]
fn home_directory_of_this_host() {
    match get_home_directory() {
        Ok(h) => assert!(!h.is_empty()),
        Err(m) => assert_eq!(m, "Cannot determine home directory"),
    }
}

#[test]
fn allow_list_of_this_host() {
    if let (Ok(home), Some(dirs)) = (get_home_directory(), get_safe_directories()) {
        assert_eq!(dirs, safe_directories(&home));
        assert_eq!(dirs.len(), 6);
    }
}

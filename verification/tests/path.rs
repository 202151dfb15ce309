use hurl::path::ContextDir;

#[test]
fn get_path_joins_to_file_root() {
    assert_eq!(ContextDir::new("/work", "").get_path("tests/data.bin"), "tests/data.bin");
    assert_eq!(ContextDir::new("/work", "root").get_path("data.bin"), "root/data.bin");
    assert_eq!(ContextDir::new("/work", "root/").get_path("data.bin"), "root/data.bin");
    assert_eq!(ContextDir::new("/work", "/srv").get_path("a/b"), "/srv/a/b");
    assert_eq!(ContextDir::new("/work", "/srv").get_path("/etc/passwd"), "/etc/passwd");
    assert_eq!(ContextDir::new("/work", "/srv").get_path("../x"), "/srv/../x");
    assert_eq!(ContextDir::new("/work", "/srv").get_path(""), "/srv/");
}

#[test]
fn names_below_file_root_are_allowed() {
    let context_dir = ContextDir::new("/work", "root");
    assert!(context_dir.is_access_allowed("data.bin"));
    assert!(context_dir.is_access_allowed("a/b/c.txt"));
    assert!(context_dir.is_access_allowed("./a//b/./c.txt"));
    assert!(context_dir.is_access_allowed("a/../b"));
    assert!(context_dir.is_access_allowed(""));
    assert!(context_dir.is_access_allowed("."));
    assert!(context_dir.is_access_allowed("/work/root/data.bin"));
    assert!(context_dir.is_access_allowed("/work/root"));
    assert!(context_dir.is_access_allowed("/work/./other/../root/x"));
}

#[test]
fn names_outside_file_root_are_refused() {
    let context_dir = ContextDir::new("/work", "root");
    assert!(!context_dir.is_access_allowed("../secret.txt"));
    assert!(!context_dir.is_access_allowed(".."));
    assert!(!context_dir.is_access_allowed("a/../../secret.txt"));
    assert!(!context_dir.is_access_allowed("../../etc/passwd"));
    assert!(!context_dir.is_access_allowed("/etc/passwd"));
    assert!(!context_dir.is_access_allowed("/work"));
    assert!(!context_dir.is_access_allowed("/work/rootless/x"));
    assert!(!context_dir.is_access_allowed("/"));
}

#[test]
fn absolute_file_root() {
    let context_dir = ContextDir::new("/work", "/srv/files");
    assert!(context_dir.is_access_allowed("a.txt"));
    assert!(context_dir.is_access_allowed("/srv/files/a.txt"));
    assert!(!context_dir.is_access_allowed("/work/a.txt"));
    assert!(!context_dir.is_access_allowed("../a.txt"));
    assert!(!context_dir.is_access_allowed("../files2/a.txt"));
}

#[test]
fn a_name_may_come_back_into_the_file_root() {
    // The name is judged by where it leads, not by the way it takes.
    let context_dir = ContextDir::new("/work", "root");
    assert!(context_dir.is_access_allowed("../root/data.bin"));
    assert!(ContextDir::new("/work", "secret.txt").is_access_allowed("../secret.txt"));
    // Nothing lies above the root of the file system.
    assert!(ContextDir::new("/", "/").is_access_allowed("../secret.txt"));
}

#[test]
fn relative_current_directory() {
    let context_dir = ContextDir::new("work", "root");
    assert!(context_dir.is_access_allowed("a"));
    assert!(!context_dir.is_access_allowed("/work/root/a"));
    assert!(!context_dir.is_access_allowed("../a"));
}

use rails_new::workdir::canonicalize_os_path;

#[test]
fn verbatim_drive_path_is_rewritten() {
    assert_eq!(canonicalize_os_path(r"\\?\C:\a\b", true), "/C/a/b");
    assert_eq!(
        canonicalize_os_path(r"\\?\D:\Users\dev\my app", true),
        "/D/Users/dev/my app"
    );
}

#[test]
fn drive_root_is_rewritten() {
    assert_eq!(canonicalize_os_path(r"\\?\C:\", true), "/C/");
    assert_eq!(canonicalize_os_path(r"\\?\C:", true), "/C");
}

#[test]
fn plain_paths_are_kept() {
    assert_eq!(canonicalize_os_path("/home/dev/app", false), "/home/dev/app");
    assert_eq!(canonicalize_os_path("/home/dev/app", true), "/home/dev/app");
    assert_eq!(canonicalize_os_path(r"C:\a\b", true), r"C:\a\b");
}

#[test]
fn verbatim_form_is_kept_where_the_platform_has_none() {
    assert_eq!(canonicalize_os_path(r"\\?\C:\a\b", false), r"\\?\C:\a\b");
}

#[test]
fn too_short_verbatim_path_is_kept() {
    assert_eq!(canonicalize_os_path(r"\\?\C", true), r"\\?\C");
    assert_eq!(canonicalize_os_path("", true), "");
}

#[test]
fn non_ascii_path_is_rewritten_by_characters() {
    assert_eq!(canonicalize_os_path(r"\\?\É:\données\ü", true), "/É/données/ü");
}

#[test]
fn rewriting_twice_changes_nothing() {
    for p in [r"\\?\C:\a\b", "/home/dev", r"\\?\C", r"C:\x", ""] {
        for verbatim in [true, false] {
            let once = canonicalize_os_path(p, verbatim);
            let twice = canonicalize_os_path(&once, verbatim);
            assert_eq!(once, twice);
        }
    }
}

#[test]
fn other_verbatim_forms_are_kept() {
    assert_eq!(
        canonicalize_os_path(r"\\?\UNC\server\share", true),
        r"\\?\UNC\server\share"
    );
    assert_eq!(canonicalize_os_path(r"\\?\Volume{1}\x", true), r"\\?\Volume{1}\x");
}

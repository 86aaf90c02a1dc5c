use rust_addin::classpath::{
    add_jars, build_classpath_arg, classpath_flag, keep_jars, path_sep, reserved, search_pattern,
    ADDIN_JARS, CLASSPATH_OPTION, HOST_EXTENSIONS, JVM_EXTENSIONS, RESERVED_GUAVA_JAR,
    RESERVED_SERVLET_JAR,
};
use rust_addin::error::LaunchError;
use tempfile::{Builder, NamedTempFile, TempDir};

fn file_in(dir: &TempDir, name: &str) -> NamedTempFile {
    Builder::new().prefix(name).suffix("").rand_bytes(0).tempfile_in(dir.path()).unwrap()
}

fn dir_in(dir: &std::path::Path, name: &str) -> TempDir {
    Builder::new().prefix(name).suffix("").rand_bytes(0).tempdir_in(dir).unwrap()
}

fn text(dir: &TempDir) -> String {
    dir.path().display().to_string()
}

fn some(paths: &[&str]) -> Vec<Option<String>> {
    paths.iter().map(|path| Some(path.to_string())).collect()
}

#[test]
fn classpath_constants() {
    assert_eq!(ADDIN_JARS, "*.jar");
    assert_eq!(HOST_EXTENSIONS, "ndext/*.jar");
    assert_eq!(JVM_EXTENSIONS, "jvm/lib/ext/*.jar");
    assert_eq!(RESERVED_SERVLET_JAR, "jsdk.jar");
    assert_eq!(RESERVED_GUAVA_JAR, "guava.jar");
    assert_eq!(CLASSPATH_OPTION, "-Djava.class.path=");
}

#[test]
fn the_separator_is_a_semicolon_on_windows_only() {
    assert_eq!(path_sep("windows"), ";");
    assert_eq!(path_sep("linux"), ":");
    assert_eq!(path_sep("macos"), ":");
    assert_eq!(path_sep("Windows"), ":");
    assert_eq!(path_sep(""), ":");
}

#[test]
fn the_search_pattern_gets_one_slash() {
    assert_eq!(search_pattern("/opt/domino", "*.jar"), "/opt/domino/*.jar");
    assert_eq!(search_pattern("/opt/domino/", "*.jar"), "/opt/domino/*.jar");
    assert_eq!(search_pattern("/opt/domino", "ndext/*.jar"), "/opt/domino/ndext/*.jar");
    assert_eq!(search_pattern("", "*.jar"), "/*.jar");
    assert_eq!(search_pattern("C:\\Domino", "jvm/lib/ext/*.jar"), "C:\\Domino/jvm/lib/ext/*.jar");
}

#[test]
fn reserved_names_end_with_a_reserved_jar() {
    assert!(reserved("/opt/domino/ndext/jsdk.jar"));
    assert!(reserved("/opt/domino/ndext/guava.jar"));
    assert!(reserved("guava.jar"));
    assert!(reserved("/opt/domino/ndext/my-guava.jar"));
    assert!(reserved("C:\\Domino\\ndext\\jsdk.jar"));
}

#[test]
fn other_names_are_not_reserved() {
    assert!(!reserved("/opt/domino/ndext/Guava.jar"));
    assert!(!reserved("/opt/domino/ndext/JSDK.JAR"));
    assert!(!reserved("/opt/domino/ndext/guava.jar.old"));
    assert!(!reserved("/opt/domino/guava.jar/notes.jar"));
    assert!(!reserved("/opt/domino/ndext/guava-31.jar"));
    assert!(!reserved(""));
}

#[test]
fn keep_jars_drops_reserved_and_unreadable_entries() {
    let found = vec![
        Some("/a/one.jar".to_string()),
        None,
        Some("/a/guava.jar".to_string()),
        Some("/a/two.jar".to_string()),
        Some("/a/jsdk.jar".to_string()),
        Some("/a/three.jar".to_string()),
    ];
    let mut classpath = vec!["/first.jar".to_string()];
    let mut journal = vec!["earlier".to_string()];
    keep_jars(false, &found, &mut classpath, &mut journal);
    assert_eq!(classpath, vec!["/first.jar", "/a/one.jar", "/a/two.jar", "/a/three.jar"]);
    assert_eq!(journal, vec!["earlier"]);
}

#[test]
fn keep_jars_notes_each_entry_when_debugging() {
    let found = some(&["/a/one.jar", "/a/guava.jar", "/a/two.jar"]);
    let mut classpath = Vec::new();
    let mut journal = vec!["earlier".to_string()];
    keep_jars(true, &found, &mut classpath, &mut journal);
    assert_eq!(classpath, vec!["/a/one.jar", "/a/two.jar"]);
    assert_eq!(
        journal,
        vec![
            "earlier",
            "Rust Addin: Adding classpath entry /a/one.jar",
            "Rust Addin: Adding classpath entry /a/two.jar",
        ]
    );
}

#[test]
fn keep_jars_of_nothing_changes_nothing() {
    let mut classpath = vec!["/first.jar".to_string()];
    let mut journal = Vec::new();
    keep_jars(true, &Vec::new(), &mut classpath, &mut journal);
    assert_eq!(classpath, vec!["/first.jar"]);
    assert!(journal.is_empty());
}

#[test]
fn the_classpath_flag_joins_the_entries() {
    let entries = vec!["/a/one.jar".to_string(), "/b/two.jar".to_string()];
    assert_eq!(classpath_flag(&entries, ":"), "-Djava.class.path=/a/one.jar:/b/two.jar");
    assert_eq!(classpath_flag(&entries, ";"), "-Djava.class.path=/a/one.jar;/b/two.jar");
    assert_eq!(classpath_flag(&Vec::new(), ":"), "-Djava.class.path=");
}

#[test]
fn add_jars_finds_jars_in_alphabetical_order() {
    let dir = tempfile::tempdir().unwrap();
    let _c = file_in(&dir, "c.jar");
    let _a = file_in(&dir, "a.jar");
    let _b = file_in(&dir, "b.jar");
    let _t = file_in(&dir, "notes.txt");
    let mut classpath = Vec::new();
    let mut journal = Vec::new();
    let result = add_jars(false, &text(&dir), "*.jar", &mut classpath, &mut journal);
    assert!(result.is_ok());
    let base = text(&dir);
    assert_eq!(
        classpath,
        vec![format!("{}/a.jar", base), format!("{}/b.jar", base), format!("{}/c.jar", base)]
    );
    assert!(journal.is_empty());
}

#[test]
fn add_jars_matches_without_regard_to_case() {
    let dir = tempfile::tempdir().unwrap();
    let _a = file_in(&dir, "upper.JAR");
    let _b = file_in(&dir, "mixed.Jar");
    let mut classpath = Vec::new();
    let mut journal = Vec::new();
    add_jars(false, &text(&dir), "*.jar", &mut classpath, &mut journal).unwrap();
    let base = text(&dir);
    assert_eq!(classpath, vec![format!("{}/mixed.Jar", base), format!("{}/upper.JAR", base)]);
}

#[test]
fn add_jars_matches_hidden_files() {
    let dir = tempfile::tempdir().unwrap();
    let _a = file_in(&dir, ".hidden.jar");
    let mut classpath = Vec::new();
    let mut journal = Vec::new();
    add_jars(false, &text(&dir), "*.jar", &mut classpath, &mut journal).unwrap();
    assert_eq!(classpath, vec![format!("{}/.hidden.jar", text(&dir))]);
}

#[test]
fn add_jars_does_not_look_into_subdirectories() {
    let dir = tempfile::tempdir().unwrap();
    let sub = dir_in(dir.path(), "sub");
    let _deep = file_in(&sub, "deep.jar");
    let _top = file_in(&dir, "top.jar");
    let mut classpath = Vec::new();
    let mut journal = Vec::new();
    add_jars(false, &text(&dir), "*.jar", &mut classpath, &mut journal).unwrap();
    assert_eq!(classpath, vec![format!("{}/top.jar", text(&dir))]);
}

#[test]
fn add_jars_leaves_out_the_reserved_jars() {
    let dir = tempfile::tempdir().unwrap();
    let _a = file_in(&dir, "guava.jar");
    let _b = file_in(&dir, "jsdk.jar");
    let _c = file_in(&dir, "Guava.jar");
    let _d = file_in(&dir, "kept.jar");
    let mut classpath = vec!["/before.jar".to_string()];
    let mut journal = Vec::new();
    add_jars(true, &text(&dir), "*.jar", &mut classpath, &mut journal).unwrap();
    let base = text(&dir);
    assert_eq!(
        classpath,
        vec!["/before.jar".to_string(), format!("{}/Guava.jar", base), format!("{}/kept.jar", base)]
    );
    assert_eq!(
        journal,
        vec![
            format!("Rust Addin: Adding classpath entry {}/Guava.jar", base),
            format!("Rust Addin: Adding classpath entry {}/kept.jar", base),
        ]
    );
}

#[test]
fn add_jars_accepts_a_directory_with_a_trailing_slash() {
    let dir = tempfile::tempdir().unwrap();
    let _a = file_in(&dir, "a.jar");
    let mut classpath = Vec::new();
    let mut journal = Vec::new();
    let with_slash = format!("{}/", text(&dir));
    add_jars(false, &with_slash, "*.jar", &mut classpath, &mut journal).unwrap();
    assert_eq!(classpath, vec![format!("{}/a.jar", text(&dir))]);
}

#[test]
fn add_jars_of_a_missing_directory_finds_nothing() {
    let dir = tempfile::tempdir().unwrap();
    let missing = format!("{}/nowhere", text(&dir));
    let mut classpath = vec!["/before.jar".to_string()];
    let mut journal = Vec::new();
    let result = add_jars(true, &missing, "*.jar", &mut classpath, &mut journal);
    assert!(result.is_ok());
    assert_eq!(classpath, vec!["/before.jar"]);
    assert!(journal.is_empty());
}

#[test]
fn add_jars_reports_a_directory_that_makes_no_pattern() {
    let mut classpath = vec!["/before.jar".to_string()];
    let mut journal = Vec::new();
    let result = add_jars(true, "/opt/domino[", "*.jar", &mut classpath, &mut journal);
    match result {
        Err(LaunchError::BadPattern { pattern, reason }) => {
            assert_eq!(pattern, "/opt/domino[/*.jar");
            assert!(reason.contains("invalid range pattern"), "{}", reason);
        }
        other => panic!("{:?}", other),
    }
    assert_eq!(classpath, vec!["/before.jar"]);
    assert!(journal.is_empty());
}

#[test]
fn the_classpath_lists_the_three_directories_in_order() {
    let install = tempfile::tempdir().unwrap();
    let notes = tempfile::tempdir().unwrap();
    let ndext = dir_in(notes.path(), "ndext");
    let jvm = dir_in(notes.path(), "jvm");
    let lib = dir_in(jvm.path(), "lib");
    let ext = dir_in(lib.path(), "ext");

    let _i1 = file_in(&install, "addin.jar");
    let _i2 = file_in(&install, "guava.jar");
    let _i3 = file_in(&install, "zeta.jar");
    let _n1 = file_in(&ndext, "jsdk.jar");
    let _n2 = file_in(&ndext, "beta.jar");
    let _n3 = file_in(&ndext, "readme.txt");
    let _e1 = file_in(&ext, "alpha.jar");
    let _e2 = file_in(&ext, "shaded-guava.jar");
    let _stray = file_in(&notes, "stray.jar");

    let mut journal = Vec::new();
    let flag = build_classpath_arg(false, &text(&notes), &text(&install), "linux", &mut journal).unwrap();
    assert!(journal.is_empty());

    let classpath = flag.strip_prefix("-Djava.class.path=").unwrap();
    let entries: Vec<&str> = classpath.split(':').collect();
    let expected = vec![
        format!("{}/addin.jar", text(&install)),
        format!("{}/zeta.jar", text(&install)),
        format!("{}/ndext/beta.jar", text(&notes)),
        format!("{}/jvm/lib/ext/alpha.jar", text(&notes)),
    ];
    assert_eq!(entries, expected);
}

#[test]
fn the_classpath_uses_the_platform_separator() {
    let install = tempfile::tempdir().unwrap();
    let notes = tempfile::tempdir().unwrap();
    let _a = file_in(&install, "a.jar");
    let _b = file_in(&install, "b.jar");
    let mut journal = Vec::new();
    let flag = build_classpath_arg(true, &text(&notes), &text(&install), "windows", &mut journal).unwrap();
    let base = text(&install);
    assert_eq!(flag, format!("-Djava.class.path={}/a.jar;{}/b.jar", base, base));
    assert_eq!(
        journal,
        vec![
            format!("Rust Addin: Adding classpath entry {}/a.jar", base),
            format!("Rust Addin: Adding classpath entry {}/b.jar", base),
        ]
    );
}

#[test]
fn the_classpath_of_empty_directories_is_empty() {
    let install = tempfile::tempdir().unwrap();
    let notes = tempfile::tempdir().unwrap();
    let mut journal = Vec::new();
    let flag = build_classpath_arg(true, &text(&notes), &text(&install), "linux", &mut journal).unwrap();
    assert_eq!(flag, "-Djava.class.path=");
    assert!(journal.is_empty());
}

#[test]
fn the_classpath_fails_on_a_directory_that_makes_no_pattern() {
    let install = tempfile::tempdir().unwrap();
    let _a = file_in(&install, "a.jar");
    let mut journal = Vec::new();
    let result = build_classpath_arg(true, "/opt/***", &text(&install), "linux", &mut journal);
    match result {
        Err(LaunchError::BadPattern { pattern, .. }) => assert_eq!(pattern, "/opt/***/ndext/*.jar"),
        other => panic!("{:?}", other),
    }
    assert_eq!(journal, vec![format!("Rust Addin: Adding classpath entry {}/a.jar", text(&install))]);
}

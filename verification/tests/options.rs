use rust_addin::error::LaunchError;
use rust_addin::options::{
    additional_params, assemble_options, jvm_options, list_options, option_from_line,
    options_from_lines, parse_failure, words_or_skip, DEFAULT_JAVA_DEBUG_CMD,
};
use rust_addin::settings::{
    Settings, ADDITIONAL_JAVA_PARAMS, JAVA_DEBUG, JAVA_DEBUG_CMD, JAVA_HEAP_IN_MB, TEMP_DIRECTORY,
};
use tempfile::Builder;

const STANDARD: [&str; 5] = [
    "-XX:+HeapDumpOnOutOfMemoryError",
    "-XX:+UseG1GC",
    "-XX:+UseStringDeduplicationJVM",
    "-XX:+UseStringDeduplication",
    "-XX:+IgnoreUnrecognizedVMOptions",
];

fn strings(items: &[&str]) -> Vec<String> {
    items.iter().map(|item| item.to_string()).collect()
}

#[test]
fn the_default_debug_command() {
    assert_eq!(
        DEFAULT_JAVA_DEBUG_CMD,
        "-agentlib:jdwp=transport=dt_socket,server=y,address=0.0.0.0:8000,suspend=y"
    );
}

#[test]
fn a_line_without_a_dash_gets_one() {
    assert_eq!(option_from_line("Xmx256m"), "-Xmx256m");
    assert_eq!(option_from_line("-Dfoo=bar"), "-Dfoo=bar");
    assert_eq!(option_from_line("--add-opens=a/b=c"), "--add-opens=a/b=c");
    assert_eq!(option_from_line(""), "-");
    assert_eq!(option_from_line(" -Dfoo"), "- -Dfoo");
}

#[test]
fn the_lines_of_an_options_file_keep_their_order() {
    let lines = strings(&["Xmx256m", "-Dfoo=bar"]);
    assert_eq!(options_from_lines(&lines), vec!["-Xmx256m", "-Dfoo=bar"]);
    assert!(options_from_lines(&Vec::new()).is_empty());
}

#[test]
fn the_standard_options_come_first() {
    let opts = assemble_options(&Settings::new(), &Vec::new(), &Vec::new());
    assert_eq!(opts, STANDARD);
}

#[test]
fn the_heap_size_stands_behind_the_standard_options() {
    let mut settings = Settings::new();
    settings.set(JAVA_HEAP_IN_MB, "512");
    let opts = assemble_options(&settings, &Vec::new(), &Vec::new());
    assert_eq!(opts.len(), 6);
    assert_eq!(&opts[..5], &STANDARD);
    assert_eq!(opts[5], "-Xmx512m");
}

#[test]
fn the_temp_directory_stands_before_the_heap_size() {
    let mut settings = Settings::new();
    settings.set(JAVA_HEAP_IN_MB, "1024");
    settings.set(TEMP_DIRECTORY, "/var/tmp/addin");
    let opts = assemble_options(&settings, &Vec::new(), &Vec::new());
    assert_eq!(&opts[5..], &["-Djava.io.tmpdir=/var/tmp/addin", "-Xmx1024m"]);
}

#[test]
fn the_heap_size_is_taken_as_it_is() {
    let mut settings = Settings::new();
    settings.set(JAVA_HEAP_IN_MB, "");
    let opts = assemble_options(&settings, &Vec::new(), &Vec::new());
    assert_eq!(opts[5], "-Xmxm");
}

#[test]
fn the_debug_agent_needs_the_flag() {
    let mut settings = Settings::new();
    settings.set(JAVA_DEBUG_CMD, "-agentlib:jdwp=custom");
    assert_eq!(assemble_options(&settings, &Vec::new(), &Vec::new()), STANDARD);
    settings.set(JAVA_DEBUG, "0");
    assert_eq!(assemble_options(&settings, &Vec::new(), &Vec::new()), STANDARD);
    settings.set(JAVA_DEBUG, "true");
    let opts = assemble_options(&settings, &Vec::new(), &Vec::new());
    assert_eq!(&opts[5..], &["-agentlib:jdwp=custom"]);
}

#[test]
fn the_debug_agent_has_a_default_command() {
    let mut settings = Settings::new();
    settings.set(JAVA_DEBUG, "1");
    let opts = assemble_options(&settings, &Vec::new(), &Vec::new());
    assert_eq!(&opts[5..], &[DEFAULT_JAVA_DEBUG_CMD]);
}

#[test]
fn all_options_stand_in_launch_order() {
    let mut settings = Settings::new();
    settings.set(JAVA_DEBUG, "TRUE");
    settings.set(JAVA_HEAP_IN_MB, "512");
    settings.set(TEMP_DIRECTORY, "/t");
    let words = strings(&["-Done=1", "-Dtwo=2"]);
    let lines = strings(&["Xmx256m", "-Dfoo=bar"]);
    let opts = assemble_options(&settings, &words, &lines);
    let mut expected = strings(&STANDARD);
    expected.extend(strings(&[
        "-Djava.io.tmpdir=/t",
        "-Xmx512m",
        "-Done=1",
        "-Dtwo=2",
        "-Xmx256m",
        "-Dfoo=bar",
        DEFAULT_JAVA_DEBUG_CMD,
    ]));
    assert_eq!(opts, expected);
}

#[test]
fn additional_params_are_split_like_a_shell_would() {
    let mut settings = Settings::new();
    settings.set(ADDITIONAL_JAVA_PARAMS, "-Da=b  '-Dc=d e' \"-Df=g h\" -Di=j\\ k");
    let mut journal = Vec::new();
    let words = additional_params(&settings, &mut journal);
    assert_eq!(words, vec!["-Da=b", "-Dc=d e", "-Df=g h", "-Di=j k"]);
    assert!(journal.is_empty());
}

#[test]
fn additional_params_can_be_missing_or_empty() {
    let mut settings = Settings::new();
    let mut journal = Vec::new();
    assert!(additional_params(&settings, &mut journal).is_empty());
    settings.set(ADDITIONAL_JAVA_PARAMS, "   ");
    assert!(additional_params(&settings, &mut journal).is_empty());
    assert!(journal.is_empty());
}

#[test]
fn additional_params_that_do_not_parse_are_skipped() {
    let mut settings = Settings::new();
    settings.set(ADDITIONAL_JAVA_PARAMS, "-Da=b '-Dc");
    let mut journal = vec!["earlier".to_string()];
    let words = additional_params(&settings, &mut journal);
    assert!(words.is_empty());
    assert_eq!(
        journal,
        vec![
            "earlier",
            "Rust Addin: Unable to parse JVM arguments \"-Da=b '-Dc\": missing closing quote",
        ]
    );
}

#[test]
fn the_parse_failure_names_the_value_and_the_reason() {
    assert_eq!(
        parse_failure("-Dx='", "missing closing quote"),
        "Unable to parse JVM arguments \"-Dx='\": missing closing quote"
    );
}

#[test]
fn options_are_listed_only_when_debugging() {
    let opts = strings(&["-Xmx512m", "-Dfoo=bar"]);
    let mut journal = Vec::new();
    list_options(false, &opts, &mut journal);
    assert!(journal.is_empty());
    list_options(true, &opts, &mut journal);
    assert_eq!(
        journal,
        vec![
            "Rust Addin: Launching JVM with arguments:",
            "Rust Addin: * \"-Xmx512m\"",
            "Rust Addin: * \"-Dfoo=bar\"",
        ]
    );
}

#[test]
fn listed_options_are_quoted() {
    let opts = strings(&["-Dname=\"a b\"\\", "-Dcafé='x'"]);
    let mut journal = Vec::new();
    list_options(true, &opts, &mut journal);
    assert_eq!(journal[1], "Rust Addin: * \"-Dname=\\\"a b\\\"\\\\\"");
    assert_eq!(journal[2], "Rust Addin: * \"-Dcaf\\xc3\\xa9=\\'x\\'\"");
}

#[test]
fn split_words_are_kept_and_a_failed_split_is_noted() {
    let mut journal = Vec::new();
    let words = words_or_skip("-Da -Db", Ok(strings(&["-Da", "-Db"])), &mut journal);
    assert_eq!(words, vec!["-Da", "-Db"]);
    assert!(journal.is_empty());
    let words = words_or_skip("-Da '", Err("missing closing quote".to_string()), &mut journal);
    assert!(words.is_empty());
    assert_eq!(journal, vec!["Rust Addin: Unable to parse JVM arguments \"-Da '\": missing closing quote"]);
}

#[test]
fn the_classpath_comes_last() {
    let install = tempfile::tempdir().unwrap();
    let notes = tempfile::tempdir().unwrap();
    let _jar = Builder::new().prefix("addin").suffix(".jar").rand_bytes(0).tempfile_in(install.path()).unwrap();
    let install_dir = install.path().display().to_string();
    let notes_dir = notes.path().display().to_string();

    let mut settings = Settings::new();
    settings.set(JAVA_HEAP_IN_MB, "512");
    settings.set(JAVA_DEBUG, "1");
    settings.set(ADDITIONAL_JAVA_PARAMS, "-Dextra=1");
    let lines = strings(&["Xmx256m", "-Dfoo=bar"]);
    let mut journal = Vec::new();
    let opts = jvm_options(false, &settings, &lines, &notes_dir, &install_dir, "linux", &mut journal).unwrap();

    let mut expected = strings(&STANDARD);
    expected.extend(strings(&["-Xmx512m", "-Dextra=1", "-Xmx256m", "-Dfoo=bar", DEFAULT_JAVA_DEBUG_CMD]));
    expected.push(format!("-Djava.class.path={}/addin.jar", install_dir));
    assert_eq!(opts, expected);
    assert!(journal.is_empty());

    let heap = opts.iter().position(|opt| opt == "-Xmx512m").unwrap();
    assert!(heap >= STANDARD.len());
    assert!(heap < opts.len() - 1);
}

#[test]
fn the_journal_of_a_verbose_launch() {
    let install = tempfile::tempdir().unwrap();
    let notes = tempfile::tempdir().unwrap();
    let _jar = Builder::new().prefix("addin").suffix(".jar").rand_bytes(0).tempfile_in(install.path()).unwrap();
    let install_dir = install.path().display().to_string();
    let notes_dir = notes.path().display().to_string();

    let mut settings = Settings::new();
    settings.set(ADDITIONAL_JAVA_PARAMS, "\"open");
    let mut journal = Vec::new();
    let opts = jvm_options(true, &settings, &Vec::new(), &notes_dir, &install_dir, "linux", &mut journal).unwrap();
    assert_eq!(opts.len(), 6);
    assert_eq!(
        journal,
        vec![
            "Rust Addin: Unable to parse JVM arguments \"\"open\": missing closing quote".to_string(),
            "Rust Addin: Launching JVM with arguments:".to_string(),
            "Rust Addin: * \"-XX:+HeapDumpOnOutOfMemoryError\"".to_string(),
            "Rust Addin: * \"-XX:+UseG1GC\"".to_string(),
            "Rust Addin: * \"-XX:+UseStringDeduplicationJVM\"".to_string(),
            "Rust Addin: * \"-XX:+UseStringDeduplication\"".to_string(),
            "Rust Addin: * \"-XX:+IgnoreUnrecognizedVMOptions\"".to_string(),
            format!("Rust Addin: Adding classpath entry {}/addin.jar", install_dir),
        ]
    );
}

#[test]
fn options_fail_on_a_directory_that_makes_no_pattern() {
    let mut journal = Vec::new();
    let result = jvm_options(false, &Settings::new(), &Vec::new(), "/opt/[", "/opt/addin", "linux", &mut journal);
    assert!(matches!(result, Err(LaunchError::BadPattern { .. })));
}

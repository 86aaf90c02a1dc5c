//! What the launcher settles before the JVM is started: where the addin is
//! installed, what the process environment has to look like, which Java home
//! to use, and how long to wait.

use crate::classpath::{path_sep, separator_for};
use crate::error::LaunchError;
use crate::journal::{log_line, record, NAME};
use crate::settings::{
    lookup, value_or_empty, Settings, ADDIN_JAVA_USER_OPTIONS_FILE, INSTALL_DIR, JAVA_HOME,
    JAVA_USER_OPTIONS_FILE, LAUNCH_WAIT_SECS,
};
use crate::text::{decimal_u64, is_digit, parse_u64, texts, unsigned_part, with_prefix};
use vstd::prelude::*;

verus! {

/// The directory below the host's program directory where the addin is installed by default.
pub const DEFAULT_ADDIN_DIR: &'static str = "rustaddin-lib";

/// The directory below the host's program directory that holds the host's own JVM.
pub const HOST_JVM_DIR: &'static str = "jvm";

/// A variable of the process environment and the value it is to be set to.
pub struct EnvVar {
    pub name: String,
    pub value: String,
}

/// The names and values of `vars`, as texts.
pub open spec fn env_texts(vars: Seq<EnvVar>) -> Seq<(Seq<char>, Seq<char>)> {
    Seq::new(vars.len(), |i: int| (vars[i].name@, vars[i].value@))
}

/// What the process environment has to look like before the JVM is started.
pub struct Environment {
    /// The variables to set, in this order, whatever they held before.
    pub vars: Vec<EnvVar>,
    /// The directory to make the working directory.
    pub working_dir: String,
}

/// The variable that switches full diagnostics on, where `debug` is set.
pub open spec fn diagnostics_vars(debug: bool) -> Seq<(Seq<char>, Seq<char>)> {
    if debug {
        seq![("RUST_BACKTRACE"@, "full"@)]
    } else {
        Seq::empty()
    }
}

/// The search path `path` with `exec_dir` added at its end; a search path
/// that cannot be read counts as empty.
pub open spec fn augmented_path(path: Option<Seq<char>>, exec_dir: Seq<char>, os: Seq<char>) -> Seq<
    char,
> {
    let before = match path {
        Some(p) => p,
        None => Seq::empty(),
    };
    before + separator_for(os) + exec_dir
}

/// The variables that tell the rest of the process where the host lives, and
/// the search path with the host's program directory added.
pub open spec fn normalized_vars(
    exec_dir: Seq<char>,
    data_dir: Seq<char>,
    path: Option<Seq<char>>,
    os: Seq<char>,
) -> Seq<(Seq<char>, Seq<char>)> {
    seq![
        ("NOTESDATA"@, data_dir),
        ("NOTESROOT"@, exec_dir),
        ("Notes_ExecDirectory"@, exec_dir),
        ("PATH"@, augmented_path(path, exec_dir, os)),
    ]
}

/// The addin's installation directory: the one the settings name, or
/// `default_dir` where they name none or an empty one.
pub open spec fn addin_candidate(vars: Map<Seq<char>, Seq<char>>, default_dir: Seq<char>) -> Seq<
    char,
> {
    let configured = value_or_empty(vars, INSTALL_DIR@);
    if configured.len() > 0 {
        configured
    } else {
        default_dir
    }
}

/// The Java home: the one the settings name, or `default_home` where they
/// name none or an empty one.
pub open spec fn chosen_java_home(vars: Map<Seq<char>, Seq<char>>, default_home: Seq<char>) -> Seq<
    char,
> {
    let configured = value_or_empty(vars, JAVA_HOME@);
    if configured.len() > 0 {
        configured
    } else {
        default_home
    }
}

/// What verbose logging says of the Java home.
pub open spec fn java_home_notes(debug: bool, home: Seq<char>) -> Seq<Seq<char>> {
    if debug {
        seq![log_line("Using JAVA_HOME "@ + home)]
    } else {
        Seq::empty()
    }
}

/// How many seconds to wait before the JVM is started: what the settings
/// say, or none where they say nothing that reads as a number.
pub open spec fn wait_seconds(vars: Map<Seq<char>, Seq<char>>) -> u64 {
    match decimal_u64(value_or_empty(vars, LAUNCH_WAIT_SECS@)) {
        Some(secs) => secs,
        None => 0,
    }
}

/// The file of further JVM options: the addin's own setting where it is set,
/// else the host-wide one, else empty.
pub open spec fn options_file_path(vars: Map<Seq<char>, Seq<char>>) -> Seq<char> {
    match lookup(vars, ADDIN_JAVA_USER_OPTIONS_FILE@) {
        Some(file) => file,
        None => value_or_empty(vars, JAVA_USER_OPTIONS_FILE@),
    }
}

/// What verbose logging says of the directories the launcher works with.
pub open spec fn directories_message(
    exec_dir: Seq<char>,
    data_dir: Seq<char>,
    install_dir: Seq<char>,
) -> Seq<char> {
    "Initializing with executable directory "@ + exec_dir + ", data directory "@ + data_dir
        + ", and "@ + NAME@ + " directory "@ + install_dir
}

/// What verbose logging says of the directories the launcher works with.
pub open spec fn directories_notes(
    debug: bool,
    exec_dir: Seq<char>,
    data_dir: Seq<char>,
    install_dir: Seq<char>,
) -> Seq<Seq<char>> {
    if debug {
        seq![log_line(directories_message(exec_dir, data_dir, install_dir))]
    } else {
        Seq::empty()
    }
}

/// `std::path::Path::join`: `base` with `child` adjoined, as text. How the
/// two are put together is the platform's business, so nothing is claimed of
/// the result.
#[verifier::external_body]
fn path_join(base: &str, child: &str) -> (r: String) {
    std::path::Path::new(base).join(child).display().to_string()
}

/// `std::path::Path::is_dir`: whether `path` exists on disk and is a
/// directory. What comes back depends on what is on disk, so nothing is
/// claimed of it.
#[verifier::external_body]
fn is_directory(path: &str) -> (r: bool) {
    std::path::Path::new(path).is_dir()
}

/// The variable that switches full diagnostics on, where `debug` is set.
pub fn diagnostics_environment(debug: bool) -> (r: Vec<EnvVar>)
    ensures
        env_texts(r@) == diagnostics_vars(debug),
{
    let mut vars: Vec<EnvVar> = Vec::new();
    if debug {
        vars.push(EnvVar { name: "RUST_BACKTRACE".to_owned(), value: "full".to_owned() });
    }
    assert(env_texts(vars@) =~= diagnostics_vars(debug));
    vars
}

/// What the process environment has to look like before the JVM is started:
/// the variables that say where the host lives are overwritten with
/// `data_dir` and `exec_dir`, the search path `path` gets `exec_dir` added at
/// its end, and the working directory becomes `data_dir`.
pub fn normalized_environment(exec_dir: &str, data_dir: &str, path: Option<&str>, os: &str) -> (r:
    Environment)
    ensures
        env_texts(r.vars@) == normalized_vars(
            exec_dir@,
            data_dir@,
            match path {
                Some(p) => Some(p@),
                None => None,
            },
            os@,
        ),
        r.working_dir@ == data_dir@,
{
    let mut search = match path {
        Some(p) => p.to_owned(),
        None => String::new(),
    };
    search.append(path_sep(os));
    search.append(exec_dir);

    let mut vars: Vec<EnvVar> = Vec::new();
    vars.push(EnvVar { name: "NOTESDATA".to_owned(), value: data_dir.to_owned() });
    vars.push(EnvVar { name: "NOTESROOT".to_owned(), value: exec_dir.to_owned() });
    vars.push(EnvVar { name: "Notes_ExecDirectory".to_owned(), value: exec_dir.to_owned() });
    vars.push(EnvVar { name: "PATH".to_owned(), value: search });
    assert(env_texts(vars@) =~= normalized_vars(
        exec_dir@,
        data_dir@,
        match path {
            Some(p) => Some(p@),
            None => None,
        },
        os@,
    ));
    Environment { vars, working_dir: data_dir.to_owned() }
}

/// The addin's installation directory: the one the settings name, or
/// `default_dir` where they name none or an empty one.
pub fn choose_addin_dir(settings: &Settings, default_dir: String) -> (r: String)
    ensures
        r@ == addin_candidate(settings@, default_dir@),
{
    let configured = settings.get_or_empty(INSTALL_DIR);
    if configured.as_str().unicode_len() > 0 {
        configured
    } else {
        default_dir
    }
}

/// The installation directory `candidate` where it is a directory, and the
/// failure that names it where it is not.
pub fn resolve_addin(candidate: String, is_dir: bool) -> (r: Result<String, LaunchError>)
    ensures
        is_dir ==> r == Ok::<String, LaunchError>(candidate),
        !is_dir ==> r == Err::<String, LaunchError>(LaunchError::AddinNotFound { path: candidate }),
{
    if is_dir {
        Ok(candidate)
    } else {
        Err(LaunchError::AddinNotFound { path: candidate })
    }
}

/// Finds the addin's installation: the directory the settings name, or the
/// default one below `exec_dir` where they name none or an empty one. Fails
/// where that is no directory on disk.
pub fn locate_addin(settings: &Settings, exec_dir: &str) -> (r: Result<String, LaunchError>)
    ensures
        exists|default_dir: Seq<char>|
            match r {
                Ok(dir) => dir@ == #[trigger] addin_candidate(settings@, default_dir),
                Err(e) => e matches LaunchError::AddinNotFound { path } && path@
                    == addin_candidate(settings@, default_dir),
            },
{
    let default_dir = path_join(exec_dir, DEFAULT_ADDIN_DIR);
    let candidate = choose_addin_dir(settings, default_dir);
    let found = is_directory(candidate.as_str());
    resolve_addin(candidate, found)
}

/// Notes the directories the launcher works with in `journal`, where `debug` is set.
pub fn note_directories(
    debug: bool,
    exec_dir: &str,
    data_dir: &str,
    install_dir: &str,
    journal: &mut Vec<String>,
)
    ensures
        texts(final(journal)@) == texts(old(journal)@) + directories_notes(
            debug,
            exec_dir@,
            data_dir@,
            install_dir@,
        ),
{
    if debug {
        let mut msg = with_prefix("Initializing with executable directory ", exec_dir);
        msg.append(", data directory ");
        msg.append(data_dir);
        msg.append(", and ");
        msg.append(NAME);
        msg.append(" directory ");
        msg.append(install_dir);
        record(journal, msg.as_str());
    }
    assert(texts(journal@) =~= texts(old(journal)@) + directories_notes(
        debug,
        exec_dir@,
        data_dir@,
        install_dir@,
    ));
}

/// The Java home: the one the settings name, or `default_home` where they
/// name none or an empty one.
pub fn choose_java_home(settings: &Settings, default_home: String) -> (r: String)
    ensures
        r@ == chosen_java_home(settings@, default_home@),
{
    let configured = settings.get_or_empty(JAVA_HOME);
    if configured.as_str().unicode_len() > 0 {
        configured
    } else {
        default_home
    }
}

/// The Java home to start the JVM from: the one the settings name, or the
/// host's own JVM below `exec_dir` where they name none or an empty one.
/// Where `debug` is set, `journal` is told which it is.
pub fn java_home(settings: &Settings, exec_dir: &str, debug: bool, journal: &mut Vec<String>) -> (r:
    String)
    ensures
        exists|default_home: Seq<char>| r@ == #[trigger] chosen_java_home(settings@, default_home),
        texts(final(journal)@) == texts(old(journal)@) + java_home_notes(debug, r@),
{
    let default_home = path_join(exec_dir, HOST_JVM_DIR);
    let home = choose_java_home(settings, default_home);
    if debug {
        let note = with_prefix("Using JAVA_HOME ", home.as_str());
        record(journal, note.as_str());
    }
    assert(texts(journal@) =~= texts(old(journal)@) + java_home_notes(debug, home@));
    home
}

/// How many seconds to wait before the JVM is started: what the settings
/// say, or none where they say nothing that reads as a number.
pub fn launch_wait_secs(settings: &Settings) -> (r: u64)
    ensures
        r == wait_seconds(settings@),
{
    let value = settings.get_or_empty(LAUNCH_WAIT_SECS);
    match parse_u64(value.as_str()) {
        Some(secs) => secs,
        None => 0,
    }
}

/// The file of further JVM options: the addin's own setting where it is set,
/// else the host-wide one, else empty. An empty name means there is no file.
pub fn options_file(settings: &Settings) -> (r: String)
    ensures
        r@ == options_file_path(settings@),
{
    match settings.get(ADDIN_JAVA_USER_OPTIONS_FILE) {
        Some(file) => file,
        None => settings.get_or_empty(JAVA_USER_OPTIONS_FILE),
    }
}

/// The launch is delayed only by a setting that reads as a number: there
/// is no delay where the setting is missing, nor where its value holds
/// anything but digits behind the plus sign it may start with.
pub proof fn lemma_wait_needs_a_number(vars: Map<Seq<char>, Seq<char>>)
    ensures
        lookup(vars, LAUNCH_WAIT_SECS@) is None ==> wait_seconds(vars) == 0,
        forall|i: int|
            0 <= i < unsigned_part(value_or_empty(vars, LAUNCH_WAIT_SECS@)).len() && !is_digit(
                #[trigger] unsigned_part(value_or_empty(vars, LAUNCH_WAIT_SECS@))[i],
            ) ==> wait_seconds(vars) == 0,
{
}

} // verus!

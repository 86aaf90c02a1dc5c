//! The configuration variables the launcher reads from the host's settings store.

use crate::text::{eq_ignore_ascii_case, same_ignoring_ascii_case, same_text};
use vstd::prelude::*;

verus! {

/// Where the addin's JARs are installed; optional.
pub const INSTALL_DIR: &'static str = "RustAddinInstallDir";

/// Turns on verbose logging; optional.
pub const DEBUG: &'static str = "RustAddinDebug";

/// Starts the JVM with a remote-debug agent; optional.
pub const JAVA_DEBUG: &'static str = "RustAddinJavaDebug";

/// Replaces the default remote-debug agent option; optional.
pub const JAVA_DEBUG_CMD: &'static str = "RustAddinJavaDebugCmd";

/// The Java home to use instead of the host's own JVM; optional.
pub const JAVA_HOME: &'static str = "RustAddinJavaHome";

/// Seconds to wait before the JVM is started; optional.
pub const LAUNCH_WAIT_SECS: &'static str = "RustAddinLaunchWaitSecs";

/// The JVM's temporary directory; optional.
pub const TEMP_DIRECTORY: &'static str = "RustAddinTempDirectory";

/// The JVM's maximum heap size in megabytes; optional.
pub const JAVA_HEAP_IN_MB: &'static str = "RustAddinJavaHeapInMB";

/// Further JVM options, written as on a shell command line; optional.
pub const ADDITIONAL_JAVA_PARAMS: &'static str = "RustAddinAdditionalJavaParams";

/// A file of further JVM options, one per line; optional.
pub const ADDIN_JAVA_USER_OPTIONS_FILE: &'static str = "RustAddinJavaUserOptionsFile";

/// The host-wide fallback for `ADDIN_JAVA_USER_OPTIONS_FILE`; optional.
pub const JAVA_USER_OPTIONS_FILE: &'static str = "JavaUserOptionsFile";

/// The names of all variables the launcher reads.
pub open spec fn all_names() -> Seq<Seq<char>> {
    seq![
        INSTALL_DIR@,
        DEBUG@,
        JAVA_DEBUG@,
        JAVA_DEBUG_CMD@,
        JAVA_HOME@,
        LAUNCH_WAIT_SECS@,
        TEMP_DIRECTORY@,
        JAVA_HEAP_IN_MB@,
        ADDITIONAL_JAVA_PARAMS@,
        ADDIN_JAVA_USER_OPTIONS_FILE@,
        JAVA_USER_OPTIONS_FILE@,
    ]
}

/// The variables as a map from name to value; a later entry replaces an earlier one of its name.
pub open spec fn entries_map(entries: Seq<(String, String)>) -> Map<Seq<char>, Seq<char>>
    decreases entries.len(),
{
    if entries.len() == 0 {
        Map::empty()
    } else {
        entries_map(entries.drop_last()).insert(entries.last().0@, entries.last().1@)
    }
}

/// What `name` is set to in `vars`, if it is set.
pub open spec fn lookup(vars: Map<Seq<char>, Seq<char>>, name: Seq<char>) -> Option<Seq<char>> {
    if vars.dom().contains(name) {
        Some(vars[name])
    } else {
        None
    }
}

/// What `name` is set to in `vars`, or the empty text where it is not set.
pub open spec fn value_or_empty(vars: Map<Seq<char>, Seq<char>>, name: Seq<char>) -> Seq<char> {
    match lookup(vars, name) {
        Some(v) => v,
        None => Seq::empty(),
    }
}

/// A value that switches a flag on: `true` in any case of its letters, or `1`.
pub open spec fn is_truthy(value: Seq<char>) -> bool {
    same_ignoring_ascii_case(value, "true"@) || value == "1"@
}

/// Whether the flag `name` is switched on in `vars`.
pub open spec fn flag_set(vars: Map<Seq<char>, Seq<char>>, name: Seq<char>) -> bool {
    match lookup(vars, name) {
        Some(v) => is_truthy(v),
        None => false,
    }
}

/// A snapshot of the host's configuration variables.
pub struct Settings {
    entries: Vec<(String, String)>,
}

impl View for Settings {
    type V = Map<Seq<char>, Seq<char>>;

    closed spec fn view(&self) -> Map<Seq<char>, Seq<char>> {
        entries_map(self.entries@)
    }
}

/// The last entry of a name is what the name is set to.
proof fn lemma_found(entries: Seq<(String, String)>, name: Seq<char>, k: int)
    requires
        0 <= k < entries.len(),
        entries[k].0@ == name,
        forall|j: int| k < j < entries.len() ==> (#[trigger] entries[j]).0@ != name,
    ensures
        lookup(entries_map(entries), name) == Some(entries[k].1@),
    decreases entries.len(),
{
    if k < entries.len() - 1 {
        lemma_found(entries.drop_last(), name, k);
    }
}

/// A name that no entry has is not set.
proof fn lemma_absent(entries: Seq<(String, String)>, name: Seq<char>)
    requires
        forall|j: int| 0 <= j < entries.len() ==> (#[trigger] entries[j]).0@ != name,
    ensures
        lookup(entries_map(entries), name) is None,
    decreases entries.len(),
{
    if entries.len() > 0 {
        lemma_absent(entries.drop_last(), name);
    }
}

impl Settings {
    /// A snapshot in which no variable is set.
    pub fn new() -> (r: Settings)
        ensures
            r@ == Map::<Seq<char>, Seq<char>>::empty(),
    {
        Settings { entries: Vec::new() }
    }

    /// Sets `name` to `value`, replacing what it was set to before.
    pub fn set(&mut self, name: &str, value: &str)
        ensures
            final(self)@ == old(self)@.insert(name@, value@),
    {
        self.entries.push((name.to_owned(), value.to_owned()));
        assert(self.entries@.drop_last() == old(self).entries@);
    }

    /// What `name` is set to, if it is set.
    pub fn get(&self, name: &str) -> (r: Option<String>)
        ensures
            match r {
                Some(v) => lookup(self@, name@) == Some(v@),
                None => lookup(self@, name@) is None,
            },
    {
        let mut i: usize = self.entries.len();
        while i > 0
            invariant
                i <= self.entries.len(),
                forall|j: int|
                    i <= j < self.entries.len() ==> (#[trigger] self.entries@[j]).0@ != name@,
            decreases i,
        {
            i -= 1;
            if same_text(self.entries[i].0.as_str(), name) {
                proof {
                    lemma_found(self.entries@, name@, i as int);
                }
                return Some(self.entries[i].1.clone());
            }
        }
        proof {
            lemma_absent(self.entries@, name@);
        }
        None
    }

    /// What `name` is set to, or the empty string where it is not set.
    pub fn get_or_empty(&self, name: &str) -> (r: String)
        ensures
            r@ == value_or_empty(self@, name@),
    {
        match self.get(name) {
            Some(v) => v,
            None => String::new(),
        }
    }
}

/// The names of all variables the launcher reads: what a snapshot has to hold.
pub fn names() -> (r: Vec<&'static str>)
    ensures
        Seq::new(r@.len(), |i: int| r@[i]@) == all_names(),
{
    let mut out: Vec<&'static str> = Vec::new();
    out.push(INSTALL_DIR);
    out.push(DEBUG);
    out.push(JAVA_DEBUG);
    out.push(JAVA_DEBUG_CMD);
    out.push(JAVA_HOME);
    out.push(LAUNCH_WAIT_SECS);
    out.push(TEMP_DIRECTORY);
    out.push(JAVA_HEAP_IN_MB);
    out.push(ADDITIONAL_JAVA_PARAMS);
    out.push(ADDIN_JAVA_USER_OPTIONS_FILE);
    out.push(JAVA_USER_OPTIONS_FILE);
    assert(Seq::new(out@.len(), |i: int| out@[i]@) =~= all_names());
    out
}

/// Whether the flag `var_name` is switched on: set to `true`, in any case
/// of its letters, or to `1`.
pub fn check_ini_bool(settings: &Settings, var_name: &str) -> (r: bool)
    ensures
        r == flag_set(settings@, var_name@),
{
    match settings.get(var_name) {
        Some(val) => eq_ignore_ascii_case(val.as_str(), "true") || same_text(val.as_str(), "1"),
        None => false,
    }
}

} // verus!

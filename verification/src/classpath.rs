//! The classpath the JVM is started with: the JARs of three directories,
//! without the few that are known to clash with libraries bundled elsewhere.

use crate::error::LaunchError;
use crate::journal::{log_line, record};
use crate::text::{
    ends_with, join, join_with, lemma_split_join, push_text, same_text, split_on, texts,
    with_prefix,
};
use vstd::prelude::*;

verus! {

/// What is searched for in the addin's own directory: the JARs directly in it.
pub const ADDIN_JARS: &'static str = "*.jar";

/// What is searched for below the host's program directory: the JARs of its extensions.
pub const HOST_EXTENSIONS: &'static str = "ndext/*.jar";

/// What is searched for below the host's program directory: the JARs of the JVM's extensions.
pub const JVM_EXTENSIONS: &'static str = "jvm/lib/ext/*.jar";

/// The JAR of the servlet API, which the host bundles itself.
pub const RESERVED_SERVLET_JAR: &'static str = "jsdk.jar";

/// The JAR of Guava, which the host bundles itself.
pub const RESERVED_GUAVA_JAR: &'static str = "guava.jar";

/// The option that hands the classpath to the JVM, up to the classpath itself.
pub const CLASSPATH_OPTION: &'static str = "-Djava.class.path=";

/// What separates the entries of a path list on the platform named `os`.
pub open spec fn separator_for(os: Seq<char>) -> Seq<char> {
    if os == "windows"@ {
        ";"@
    } else {
        ":"@
    }
}

/// What separates the entries of a path list on the platform named `os`.
pub fn path_sep(os: &str) -> (r: &'static str)
    ensures
        r@ == separator_for(os@),
{
    if same_text(os, "windows") {
        ";"
    } else {
        ":"
    }
}

/// The glob pattern that looks for `pattern` below `search_dir`.
pub open spec fn glob_pattern(search_dir: Seq<char>, pattern: Seq<char>) -> Seq<char> {
    if "/"@.is_suffix_of(search_dir) {
        search_dir + pattern
    } else {
        search_dir + "/"@ + pattern
    }
}

/// Whether `dir` is a directory name that a glob pattern takes literally up
/// to its wildcards `?`: it holds neither `*` nor `[`.
pub open spec fn plain_directory(dir: Seq<char>) -> bool {
    !dir.contains('*') && !dir.contains('[')
}

/// A pattern that is well-formed whatever else it holds: it opens no
/// character class and has no two `*` side by side.
pub open spec fn simple_pattern(pattern: Seq<char>) -> bool {
    &&& !pattern.contains('[')
    &&& forall|i: int|
        0 <= i < pattern.len() - 1 ==> !(#[trigger] pattern[i] == '*' && pattern[i + 1] == '*')
}

/// Whether `path` names one of the JARs that are left out of the classpath:
/// its text ends with a reserved name, letter for letter.
pub open spec fn is_reserved(path: Seq<char>) -> bool {
    RESERVED_SERVLET_JAR@.is_suffix_of(path) || RESERVED_GUAVA_JAR@.is_suffix_of(path)
}

/// Whether `c` separates the components of a path.
pub open spec fn is_separator(c: char) -> bool {
    c == '/' || c == '\\'
}

/// The file name of `path`: what follows its last separator, or all of it
/// where it has none.
pub open spec fn file_name(path: Seq<char>) -> Seq<char>
    decreases path.len(),
{
    if path.len() == 0 || is_separator(path.last()) {
        Seq::empty()
    } else {
        file_name(path.drop_last()).push(path.last())
    }
}

/// What separates the entries of a path list on the platform named `os`, as a character.
pub open spec fn separator_char(os: Seq<char>) -> char {
    if os == "windows"@ {
        ';'
    } else {
        ':'
    }
}

/// What a search found, as texts: `None` stands for an entry that could not be read.
pub open spec fn found_texts(found: Seq<Option<String>>) -> Seq<Option<Seq<char>>> {
    Seq::new(
        found.len(),
        |i: int|
            match found[i] {
                Some(path) => Some(path@),
                None => None,
            },
    )
}

/// The entries of `found` that go on the classpath, in the order found:
/// those that could be read and are not reserved.
pub open spec fn kept(found: Seq<Option<Seq<char>>>) -> Seq<Seq<char>>
    decreases found.len(),
{
    if found.len() == 0 {
        Seq::empty()
    } else {
        let before = kept(found.drop_last());
        match found.last() {
            Some(path) => if is_reserved(path) {
                before
            } else {
                before.push(path)
            },
            None => before,
        }
    }
}

/// The classpath's entries, from what the three searches found: the addin's
/// own JARs, then the host's extensions, then the JVM's extensions.
pub open spec fn classpath_entries(
    addin: Seq<Option<Seq<char>>>,
    host: Seq<Option<Seq<char>>>,
    jvm: Seq<Option<Seq<char>>>,
) -> Seq<Seq<char>> {
    kept(addin) + kept(host) + kept(jvm)
}

/// What verbose logging says of each of `entries`.
pub open spec fn entry_notes(debug: bool, entries: Seq<Seq<char>>) -> Seq<Seq<char>> {
    if debug {
        Seq::new(entries.len(), |i: int| log_line("Adding classpath entry "@ + entries[i]))
    } else {
        Seq::empty()
    }
}

/// The classpath option for `entries` on a platform whose path lists are separated by `sep`.
pub open spec fn classpath_option(entries: Seq<Seq<char>>, sep: Seq<char>) -> Seq<char> {
    CLASSPATH_OPTION@ + join(entries, sep)
}

/// Whether `path` names one of the JARs that are left out of the classpath.
pub fn reserved(path: &str) -> (r: bool)
    ensures
        r == is_reserved(path@),
{
    ends_with(path, RESERVED_SERVLET_JAR) || ends_with(path, RESERVED_GUAVA_JAR)
}

/// Appends to `classpath` the entries of `found` that could be read and are
/// not reserved, in the order found, and notes each in `journal` where `debug` is set.
pub fn keep_jars(
    debug: bool,
    found: &Vec<Option<String>>,
    classpath: &mut Vec<String>,
    journal: &mut Vec<String>,
)
    ensures
        texts(final(classpath)@) == texts(old(classpath)@) + kept(found_texts(found@)),
        texts(final(journal)@) == texts(old(journal)@) + entry_notes(
            debug,
            kept(found_texts(found@)),
        ),
{
    let ghost all = found_texts(found@);
    let mut i: usize = 0;
    while i < found.len()
        invariant
            i <= found.len(),
            all == found_texts(found@),
            texts(classpath@) == texts(old(classpath)@) + kept(all.take(i as int)),
            texts(journal@) == texts(old(journal)@) + entry_notes(debug, kept(all.take(i as int))),
        decreases found.len() - i,
    {
        proof {
            assert(all.take(i + 1).drop_last() == all.take(i as int));
            assert(all.take(i + 1).last() == all[i as int]);
        }
        match &found[i] {
            Some(path) => {
                if !reserved(path.as_str()) {
                    if debug {
                        let note = with_prefix("Adding classpath entry ", path.as_str());
                        record(journal, note.as_str());
                    }
                    push_text(classpath, path.clone());
                }
            },
            None => {},
        }
        assert(texts(classpath@) =~= texts(old(classpath)@) + kept(all.take(i + 1)));
        assert(texts(journal@) =~= texts(old(journal)@) + entry_notes(
            debug,
            kept(all.take(i + 1)),
        ));
        i += 1;
    }
    assert(all.take(i as int) == all);
}

/// `glob::PatternError`: why a pattern was refused. It is handed on as it is.
#[verifier::external_type_specification]
#[verifier::external_body]
pub struct ExPatternError(glob::PatternError);

/// `glob::glob_with`: the paths on disk that match `pattern`, as texts, in
/// the order the walk yields them; `None` stands for an entry whose directory
/// could not be read. Which paths come back depends on what is on disk, so
/// nothing is claimed of them. A pattern is refused only for a `[` that opens
/// no character class or for `*` in a row that are no whole component, so one
/// with neither is searched. The walk fails on a file name that is not UTF-8
/// where a leading dot must be matched literally, so that option has to be off.
#[verifier::external_body]
fn glob_paths(
    pattern: &str,
    case_sensitive: bool,
    require_literal_separator: bool,
    require_literal_leading_dot: bool,
) -> (r: Result<Vec<Option<String>>, glob::PatternError>)
    requires
        !require_literal_leading_dot,
    ensures
        simple_pattern(pattern@) ==> r is Ok,
{
    let options = glob::MatchOptions {
        case_sensitive,
        require_literal_separator,
        require_literal_leading_dot,
    };
    let paths = glob::glob_with(pattern, options)?;
    Ok(paths.map(|found| found.ok().map(|path| path.display().to_string())).collect())
}

/// Looking for a simple pattern below a plain directory makes a simple pattern.
pub proof fn lemma_pattern_of_plain_directory(search_dir: Seq<char>, pattern: Seq<char>)
    requires
        plain_directory(search_dir),
        simple_pattern(pattern),
    ensures
        simple_pattern(glob_pattern(search_dir, pattern)),
{
    reveal_strlit("/");
    let whole = glob_pattern(search_dir, pattern);
    let head = if "/"@.is_suffix_of(search_dir) {
        search_dir
    } else {
        search_dir + "/"@
    };
    assert(whole =~= head + pattern);
    assert(head.len() > 0 && head.last() == '/') by {
        assert("/"@ =~= seq!['/']);
        if "/"@.is_suffix_of(search_dir) {
            assert(search_dir.subrange(search_dir.len() - 1, search_dir.len() as int)[0] == '/');
        }
    }
    assert forall|i: int| 0 <= i < head.len() implies head[i] != '*' && head[i] != '[' by {
        if i < search_dir.len() {
            assert(head[i] == search_dir[i]);
        }
    }
    assert forall|i: int| 0 <= i < whole.len() implies whole[i] != '[' by {
        if i >= head.len() {
            assert(whole[i] == pattern[i - head.len()]);
        }
    }
    assert forall|i: int| 0 <= i < whole.len() - 1 implies !(#[trigger] whole[i] == '*' && whole[i
        + 1] == '*') by {
        if i >= head.len() {
            assert(whole[i] == pattern[i - head.len()]);
            assert(whole[i + 1] == pattern[i - head.len() + 1]);
        }
    }
}

/// The glob pattern that looks for `pattern` below `search_dir`.
pub fn search_pattern(search_dir: &str, pattern: &str) -> (r: String)
    ensures
        r@ == glob_pattern(search_dir@, pattern@),
{
    let mut glob_path = search_dir.to_owned();
    if !ends_with(search_dir, "/") {
        glob_path.append("/");
    }
    glob_path.append(pattern);
    glob_path
}

/// Searches `search_dir` for `pattern`, without regard to the case of
/// letters, and appends what is found and not reserved to `classpath`, in the
/// order found. Where `debug` is set, `journal` gets a note for each entry.
/// A `search_dir` whose name makes no valid glob pattern is reported, and
/// nothing is appended; that does not happen to a plain directory name.
pub fn add_jars(
    debug: bool,
    search_dir: &str,
    pattern: &str,
    classpath: &mut Vec<String>,
    journal: &mut Vec<String>,
) -> (r: Result<(), LaunchError>)
    ensures
        plain_directory(search_dir@) && simple_pattern(pattern@) ==> r is Ok,
        match r {
            Ok(_) => exists|found: Seq<Option<Seq<char>>>|
                {
                    &&& texts(final(classpath)@) == texts(old(classpath)@) + #[trigger] kept(found)
                    &&& texts(final(journal)@) == texts(old(journal)@) + entry_notes(
                        debug,
                        kept(found),
                    )
                },
            Err(e) => {
                &&& e matches LaunchError::BadPattern { pattern: refused, .. }
                &&& refused@ == glob_pattern(search_dir@, pattern@)
                &&& final(classpath)@ == old(classpath)@
                &&& final(journal)@ == old(journal)@
            },
        },
{
    let glob_path = search_pattern(search_dir, pattern);
    proof {
        if plain_directory(search_dir@) && simple_pattern(pattern@) {
            lemma_pattern_of_plain_directory(search_dir@, pattern@);
        }
    }
    match glob_paths(glob_path.as_str(), false, false, false) {
        Ok(found) => {
            keep_jars(debug, &found, classpath, journal);
            assert(texts(classpath@) == texts(old(classpath)@) + kept(found_texts(found@)));
            Ok(())
        },
        Err(e) => Err(LaunchError::BadPattern { pattern: glob_path, reason: e.to_string() }),
    }
}

/// The classpath option for `entries` on a platform whose path lists are separated by `sep`.
pub fn classpath_flag(entries: &Vec<String>, sep: &str) -> (r: String)
    ensures
        r@ == classpath_option(texts(entries@), sep@),
{
    let joined = join_with(entries, sep);
    with_prefix(CLASSPATH_OPTION, joined.as_str())
}

/// Builds the classpath option for the JVM: the JARs of `install_dir`, then
/// those of the host's `ndext` directory, then those of its `jvm/lib/ext`
/// directory, each in the order found and without the reserved ones, joined
/// by the path-list separator of the platform named `os`.
pub fn build_classpath_arg(
    debug: bool,
    notes_dir: &str,
    install_dir: &str,
    os: &str,
    journal: &mut Vec<String>,
) -> (r: Result<String, LaunchError>)
    ensures
        match r {
            Ok(cp) => exists|
                addin: Seq<Option<Seq<char>>>,
                host: Seq<Option<Seq<char>>>,
                jvm: Seq<Option<Seq<char>>>,
            |
                {
                    &&& cp@ == classpath_option(
                        #[trigger] classpath_entries(addin, host, jvm),
                        separator_for(os@),
                    )
                    &&& texts(final(journal)@) == texts(old(journal)@) + entry_notes(
                        debug,
                        classpath_entries(addin, host, jvm),
                    )
                },
            Err(e) => {
                &&& e matches LaunchError::BadPattern { pattern: refused, .. }
                &&& refused@ == glob_pattern(install_dir@, ADDIN_JARS@) || refused@
                    == glob_pattern(notes_dir@, HOST_EXTENSIONS@) || refused@ == glob_pattern(
                    notes_dir@,
                    JVM_EXTENSIONS@,
                )
                &&& texts(old(journal)@).is_prefix_of(texts(final(journal)@))
            },
        },
        plain_directory(notes_dir@) && plain_directory(install_dir@) ==> r is Ok,
{
    proof {
        reveal_strlit("*.jar");
        reveal_strlit("ndext/*.jar");
        reveal_strlit("jvm/lib/ext/*.jar");
        assert(simple_pattern(ADDIN_JARS@));
        assert(simple_pattern(HOST_EXTENSIONS@));
        assert(simple_pattern(JVM_EXTENSIONS@));
    }
    let mut classpath: Vec<String> = Vec::new();
    let ghost start = texts(journal@);

    add_jars(debug, install_dir, ADDIN_JARS, &mut classpath, journal)?;
    let ghost addin = choose|found: Seq<Option<Seq<char>>>|
        {
            &&& texts(classpath@) == Seq::<Seq<char>>::empty() + #[trigger] kept(found)
            &&& texts(journal@) == start + entry_notes(debug, kept(found))
        };
    let ghost first = texts(classpath@);
    let ghost first_notes = texts(journal@);

    add_jars(debug, notes_dir, HOST_EXTENSIONS, &mut classpath, journal)?;
    let ghost host = choose|found: Seq<Option<Seq<char>>>|
        {
            &&& texts(classpath@) == first + #[trigger] kept(found)
            &&& texts(journal@) == first_notes + entry_notes(debug, kept(found))
        };
    let ghost second = texts(classpath@);
    let ghost second_notes = texts(journal@);

    add_jars(debug, notes_dir, JVM_EXTENSIONS, &mut classpath, journal)?;
    let ghost jvm = choose|found: Seq<Option<Seq<char>>>|
        {
            &&& texts(classpath@) == second + #[trigger] kept(found)
            &&& texts(journal@) == second_notes + entry_notes(debug, kept(found))
        };

    let cp = classpath_flag(&classpath, path_sep(os));
    proof {
        let all = classpath_entries(addin, host, jvm);
        assert(texts(classpath@) =~= all);
        assert(texts(journal@) =~= start + entry_notes(debug, all));
        assert(cp@ == classpath_option(all, separator_for(os@)));
    }
    Ok(cp)
}

/// The file name of a path is its end, holds no separator, and starts right
/// behind one unless it is the whole path.
pub proof fn lemma_file_name(path: Seq<char>)
    ensures
        file_name(path).is_suffix_of(path),
        forall|i: int|
            0 <= i < file_name(path).len() ==> !is_separator(#[trigger] file_name(path)[i]),
        file_name(path).len() < path.len() ==> is_separator(
            path[path.len() - file_name(path).len() - 1],
        ),
    decreases path.len(),
{
    if path.len() > 0 && !is_separator(path.last()) {
        lemma_file_name(path.drop_last());
        let shorter = file_name(path.drop_last());
        assert(file_name(path) =~= path.subrange(
            path.len() - file_name(path).len(),
            path.len() as int,
        )) by {
            assert(shorter =~= path.drop_last().subrange(
                path.len() - 1 - shorter.len(),
                path.len() - 1,
            ));
        }
    }
}

/// A name without a separator in it ends a path exactly if it ends the path's file name.
pub proof fn lemma_suffix_of_file_name(name: Seq<char>, path: Seq<char>)
    requires
        forall|i: int| 0 <= i < name.len() ==> !is_separator(#[trigger] name[i]),
    ensures
        name.is_suffix_of(path) <==> name.is_suffix_of(file_name(path)),
{
    lemma_file_name(path);
    let file = file_name(path);
    let start = path.len() - file.len();
    assert(file =~= path.subrange(start, path.len() as int));
    if name.is_suffix_of(path) {
        let from = path.len() - name.len();
        assert(name =~= path.subrange(from, path.len() as int));
        if name.len() > file.len() {
            assert(name[start - 1 - from] == path[start - 1]);
            assert(false);
        }
        assert(name =~= file.subrange(file.len() - name.len(), file.len() as int));
    }
    if name.is_suffix_of(file) {
        assert(name =~= file.subrange(file.len() - name.len(), file.len() as int));
        assert(name =~= path.subrange(path.len() - name.len(), path.len() as int));
    }
}

/// A path is left out of the classpath exactly if its file name ends with
/// one of the two reserved names, letter for letter.
pub proof fn lemma_reserved_by_file_name(path: Seq<char>)
    ensures
        is_reserved(path) <==> (RESERVED_SERVLET_JAR@.is_suffix_of(file_name(path))
            || RESERVED_GUAVA_JAR@.is_suffix_of(file_name(path))),
{
    reveal_strlit("jsdk.jar");
    reveal_strlit("guava.jar");
    lemma_suffix_of_file_name(RESERVED_SERVLET_JAR@, path);
    lemma_suffix_of_file_name(RESERVED_GUAVA_JAR@, path);
}

/// What is kept of a search is what it found, in the order found, less the
/// entries that could not be read and the reserved ones: searches put end to
/// end keep what each keeps, and a single entry is kept or not by itself.
pub proof fn lemma_kept_in_order(first: Seq<Option<Seq<char>>>, second: Seq<Option<Seq<char>>>)
    ensures
        kept(first + second) == kept(first) + kept(second),
        forall|path: Seq<char>|
            !is_reserved(path) ==> #[trigger] kept(seq![Some(path)]) == seq![path],
        forall|path: Seq<char>| is_reserved(path) ==> #[trigger] kept(seq![Some(path)]).len() == 0,
        kept(seq![None::<Seq<char>>]).len() == 0,
    decreases second.len(),
{
    if second.len() == 0 {
        assert(first + second =~= first);
        assert(kept(first + second) =~= kept(first) + kept(second));
    } else {
        lemma_kept_in_order(first, second.drop_last());
        assert((first + second).drop_last() =~= first + second.drop_last());
        assert((first + second).last() == second.last());
        assert(kept(first + second) =~= kept(first) + kept(second));
    }
    assert forall|path: Seq<char>| !is_reserved(path) implies #[trigger] kept(seq![Some(path)])
        == seq![path] by {
        let one = seq![Some(path)];
        assert(kept(one.drop_last()).len() == 0);
        assert(kept(one) =~= seq![path]);
    }
    assert forall|path: Seq<char>| is_reserved(path) implies #[trigger] kept(
        seq![Some(path)],
    ).len() == 0 by {
        let one = seq![Some(path)];
        assert(kept(one.drop_last()).len() == 0);
    }
    assert(kept(seq![None::<Seq<char>>].drop_last()).len() == 0);
}

/// No entry of the classpath is a reserved one.
pub proof fn lemma_kept_holds_no_reserved(found: Seq<Option<Seq<char>>>)
    ensures
        forall|i: int| 0 <= i < kept(found).len() ==> !is_reserved(#[trigger] kept(found)[i]),
    decreases found.len(),
{
    if found.len() > 0 {
        lemma_kept_holds_no_reserved(found.drop_last());
        let before = kept(found.drop_last());
        assert forall|i: int| 0 <= i < kept(found).len() implies !is_reserved(
            #[trigger] kept(found)[i],
        ) by {
            if i < before.len() {
                assert(kept(found)[i] == before[i]);
            }
        }
    }
}

/// The path-list separator of every platform is a single character.
pub proof fn lemma_separator_is_one_char(os: Seq<char>)
    ensures
        separator_for(os) == seq![separator_char(os)],
{
    reveal_strlit(";");
    reveal_strlit(":");
    assert(separator_for(os) =~= seq![separator_char(os)]);
}

/// The classpath, split on the platform's separator, is what the three
/// searches found, in search order and without the reserved entries. This
/// holds where there is an entry at all and no entry has the separator in
/// its name: the classpath of no entries is empty, and splits into one empty
/// piece.
pub proof fn lemma_classpath_splits_back(
    addin: Seq<Option<Seq<char>>>,
    host: Seq<Option<Seq<char>>>,
    jvm: Seq<Option<Seq<char>>>,
    os: Seq<char>,
)
    requires
        classpath_entries(addin, host, jvm).len() > 0,
        forall|i: int|
            0 <= i < classpath_entries(addin, host, jvm).len() ==> !(#[trigger] classpath_entries(
                addin,
                host,
                jvm,
            )[i]).contains(separator_char(os)),
    ensures
        split_on(
            classpath_option(classpath_entries(addin, host, jvm), separator_for(os)).skip(
                CLASSPATH_OPTION@.len() as int,
            ),
            separator_char(os),
        ) == kept(addin) + kept(host) + kept(jvm),
        forall|i: int|
            0 <= i < classpath_entries(addin, host, jvm).len() ==> !is_reserved(
                #[trigger] classpath_entries(addin, host, jvm)[i],
            ),
{
    let entries = classpath_entries(addin, host, jvm);
    lemma_separator_is_one_char(os);
    lemma_split_join(entries, separator_char(os));
    assert(classpath_option(entries, separator_for(os)).skip(CLASSPATH_OPTION@.len() as int)
        =~= join(entries, separator_for(os)));
    lemma_kept_holds_no_reserved(addin);
    lemma_kept_holds_no_reserved(host);
    lemma_kept_holds_no_reserved(jvm);
}

} // verus!

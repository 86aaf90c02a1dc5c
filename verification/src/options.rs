//! The options the embedded JVM is started with, and the order they come in.

use crate::classpath::{
    build_classpath_arg, classpath_entries, classpath_option, entry_notes, plain_directory,
    separator_for,
};
use crate::error::LaunchError;
use crate::journal::{log_line, record};
use crate::settings::{
    check_ini_bool, flag_set, lookup, Settings, ADDITIONAL_JAVA_PARAMS, JAVA_DEBUG,
    JAVA_DEBUG_CMD, JAVA_HEAP_IN_MB, TEMP_DIRECTORY,
};
use crate::text::{
    escape_ascii, escaped, extend_texts, push_text, starts_with_char, texts, with_prefix,
};
use vstd::prelude::*;

verus! {

/// The remote-debug agent option used where the settings name no other.
pub const DEFAULT_JAVA_DEBUG_CMD: &'static str =
    "-agentlib:jdwp=transport=dt_socket,server=y,address=0.0.0.0:8000,suspend=y";

/// The options every launch starts with. Both spellings of the string
/// deduplication flag are passed, since which one a JVM knows depends on its
/// version; the last flag keeps the JVM from refusing the other.
pub open spec fn standard_options() -> Seq<Seq<char>> {
    seq![
        "-XX:+HeapDumpOnOutOfMemoryError"@,
        "-XX:+UseG1GC"@,
        "-XX:+UseStringDeduplicationJVM"@,
        "-XX:+UseStringDeduplication"@,
        "-XX:+IgnoreUnrecognizedVMOptions"@,
    ]
}

/// The option that sets the JVM's temporary directory to `dir`.
pub open spec fn temp_dir_option(dir: Seq<char>) -> Seq<char> {
    "-Djava.io.tmpdir="@ + dir
}

/// The option that sets the JVM's maximum heap size to `megabytes`.
pub open spec fn heap_option(megabytes: Seq<char>) -> Seq<char> {
    "-Xmx"@ + megabytes + "m"@
}

/// A line of an options file as an option: lines that do not start with `-` get one in front.
pub open spec fn dashed(line: Seq<char>) -> Seq<char> {
    if line.len() > 0 && line[0] == '-' {
        line
    } else {
        "-"@ + line
    }
}

/// Every line of an options file as an option, in file order.
pub open spec fn dashed_lines(lines: Seq<Seq<char>>) -> Seq<Seq<char>> {
    Seq::new(lines.len(), |i: int| dashed(lines[i]))
}

/// The temporary-directory option, where the settings ask for one.
pub open spec fn temp_dir_options(vars: Map<Seq<char>, Seq<char>>) -> Seq<Seq<char>> {
    match lookup(vars, TEMP_DIRECTORY@) {
        Some(dir) => seq![temp_dir_option(dir)],
        None => Seq::empty(),
    }
}

/// The heap-size option, where the settings ask for one.
pub open spec fn heap_options(vars: Map<Seq<char>, Seq<char>>) -> Seq<Seq<char>> {
    match lookup(vars, JAVA_HEAP_IN_MB@) {
        Some(megabytes) => seq![heap_option(megabytes)],
        None => Seq::empty(),
    }
}

/// The remote-debug agent option, where the settings switch Java debugging on.
pub open spec fn debug_agent_options(vars: Map<Seq<char>, Seq<char>>) -> Seq<Seq<char>> {
    if flag_set(vars, JAVA_DEBUG@) {
        match lookup(vars, JAVA_DEBUG_CMD@) {
            Some(cmd) => seq![cmd],
            None => seq![DEFAULT_JAVA_DEBUG_CMD@],
        }
    } else {
        Seq::empty()
    }
}

/// All options but the classpath, in launch order: the standard ones, the
/// temporary directory, the heap size, the free-form `words`, the lines of the
/// options file, and the remote-debug agent.
pub open spec fn options_before_classpath(
    vars: Map<Seq<char>, Seq<char>>,
    words: Seq<Seq<char>>,
    lines: Seq<Seq<char>>,
) -> Seq<Seq<char>> {
    standard_options() + temp_dir_options(vars) + heap_options(vars) + words + dashed_lines(lines)
        + debug_agent_options(vars)
}

/// `shell_words::ParseError`: why a text could not be split. It is handed on as it is.
#[verifier::external_type_specification]
#[verifier::external_body]
pub struct ExParseError(shell_words::ParseError);

/// The words `shell_words::split` finds in `line`, or `None` where it reports an error.
pub uninterp spec fn shell_split(line: Seq<char>) -> Option<Seq<Seq<char>>>;

/// `shell_words::split` reads nothing but its argument, so what it returns is
/// a function of the text alone; the contract gives that result its name.
pub assume_specification[ shell_words::split ](s: &str) -> (r: Result<
    Vec<String>,
    shell_words::ParseError,
>)
    ensures
        match r {
            Ok(words) => shell_split(s@) == Some(texts(words@)),
            Err(_) => shell_split(s@) is None,
        },
;

/// The free-form options of `value`, already split: none where the split fails.
pub open spec fn words_or_none(split: Option<Seq<Seq<char>>>) -> Seq<Seq<char>> {
    match split {
        Some(words) => words,
        None => Seq::empty(),
    }
}

/// The free-form options the settings ask for, split as a shell would.
pub open spec fn additional_words(vars: Map<Seq<char>, Seq<char>>) -> Seq<Seq<char>> {
    match lookup(vars, ADDITIONAL_JAVA_PARAMS@) {
        Some(value) => words_or_none(shell_split(value)),
        None => Seq::empty(),
    }
}

/// Whether the settings hold free-form options that cannot be split.
pub open spec fn additional_params_malformed(vars: Map<Seq<char>, Seq<char>>) -> bool {
    match lookup(vars, ADDITIONAL_JAVA_PARAMS@) {
        Some(value) => shell_split(value) is None,
        None => false,
    }
}

/// What is logged when the free-form options `value` cannot be split for `reason`.
pub open spec fn parse_failure_message(value: Seq<char>, reason: Seq<char>) -> Seq<char> {
    "Unable to parse JVM arguments \""@ + value + "\": "@ + reason
}

/// What is logged when the free-form options `value` cannot be split for `reason`.
pub fn parse_failure(value: &str, reason: &str) -> (r: String)
    ensures
        r@ == parse_failure_message(value@, reason@),
{
    let mut msg = with_prefix("Unable to parse JVM arguments \"", value);
    msg.append("\": ");
    msg.append(reason);
    msg
}

/// What becomes of free-form options once they are split: the words where
/// the split went well, and no words and a note in `journal` where it failed,
/// for the reason given. `value` is the text that was split.
pub fn words_or_skip(
    value: &str,
    split: Result<Vec<String>, String>,
    journal: &mut Vec<String>,
) -> (r: Vec<String>)
    ensures
        match split {
            Ok(words) => r == words && final(journal)@ == old(journal)@,
            Err(reason) => r@.len() == 0 && texts(final(journal)@) == texts(old(journal)@).push(
                log_line(parse_failure_message(value@, reason@)),
            ),
        },
{
    match split {
        Ok(words) => words,
        Err(reason) => {
            let msg = parse_failure(value, reason.as_str());
            record(journal, msg.as_str());
            Vec::new()
        },
    }
}

/// The free-form options of the settings, split as a shell would. Options
/// that cannot be split are skipped, and `journal` says so.
pub fn additional_params(settings: &Settings, journal: &mut Vec<String>) -> (r: Vec<String>)
    ensures
        texts(r@) == additional_words(settings@),
        !additional_params_malformed(settings@) ==> final(journal)@ == old(journal)@,
        additional_params_malformed(settings@) ==> exists|reason: Seq<char>|
            texts(final(journal)@) == texts(old(journal)@).push(
                log_line(
                    parse_failure_message(
                        lookup(settings@, ADDITIONAL_JAVA_PARAMS@).unwrap(),
                        reason,
                    ),
                ),
            ),
{
    match settings.get(ADDITIONAL_JAVA_PARAMS) {
        Some(value) => {
            let split = match shell_words::split(value.as_str()) {
                Ok(words) => Ok(words),
                Err(e) => Err(e.to_string()),
            };
            let words = words_or_skip(value.as_str(), split, journal);
            assert(texts(words@) =~= additional_words(settings@));
            words
        },
        None => Vec::new(),
    }
}

/// What the settings' free-form options add to the log: a line where they could not be split.
pub open spec fn failure_notes(vars: Map<Seq<char>, Seq<char>>, reason: Seq<char>) -> Seq<
    Seq<char>,
> {
    if additional_params_malformed(vars) {
        seq![
            log_line(
                parse_failure_message(lookup(vars, ADDITIONAL_JAVA_PARAMS@).unwrap(), reason),
            ),
        ]
    } else {
        Seq::empty()
    }
}

/// What verbose logging says of one option: the option in double quotes, in ASCII.
pub open spec fn option_note(opt: Seq<char>) -> Seq<char> {
    log_line("* \""@ + escaped(opt) + "\""@)
}

/// What verbose logging says of the options: a heading, then a line for each option.
pub open spec fn listing(debug: bool, opts: Seq<Seq<char>>) -> Seq<Seq<char>> {
    if debug {
        seq![log_line("Launching JVM with arguments:"@)] + Seq::new(
            opts.len(),
            |i: int| option_note(opts[i]),
        )
    } else {
        Seq::empty()
    }
}

/// All options in launch order: those before the classpath, with the
/// settings' free-form options split as a shell would, and the classpath
/// option for `entries` last.
pub open spec fn launch_options(
    vars: Map<Seq<char>, Seq<char>>,
    lines: Seq<Seq<char>>,
    entries: Seq<Seq<char>>,
    sep: Seq<char>,
) -> Seq<Seq<char>> {
    options_before_classpath(vars, additional_words(vars), lines).push(
        classpath_option(entries, sep),
    )
}

/// What assembling the options adds to the log: the note of free-form
/// options that could not be split, the listing of the options before the
/// classpath, and the notes of the classpath's entries.
pub open spec fn launch_notes(
    debug: bool,
    vars: Map<Seq<char>, Seq<char>>,
    lines: Seq<Seq<char>>,
    reason: Seq<char>,
    entries: Seq<Seq<char>>,
) -> Seq<Seq<char>> {
    failure_notes(vars, reason) + listing(
        debug,
        options_before_classpath(vars, additional_words(vars), lines),
    ) + entry_notes(debug, entries)
}

/// A line of an options file as an option.
pub fn option_from_line(line: &str) -> (r: String)
    ensures
        r@ == dashed(line@),
{
    if starts_with_char(line, '-') {
        line.to_owned()
    } else {
        with_prefix("-", line)
    }
}

/// The lines of an options file as options, in file order.
pub fn options_from_lines(lines: &Vec<String>) -> (r: Vec<String>)
    ensures
        texts(r@) == dashed_lines(texts(lines@)),
{
    let mut out: Vec<String> = Vec::new();
    let mut i: usize = 0;
    while i < lines.len()
        invariant
            i <= lines.len(),
            texts(out@) == dashed_lines(texts(lines@)).take(i as int),
        decreases lines.len() - i,
    {
        push_text(&mut out, option_from_line(lines[i].as_str()));
        assert(texts(out@) =~= dashed_lines(texts(lines@)).take(i + 1));
        i += 1;
    }
    assert(dashed_lines(texts(lines@)).take(i as int) =~= dashed_lines(texts(lines@)));
    out
}

/// All options but the classpath, in launch order, from the settings, the
/// free-form options already split into `words`, and the lines of the options file.
pub fn assemble_options(settings: &Settings, words: &Vec<String>, lines: &Vec<String>) -> (r: Vec<
    String,
>)
    ensures
        texts(r@) == options_before_classpath(settings@, texts(words@), texts(lines@)),
{
    let mut opts: Vec<String> = Vec::new();
    push_text(&mut opts, "-XX:+HeapDumpOnOutOfMemoryError".to_owned());
    push_text(&mut opts, "-XX:+UseG1GC".to_owned());
    push_text(&mut opts, "-XX:+UseStringDeduplicationJVM".to_owned());
    push_text(&mut opts, "-XX:+UseStringDeduplication".to_owned());
    push_text(&mut opts, "-XX:+IgnoreUnrecognizedVMOptions".to_owned());
    assert(texts(opts@) =~= standard_options());

    match settings.get(TEMP_DIRECTORY) {
        Some(dir) => {
            push_text(&mut opts, with_prefix("-Djava.io.tmpdir=", dir.as_str()));
        },
        None => {},
    }
    assert(texts(opts@) =~= standard_options() + temp_dir_options(settings@));

    match settings.get(JAVA_HEAP_IN_MB) {
        Some(megabytes) => {
            let mut opt = with_prefix("-Xmx", megabytes.as_str());
            opt.append("m");
            push_text(&mut opts, opt);
        },
        None => {},
    }
    assert(texts(opts@) =~= standard_options() + temp_dir_options(settings@) + heap_options(
        settings@,
    ));

    extend_texts(&mut opts, words);
    let from_file = options_from_lines(lines);
    extend_texts(&mut opts, &from_file);

    if check_ini_bool(settings, JAVA_DEBUG) {
        match settings.get(JAVA_DEBUG_CMD) {
            Some(cmd) => {
                push_text(&mut opts, cmd);
            },
            None => {
                push_text(&mut opts, DEFAULT_JAVA_DEBUG_CMD.to_owned());
            },
        }
    }
    assert(texts(opts@) =~= options_before_classpath(settings@, texts(words@), texts(lines@)));
    opts
}

/// Writes the options to `journal` where `debug` is set: a heading, then a
/// line for each option, in order.
pub fn list_options(debug: bool, opts: &Vec<String>, journal: &mut Vec<String>)
    ensures
        texts(final(journal)@) == texts(old(journal)@) + listing(debug, texts(opts@)),
{
    if !debug {
        assert(texts(journal@) =~= texts(old(journal)@) + listing(debug, texts(opts@)));
        return ;
    }
    record(journal, "Launching JVM with arguments:");
    let mut i: usize = 0;
    while i < opts.len()
        invariant
            debug,
            i <= opts.len(),
            texts(journal@) == texts(old(journal)@) + listing(debug, texts(opts@).take(i as int)),
        decreases opts.len() - i,
    {
        let shown = escape_ascii(opts[i].as_str());
        let mut note = with_prefix("* \"", shown.as_str());
        note.append("\"");
        record(journal, note.as_str());
        assert(texts(journal@) =~= texts(old(journal)@) + listing(
            debug,
            texts(opts@).take(i + 1),
        ));
        i += 1;
    }
    assert(texts(opts@).take(i as int) =~= texts(opts@));
}

/// The options the JVM is started with, in launch order: those of
/// `assemble_options`, with the settings' free-form options split as a shell
/// would, and the classpath option last. `journal` is told of free-form
/// options that cannot be split, and, where `debug` is set, of the options
/// before the classpath and of each classpath entry.
pub fn jvm_options(
    debug: bool,
    settings: &Settings,
    lines: &Vec<String>,
    exec_dir: &str,
    install_dir: &str,
    os: &str,
    journal: &mut Vec<String>,
) -> (r: Result<Vec<String>, LaunchError>)
    ensures
        match r {
            Ok(opts) => exists|
                reason: Seq<char>,
                addin: Seq<Option<Seq<char>>>,
                host: Seq<Option<Seq<char>>>,
                jvm: Seq<Option<Seq<char>>>,
            |
                {
                    &&& texts(opts@) == launch_options(
                        settings@,
                        texts(lines@),
                        classpath_entries(addin, host, jvm),
                        separator_for(os@),
                    )
                    &&& texts(final(journal)@) == texts(old(journal)@) + #[trigger] launch_notes(
                        debug,
                        settings@,
                        texts(lines@),
                        reason,
                        classpath_entries(addin, host, jvm),
                    )
                },
            Err(e) => e is BadPattern && texts(old(journal)@).is_prefix_of(
                texts(final(journal)@),
            ),
        },
        plain_directory(exec_dir@) && plain_directory(install_dir@) ==> r is Ok,
{
    let words = additional_params(settings, journal);
    let ghost reason = if additional_params_malformed(settings@) {
        choose|why: Seq<char>|
            texts(journal@) == texts(old(journal)@).push(
                log_line(
                    #[trigger] parse_failure_message(
                        lookup(settings@, ADDITIONAL_JAVA_PARAMS@).unwrap(),
                        why,
                    ),
                ),
            )
    } else {
        Seq::empty()
    };
    assert(texts(journal@) =~= texts(old(journal)@) + failure_notes(settings@, reason));
    let ghost after_words = texts(journal@);
    let mut opts = assemble_options(settings, &words, lines);
    let ghost before = texts(opts@);

    list_options(debug, &opts, journal);
    let ghost after_listing = texts(journal@);

    let cp = build_classpath_arg(debug, exec_dir, install_dir, os, journal)?;
    proof {
        let (addin, host, jvm) = choose|
            addin: Seq<Option<Seq<char>>>,
            host: Seq<Option<Seq<char>>>,
            jvm: Seq<Option<Seq<char>>>,
        |
            {
                &&& cp@ == classpath_option(
                    #[trigger] classpath_entries(addin, host, jvm),
                    separator_for(os@),
                )
                &&& texts(journal@) == after_listing + entry_notes(
                    debug,
                    classpath_entries(addin, host, jvm),
                )
            };
        let entries = classpath_entries(addin, host, jvm);
        assert(texts(journal@) == texts(old(journal)@) + launch_notes(
            debug,
            settings@,
            texts(lines@),
            reason,
            entries,
        ));
        assert(before.push(cp@) == launch_options(
            settings@,
            texts(lines@),
            entries,
            separator_for(os@),
        ));
    }
    push_text(&mut opts, cp);
    Ok(opts)
}

/// The options start with the standard ones and end with the classpath option.
pub proof fn lemma_classpath_option_is_last(
    vars: Map<Seq<char>, Seq<char>>,
    lines: Seq<Seq<char>>,
    entries: Seq<Seq<char>>,
    sep: Seq<char>,
)
    ensures
        launch_options(vars, lines, entries, sep).len() > standard_options().len(),
        launch_options(vars, lines, entries, sep).take(standard_options().len() as int)
            == standard_options(),
        launch_options(vars, lines, entries, sep).last() == classpath_option(entries, sep),
{
    let opts = launch_options(vars, lines, entries, sep);
    assert(opts.take(standard_options().len() as int) =~= standard_options());
}

/// Where the settings name a heap size, the option that sets it stands
/// behind the standard options and before the classpath option.
pub proof fn lemma_heap_option_position(
    vars: Map<Seq<char>, Seq<char>>,
    lines: Seq<Seq<char>>,
    entries: Seq<Seq<char>>,
    sep: Seq<char>,
) -> (at: int)
    requires
        lookup(vars, JAVA_HEAP_IN_MB@) is Some,
    ensures
        standard_options().len() <= at < launch_options(vars, lines, entries, sep).len() - 1,
        launch_options(vars, lines, entries, sep)[at] == heap_option(
            lookup(vars, JAVA_HEAP_IN_MB@).unwrap(),
        ),
        launch_options(vars, lines, entries, sep).last() == classpath_option(entries, sep),
{
    (standard_options().len() + temp_dir_options(vars).len()) as int
}

/// Every line of the options file gives one option, with a `-` in front
/// where the line has none, and the options stand in the order of the lines,
/// behind the standard options and before the classpath option.
pub proof fn lemma_file_options_in_order(
    vars: Map<Seq<char>, Seq<char>>,
    lines: Seq<Seq<char>>,
    entries: Seq<Seq<char>>,
    sep: Seq<char>,
) -> (from: int)
    ensures
        standard_options().len() <= from,
        from + lines.len() < launch_options(vars, lines, entries, sep).len(),
        forall|i: int|
            0 <= i < lines.len() ==> #[trigger] launch_options(vars, lines, entries, sep)[from + i]
                == dashed(lines[i]),
        forall|i: int|
            0 <= i < lines.len() ==> dashed(#[trigger] lines[i]).len() > 0 && dashed(lines[i])[0]
                == '-',
{
    reveal_strlit("-");
    (standard_options().len() + temp_dir_options(vars).len() + heap_options(vars).len()
        + additional_words(vars).len()) as int
}

} // verus!

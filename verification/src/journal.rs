//! The lines the launcher writes to the host's log.

use crate::text::{push_text, texts, with_prefix};
use vstd::prelude::*;

verus! {

/// The name under which the addin reports to the host's log.
pub const NAME: &'static str = "Rust Addin";

/// `msg` as it appears in the host's log: the addin's name, a colon, a space and `msg`.
pub open spec fn log_line(msg: Seq<char>) -> Seq<char> {
    NAME@ + ": "@ + msg
}

/// Formats `msg` for the host's log.
pub fn log(msg: &str) -> (r: String)
    ensures
        r@ == log_line(msg@),
{
    let mut line = with_prefix(NAME, ": ");
    line.append(msg);
    line
}

/// Appends `msg`, formatted for the host's log, to `journal`.
pub fn record(journal: &mut Vec<String>, msg: &str)
    ensures
        texts(final(journal)@) == texts(old(journal)@).push(log_line(msg@)),
{
    push_text(journal, log(msg));
}

} // verus!

//! What the host hands over through its native interface, read into plain
//! values: text in fixed-size buffers, and status words.

use vstd::prelude::*;
use vstd::slice::slice_subrange;
use vstd::utf8::{decode_utf8, valid_utf8};

verus! {

/// The size of the buffer a directory query of the host fills.
pub const MAXPATH: usize = 256;

/// The size of the buffer a variable query of the host fills.
pub const MAXENVVALUE: usize = 256;

/// The message queue that exists while an instance of the addin runs.
pub const QUEUE_NAME: &'static str = "MQ$RUSTADDIN";

/// The class whose `main` the launcher calls.
pub const ENTRY_CLASS: &'static str = "com/hcl/example/addin/ExampleAddin";

/// What a variable query of the host came back with.
#[derive(Debug)]
pub enum HostValue {
    /// The host knows no variable of that name.
    Missing,
    /// The variable's value, which may be empty.
    Text(String),
    /// The variable is set, but its value is no valid text.
    Undecodable,
}

/// The position of the first zero byte in `buffer`, or `buffer.len()` where there is none.
pub open spec fn text_end(buffer: Seq<u8>) -> nat
    decreases buffer.len(),
{
    if buffer.len() == 0 || buffer[0] == 0 {
        0
    } else {
        1 + text_end(buffer.skip(1))
    }
}

/// The bytes of `buffer` before its first zero byte: all of it where there is none.
pub open spec fn text_bytes(buffer: Seq<u8>) -> Seq<u8> {
    buffer.take(text_end(buffer) as int)
}

/// The text a buffer holds: what the bytes before its first zero byte
/// encode in UTF-8, or `None` where they are not well-formed.
pub open spec fn buffer_text(buffer: Seq<u8>) -> Option<Seq<char>> {
    if valid_utf8(text_bytes(buffer)) {
        Some(decode_utf8(text_bytes(buffer)))
    } else {
        None
    }
}

/// What a variable query came back with, from the length it reported and
/// the buffer it filled. A length of zero means that the variable is not set.
pub open spec fn variable_value(found: usize, buffer: Seq<u8>) -> Option<Option<Seq<char>>> {
    if found == 0 {
        None
    } else {
        Some(buffer_text(buffer))
    }
}

/// The first zero byte of `buffer` is where the scan from the left first meets one.
pub proof fn lemma_text_end(buffer: Seq<u8>, n: int)
    requires
        0 <= n <= buffer.len(),
        forall|i: int| 0 <= i < n ==> buffer[i] != 0,
        n == buffer.len() || buffer[n] == 0,
    ensures
        text_end(buffer) == n,
    decreases n,
{
    if n > 0 {
        lemma_text_end(buffer.skip(1), n - 1);
    }
}

/// `core::str::from_utf8`: succeeds on exactly the byte strings that are
/// well-formed UTF-8, with the text that they encode.
#[verifier::external_body]
fn utf8_text(bytes: &[u8]) -> (r: Option<String>)
    ensures
        r is Some <==> valid_utf8(bytes@),
        r matches Some(text) ==> text@ == decode_utf8(bytes@),
{
    match std::str::from_utf8(bytes) {
        Ok(text) => Some(text.to_owned()),
        Err(_) => None,
    }
}

/// Reads the text a query of the host left in `buffer`: the bytes before
/// the first zero byte, or all of them where there is none. `None` where
/// those bytes are no well-formed UTF-8.
pub fn host_text(buffer: &[u8]) -> (r: Option<String>)
    ensures
        match r {
            Some(text) => buffer_text(buffer@) == Some(text@),
            None => buffer_text(buffer@) is None,
        },
{
    let mut n: usize = 0;
    while n < buffer.len() && buffer[n] != 0
        invariant
            n <= buffer.len(),
            forall|i: int| 0 <= i < n ==> buffer@[i] != 0,
        decreases buffer.len() - n,
    {
        n += 1;
    }
    proof {
        lemma_text_end(buffer@, n as int);
    }
    utf8_text(slice_subrange(buffer, 0, n))
}

/// The host's program directory, from the buffer the directory query
/// filled. The buffer has to hold valid text.
pub fn exec_dir(buffer: &[u8]) -> (r: String)
    requires
        buffer_text(buffer@) is Some,
    ensures
        buffer_text(buffer@) == Some(r@),
{
    host_text(buffer).unwrap()
}

/// The host's data directory, from the buffer the directory query filled.
/// The buffer has to hold valid text.
pub fn data_dir(buffer: &[u8]) -> (r: String)
    requires
        buffer_text(buffer@) is Some,
    ensures
        buffer_text(buffer@) == Some(r@),
{
    host_text(buffer).unwrap()
}

/// Reads what a variable query came back with: `found` is the length the
/// host reported, `buffer` what it filled.
pub fn get_ini_var(found: usize, buffer: &[u8]) -> (r: HostValue)
    ensures
        match r {
            HostValue::Missing => variable_value(found, buffer@) is None,
            HostValue::Text(text) => variable_value(found, buffer@) == Some(Some(text@)),
            HostValue::Undecodable => variable_value(found, buffer@) == Some(
                None::<Seq<char>>,
            ),
        },
{
    if found == 0 {
        HostValue::Missing
    } else {
        match host_text(buffer) {
            Some(text) => HostValue::Text(text),
            None => HostValue::Undecodable,
        }
    }
}

/// Whether the queue that marks a running instance exists: the host opened
/// it, which is what a status of zero says.
pub fn queue_exists(status: u16) -> (r: bool)
    ensures
        r == (status == 0),
{
    status == 0
}

} // verus!

//! The saved configuration: the command-line arguments as a JSON array of
//! strings.
use vstd::prelude::*;
use crate::error::MuxError;
use crate::text::string_views;

verus! {

/// The error of reading or writing JSON.
#[verifier::external_type_specification]
#[verifier::external_body]
pub struct ExJsonError(serde_json::Error);

/// The strings of the JSON array of strings that `bytes` hold, or `None`
/// when they hold no such array: what `serde_json::from_slice` decides from
/// the bytes alone.
pub uninterp spec fn json_string_array(bytes: Seq<u8>) -> Option<Seq<Seq<char>>>;

/// The UTF-8 encoding of a character.
pub open spec fn utf8_of_char(c: char) -> Seq<u8> {
    let n = (c as u32) as int;
    if n < 0x80 {
        seq![n as u8]
    } else if n < 0x800 {
        seq![(0xC0 + n / 64) as u8, (0x80 + n % 64) as u8]
    } else if n < 0x10000 {
        seq![(0xE0 + n / 4096) as u8, (0x80 + (n / 64) % 64) as u8, (0x80 + n % 64) as u8]
    } else {
        seq![
            (0xF0 + n / 262144) as u8,
            (0x80 + (n / 4096) % 64) as u8,
            (0x80 + (n / 64) % 64) as u8,
            (0x80 + n % 64) as u8,
        ]
    }
}

/// A lowercase hexadecimal digit (`0..16`) as an ASCII byte.
pub open spec fn hex_digit(d: int) -> u8 {
    if d < 10 {
        (48 + d) as u8
    } else {
        (87 + d) as u8
    }
}

/// A character inside a JSON string: `"` and `\` escaped by a backslash,
/// the control characters by their short escape (`\b`, `\t`, `\n`, `\f`,
/// `\r`) or as `\u00XX` in lowercase hexadecimal, any other character
/// in UTF-8. The bytes are ASCII codes: `"` 34, `,` 44, `0` 48, `[` 91,
/// `\` 92, `]` 93, `b` 98, `f` 102, `n` 110, `r` 114, `t` 116, `u` 117,
/// line feed 10, space 32.
pub open spec fn json_escaped_char(c: char) -> Seq<u8> {
    let n = (c as u32) as int;
    if c == '"' {
        seq![92u8, 34u8]
    } else if c == '\\' {
        seq![92u8, 92u8]
    } else if n == 8 {
        seq![92u8, 98u8]
    } else if n == 9 {
        seq![92u8, 116u8]
    } else if n == 10 {
        seq![92u8, 110u8]
    } else if n == 12 {
        seq![92u8, 102u8]
    } else if n == 13 {
        seq![92u8, 114u8]
    } else if n < 0x20 {
        seq![92u8, 117u8, 48u8, 48u8, hex_digit(n / 16), hex_digit(n % 16)]
    } else {
        utf8_of_char(c)
    }
}

/// The characters of a JSON string, escaped, without the quotes.
pub open spec fn json_escaped_str(s: Seq<char>) -> Seq<u8>
    decreases s.len(),
{
    if s.len() == 0 {
        seq![]
    } else {
        json_escaped_str(s.drop_last()) + json_escaped_char(s.last())
    }
}

/// The items of a pretty-printed JSON array of strings: each on a line of
/// its own, indented by two spaces, separated by commas.
pub open spec fn pretty_json_items(ss: Seq<Seq<char>>) -> Seq<u8>
    decreases ss.len(),
{
    if ss.len() == 0 {
        seq![]
    } else {
        let sep: Seq<u8> = if ss.len() == 1 {
            seq![10u8, 32u8, 32u8]
        } else {
            seq![44u8, 10u8, 32u8, 32u8]
        };
        pretty_json_items(ss.drop_last()) + sep + seq![34u8] + json_escaped_str(ss.last()) + seq![
            34u8,
        ]
    }
}

/// A pretty-printed JSON array of strings, as bytes: `[]` when empty,
/// otherwise `[`, the items, a line break and `]`.
pub open spec fn pretty_json_array(ss: Seq<Seq<char>>) -> Seq<u8> {
    if ss.len() == 0 {
        seq![91u8, 93u8]
    } else {
        seq![91u8] + pretty_json_items(ss) + seq![10u8, 93u8]
    }
}

/// Reads a JSON array of strings (`serde_json::from_slice::<Vec<String>>`):
/// its strings on success, an error exactly when the bytes hold no such
/// array; which bytes those are is named, not spelled out, but for one
/// form: a pretty-printed array of strings, which is valid JSON, gives its
/// strings.
#[verifier::external_body]
fn json_from_slice(bytes: &[u8]) -> (r: Result<Vec<String>, serde_json::Error>)
    ensures
        match r {
            Ok(v) => json_string_array(bytes@) == Some(string_views(v@)),
            Err(_) => json_string_array(bytes@) is None,
        },
        forall|ss: Seq<Seq<char>>|
            bytes@ == #[trigger] pretty_json_array(ss) ==> r is Ok && string_views(r->Ok_0@) == ss,
{
    serde_json::from_slice::<Vec<String>>(bytes)
}

/// Writes an array of strings as pretty JSON bytes
/// (`serde_json::to_vec_pretty`, with its two-space indent). It succeeds:
/// the source fails only when a `Serialize` impl or the writer fails, and
/// strings written into a `Vec<u8>` do neither.
#[verifier::external_body]
fn json_to_vec_pretty(args: &Vec<String>) -> (r: Result<Vec<u8>, serde_json::Error>)
    ensures
        r is Ok,
        r matches Ok(b) ==> b@ == pretty_json_array(string_views(args@)),
{
    serde_json::to_vec_pretty(args)
}

/// The text of a JSON error (its `Display`). Nothing is stated of the text.
#[verifier::external_body]
fn json_error_text(e: &serde_json::Error) -> (r: String) {
    e.to_string()
}

/// The arguments saved in a JSON configuration. The bytes that
/// [`json_bytes_of_args`] writes give their arguments back.
///
/// # Errors
///
/// When the bytes hold no JSON array of strings; the message is the
/// parser's.
pub fn json_args_from_bytes(bytes: &[u8]) -> (r: Result<Vec<String>, MuxError>)
    ensures
        match json_string_array(bytes@) {
            Some(a) => r matches Ok(v) && string_views(v@) == a,
            None => r is Err,
        },
        forall|ss: Seq<Seq<char>>|
            bytes@ == #[trigger] pretty_json_array(ss) ==> (r matches Ok(v) && string_views(v@)
                == ss),
{
    match json_from_slice(bytes) {
        Ok(v) => Ok(v),
        Err(e) => Err(MuxError::from_string(json_error_text(&e))),
    }
}

/// The JSON bytes that save the arguments: a pretty-printed array of their
/// strings.
pub fn json_bytes_of_args(args: &Vec<String>) -> (r: Vec<u8>)
    ensures
        r@ == pretty_json_array(string_views(args@)),
{
    match json_to_vec_pretty(args) {
        Ok(b) => b,
        Err(_) => Vec::new(),
    }
}

} // verus!

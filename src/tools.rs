use vstd::prelude::*;

verus! {

/// The text that a byte string decodes to as UTF-8, or `None` where it is not
/// valid UTF-8.
pub uninterp spec fn utf8_decoded(b: Seq<u8>) -> Option<Seq<char>>;

/// A text without its leading and trailing white space.
pub uninterp spec fn trimmed(s: Seq<char>) -> Seq<char>;

/// Relies on `String::from_utf8`: `Ok` exactly for valid UTF-8, holding the
/// decoded text.
#[verifier::external_body]
fn decode_utf8(b: Vec<u8>) -> (r: Option<String>)
    ensures
        r is Some <==> utf8_decoded(b@) is Some,
        r is Some ==> utf8_decoded(b@) == Some(r->0@),
{
    String::from_utf8(b).ok()
}

/// Relies on `str::trim`: the text with leading and trailing white space
/// removed.
#[verifier::external_body]
fn trim_text(s: &str) -> (r: String)
    ensures
        r@ == trimmed(s@),
{
    s.trim().to_owned()
}

/// The absolute path that a tool lookup (`which <name>`) reported, given
/// whether the lookup succeeded and what it wrote to standard output.
///
/// A lookup that failed, or whose output is not text, finds nothing.
pub fn tool_path(succeeded: bool, stdout: Vec<u8>) -> (r: Option<String>)
    ensures
        r is Some <==> succeeded && utf8_decoded(stdout@) is Some,
        r is Some ==> r->0@ == trimmed(utf8_decoded(stdout@)->0),
{
    if !succeeded {
        return None;
    }
    match decode_utf8(stdout) {
        Some(text) => Some(trim_text(text.as_str())),
        None => None,
    }
}

} // verus!

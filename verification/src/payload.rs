//! Turning rendered bytes into the published payload: lossy UTF-8 decoding
//! followed by the removal of one trailing newline.
//!
//! Policy for text without a trailing newline: the text is published
//! unchanged. Stripping is a no-op there, never an error and never a panic.

use vstd::prelude::*;
use vstd::string::StrSliceExecFns;
use vstd::utf8::decode_utf8;
use vstd::utf8::valid_utf8;

verus! {

/// The characters `String::from_utf8_lossy` yields for the given bytes: the
/// decoding of the bytes with every invalid sequence replaced.
pub uninterp spec fn lossy_decode(bytes: Seq<u8>) -> Seq<char>;

/// Relies on `String::from_utf8_lossy`: the result is a function of the bytes
/// alone, and on valid UTF-8 input it is exactly the decoded character
/// sequence.
#[verifier::external_body]
fn utf8_lossy(bytes: &Vec<u8>) -> (r: String)
    ensures
        r@ == lossy_decode(bytes@),
        valid_utf8(bytes@) ==> r@ == decode_utf8(bytes@),
{
    String::from_utf8_lossy(bytes.as_slice()).into_owned()
}

/// `s` with one trailing newline removed, unchanged if there is none.
pub open spec fn strip_newline(s: Seq<char>) -> Seq<char> {
    if s.len() > 0 && s.last() == '\n' {
        s.drop_last()
    } else {
        s
    }
}

/// The payload published for rendered bytes: their lossy decoding with one
/// trailing newline removed.
pub open spec fn payload_of(bytes: Seq<u8>) -> Seq<char> {
    strip_newline(lossy_decode(bytes))
}

/// Removes exactly one trailing newline character if one is present; returns
/// the text unchanged otherwise.
pub fn strip_trailing_newline(s: &str) -> (r: String)
    ensures
        r@ == strip_newline(s@),
{
    let n = s.unicode_len();
    if n > 0 && s.get_char(n - 1) == '\n' {
        let t = s.substring_char(0, n - 1);
        proof {
            assert(t@ =~= s@.drop_last());
        }
        t.to_owned()
    } else {
        s.to_owned()
    }
}

/// Law: when the rendered bytes decode to text that ends in a newline, the
/// published payload is exactly that text with its final newline removed.
pub proof fn lemma_payload_strips_terminal_newline(bytes: Seq<u8>)
    requires
        lossy_decode(bytes).len() > 0,
        lossy_decode(bytes).last() == '\n',
    ensures
        payload_of(bytes) == lossy_decode(bytes).drop_last(),
{
}

/// Law: when the rendered bytes decode to text without a trailing newline,
/// the published payload is that text unchanged: absence of the newline is a
/// no-op trim, never an error.
pub proof fn lemma_payload_without_newline_unchanged(bytes: Seq<u8>)
    requires
        lossy_decode(bytes).len() == 0 || lossy_decode(bytes).last() != '\n',
    ensures
        payload_of(bytes) == lossy_decode(bytes),
{
}

/// Decodes rendered bytes (lossily) and strips one trailing newline.
pub fn prepare_payload(rendered: &Vec<u8>) -> (p: String)
    ensures
        p@ == payload_of(rendered@),
        valid_utf8(rendered@) ==> p@ == strip_newline(decode_utf8(rendered@)),
{
    let text = utf8_lossy(rendered);
    strip_trailing_newline(text.as_str())
}

} // verus!

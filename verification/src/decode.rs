//! From the bytes of one read to the text that is inspected: a lenient
//! decoding, then the removal of the null padding at the end.

use crate::text::to_chars;
use bstr::ByteVec;
use vstd::prelude::*;
use vstd::string::StrSliceExecFns;
use vstd::utf8::{decode_utf8, valid_utf8};

verus! {

/// The text that a lenient UTF-8 decoding makes of `bytes`: well-formed
/// sequences decoded, each ill-formed one replaced by U+FFFD, as
/// `bstr::ByteVec::into_os_string_lossy` followed by `to_string_lossy` gives it.
pub uninterp spec fn lossy_text(bytes: Seq<u8>) -> Seq<char>;

/// Copies `bytes` with `bstr::ByteVec::from_slice`, makes an OS string of them
/// with `bstr::ByteVec::into_os_string_lossy` and a `String` of that with
/// `to_string_lossy`. Trusted: the result is the text that `lossy_text` names,
/// and for well-formed UTF-8 it is the decoded text, nothing replaced.
#[verifier::external_body]
fn decode_lossy(bytes: &[u8]) -> (text: String)
    ensures
        text@ == lossy_text(bytes@),
        valid_utf8(bytes@) ==> text@ == decode_utf8(bytes@),
{
    Vec::from_slice(bytes).into_os_string_lossy().to_string_lossy().into_owned()
}

/// `s` without the null characters at its end.
pub open spec fn without_trailing_nul(s: Seq<char>) -> Seq<char>
    decreases s.len(),
{
    if s.len() > 0 && s.last() == '\0' {
        without_trailing_nul(s.drop_last())
    } else {
        s
    }
}

/// The text of the chunk that a read of `bytes` makes: decoded leniently, and
/// without the null characters at the end.
pub open spec fn chunk_text(bytes: Seq<u8>) -> Seq<char> {
    without_trailing_nul(lossy_text(bytes))
}

/// What is left of a text is a prefix of it that does not end in a null
/// character, and all that was cut off is null characters.
pub proof fn law_trimmed_text(s: Seq<char>)
    ensures
        without_trailing_nul(s).len() <= s.len(),
        without_trailing_nul(s) == s.take(without_trailing_nul(s).len() as int),
        without_trailing_nul(s).len() > 0 ==> without_trailing_nul(s).last() != '\0',
        forall|i: int| without_trailing_nul(s).len() <= i < s.len() ==> s[i] == '\0',
    decreases s.len(),
{
    if s.len() > 0 && s.last() == '\0' {
        law_trimmed_text(s.drop_last());
        let kept = without_trailing_nul(s).len() as int;
        assert(s.drop_last().take(kept) =~= s.take(kept));
        assert forall|i: int| kept <= i < s.len() implies s[i] == '\0' by {
            if i < s.len() - 1 {
                assert(s.drop_last()[i] == s[i]);
            }
        }
    } else {
        assert(s.take(s.len() as int) =~= s);
    }
}

/// Removes the null characters at the end of `text`.
pub fn trim_nul(text: &str) -> (trimmed: String)
    ensures
        trimmed@ == without_trailing_nul(text@),
{
    let chars = to_chars(text);
    let mut end: usize = chars.len();
    assert(chars@.take(end as int) =~= chars@);
    while end > 0 && chars[end - 1] == '\0'
        invariant
            end <= chars.len(),
            without_trailing_nul(chars@) == without_trailing_nul(chars@.take(end as int)),
        decreases end,
    {
        proof {
            assert(chars@.take(end as int).drop_last() =~= chars@.take(end - 1));
        }
        end -= 1;
    }
    assert(chars@.take(end as int) =~= text@.subrange(0, end as int));
    text.substring_char(0, end).to_owned()
}

/// The text of one chunk as it is inspected: `bytes` decoded leniently, an
/// ill-formed sequence never failing the chunk, and without the null
/// characters at the end.
pub fn decode_chunk(bytes: &[u8]) -> (text: String)
    ensures
        text@ == chunk_text(bytes@),
        valid_utf8(bytes@) ==> text@ == without_trailing_nul(decode_utf8(bytes@)),
{
    let decoded = decode_lossy(bytes);
    trim_nul(decoded.as_str())
}

} // verus!

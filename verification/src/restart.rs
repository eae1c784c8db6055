//! The restart sentence of a log event: finding it, and reading the process
//! identifier that it carries.

use crate::text::to_chars;
use vstd::prelude::*;

verus! {

/// The regular expression of the restart sentence; its group `id` takes the
/// digits of the process identifier.
pub const RESTART_PATTERN: &'static str =
    r"Process (?P<id>\d+) restarted because it exceeds --max-memory-restart";

/// The name of the capture group that takes the digits.
pub const ID_GROUP: &'static str = "id";

/// What `regex::Regex::captures` reports for the group named `group` when the
/// expression `pattern` is searched in `text`: the text that the group took in
/// the leftmost match, or nothing when the pattern does not compile, when
/// nothing matches or when the group took no part in the match.
pub uninterp spec fn named_capture(
    pattern: Seq<char>,
    group: Seq<char>,
    text: Seq<char>,
) -> Option<Seq<char>>;

/// Compiles `pattern` with `regex::Regex::new`, searches `text` with
/// `Regex::captures` and reads the group with `Captures::name`. Trusted: the
/// result is the one that `named_capture` names, a function of the three
/// strings alone.
#[verifier::external_body]
fn first_named_capture(pattern: &str, group: &str, text: &str) -> (capture: Option<String>)
    ensures
        capture matches Some(taken) ==> named_capture(pattern@, group@, text@) == Some(taken@),
        capture is None ==> named_capture(pattern@, group@, text@) is None,
{
    let expression = regex::Regex::new(pattern).ok()?;
    let found = expression.captures(text)?.name(group)?;
    Some(found.as_str().to_owned())
}

/// One of the ten ASCII digits.
pub open spec fn is_digit(c: char) -> bool {
    '0' <= c <= '9'
}

/// The number that an ASCII digit stands for.
pub open spec fn digit_value(c: char) -> int {
    c as int - '0' as int
}

/// A non-empty run of ASCII digits.
pub open spec fn is_decimal(s: Seq<char>) -> bool {
    &&& s.len() > 0
    &&& forall|i: int| 0 <= i < s.len() ==> is_digit(#[trigger] s[i])
}

/// The number that a run of digits denotes in base ten.
pub open spec fn decimal_value(s: Seq<char>) -> int
    decreases s.len(),
{
    if s.len() == 0 {
        0
    } else {
        decimal_value(s.drop_last()) * 10 + digit_value(s.last())
    }
}

/// The identifier that captured text denotes: its value in base ten where it
/// is a run of ASCII digits whose value fits in 64 signed bits, and none
/// otherwise.
pub open spec fn process_id_of(digits: Seq<char>) -> Option<i64> {
    if is_decimal(digits) && decimal_value(digits) <= i64::MAX {
        Some(decimal_value(digits) as i64)
    } else {
        None
    }
}

/// The identifier that the restart sentence in `text` carries, if `text` holds
/// the sentence with a readable identifier.
pub open spec fn restart_id(text: Seq<char>) -> Option<i64> {
    match named_capture(RESTART_PATTERN@, ID_GROUP@, text) {
        Some(digits) => process_id_of(digits),
        None => None,
    }
}

/// A run of digits denotes at least what each of its prefixes denotes.
proof fn lemma_decimal_value_grows(s: Seq<char>, k: int)
    requires
        0 <= k <= s.len(),
        forall|i: int| 0 <= i < s.len() ==> is_digit(#[trigger] s[i]),
    ensures
        0 <= decimal_value(s.take(k)) <= decimal_value(s),
    decreases s.len() - k,
{
    if k == s.len() {
        assert(s.take(k) =~= s);
        lemma_decimal_value_nonnegative(s);
    } else {
        lemma_decimal_value_grows(s, k + 1);
        assert(s.take(k + 1).drop_last() =~= s.take(k));
        assert(is_digit(s[k]));
        lemma_decimal_value_nonnegative(s.take(k));
    }
}

/// A run of digits denotes no negative number.
proof fn lemma_decimal_value_nonnegative(s: Seq<char>)
    requires
        forall|i: int| 0 <= i < s.len() ==> is_digit(#[trigger] s[i]),
    ensures
        0 <= decimal_value(s),
    decreases s.len(),
{
    if s.len() > 0 {
        lemma_decimal_value_nonnegative(s.drop_last());
        assert(is_digit(s[s.len() - 1]));
    }
}

/// Reads captured text as a process identifier.
pub fn parse_process_id(digits: &str) -> (id: Option<i64>)
    ensures
        id == process_id_of(digits@),
{
    let chars = to_chars(digits);
    if chars.len() == 0 {
        return None;
    }
    let mut value: i64 = 0;
    let mut i: usize = 0;
    while i < chars.len()
        invariant
            i <= chars.len(),
            chars@ == digits@,
            forall|j: int| 0 <= j < i ==> is_digit(#[trigger] chars@[j]),
            value == decimal_value(chars@.take(i as int)),
            0 <= value,
        decreases chars.len() - i,
    {
        let c = chars[i];
        if c < '0' || c > '9' {
            return None;
        }
        let digit: i64 = (c as u32 - '0' as u32) as i64;
        proof {
            assert(chars@.take(i + 1).drop_last() =~= chars@.take(i as int));
            assert(decimal_value(chars@.take(i + 1)) == value * 10 + digit);
            if is_decimal(chars@) {
                lemma_decimal_value_grows(chars@, i + 1);
            }
        }
        let next = match value.checked_mul(10) {
            Some(tenfold) => tenfold.checked_add(digit),
            None => None,
        };
        match next {
            Some(n) => {
                value = n;
            },
            None => {
                return None;
            },
        }
        i += 1;
    }
    assert(chars@.take(i as int) =~= chars@);
    Some(value)
}

/// Where the restart sentence is found and its digits are a run of ASCII
/// digits whose value fits in 64 signed bits, the identifier is exactly the
/// number that the digits denote.
pub proof fn law_identifier_is_the_captured_number(text: Seq<char>, digits: Seq<char>)
    requires
        named_capture(RESTART_PATTERN@, ID_GROUP@, text) == Some(digits),
        is_decimal(digits),
        decimal_value(digits) <= i64::MAX,
    ensures
        restart_id(text) == Some(decimal_value(digits) as i64),
        restart_id(text)->0 == decimal_value(digits),
{
    lemma_decimal_value_nonnegative(digits);
}

/// Where the restart sentence is not found, there is no identifier.
pub proof fn law_no_sentence_no_identifier(text: Seq<char>)
    requires
        named_capture(RESTART_PATTERN@, ID_GROUP@, text) is None,
    ensures
        restart_id(text) is None,
{
}

/// Looks for the restart sentence in `text` and reads its process identifier.
/// Text without the sentence, or with an identifier that is no run of ASCII
/// digits or does not fit in 64 signed bits, carries no identifier.
pub fn find_process(text: &str) -> (id: Option<i64>)
    ensures
        id == restart_id(text@),
{
    match first_named_capture(RESTART_PATTERN, ID_GROUP, text) {
        Some(digits) => parse_process_id(digits.as_str()),
        None => None,
    }
}

} // verus!

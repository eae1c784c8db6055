//! The payload of a process event: the object embedded in the record, and the
//! identifier and name that it carries.

use crate::text::{contains, find_first, first_occurrence, lemma_first_occurrence_unique,
    occurs_at, to_chars};
use vstd::prelude::*;
use vstd::string::{StrSliceExecFns, StringExecFns};

verus! {

/// Precedes the embedded object, and takes the object's opening brace with it.
pub const OBJECT_DELIMITER: &'static str = ":{";

/// The brace that is put back in front of the embedded object.
pub const OBJECT_OPEN: &'static str = "{";

/// The member of the embedded object that describes the process.
pub const PROCESS_KEY: &'static str = "process";

/// The member of the process description that holds its identifier.
pub const ID_KEY: &'static str = "pm_id";

/// The member of the process description that holds its name.
pub const NAME_KEY: &'static str = "name";

/// The object embedded in a record: an opening brace, then all that follows
/// the first delimiter. None where no delimiter stands in the text.
pub open spec fn embedded_object(text: Seq<char>) -> Option<Seq<char>> {
    if contains(text, OBJECT_DELIMITER@) {
        let after = first_occurrence(text, OBJECT_DELIMITER@) + OBJECT_DELIMITER@.len();
        Some(OBJECT_OPEN@ + text.subrange(after, text.len() as int))
    } else {
        None
    }
}

/// Cuts the embedded object out of a record and gives it its opening brace
/// back. Fails where the record holds no delimiter.
pub fn extract_embedded_object(text: &str) -> (object: Option<String>)
    ensures
        match object {
            Some(json) => embedded_object(text@) == Some(json@),
            None => embedded_object(text@) is None,
        },
{
    let chars = to_chars(text);
    let delimiter = to_chars(OBJECT_DELIMITER);
    let hay = chars.as_slice();
    let needle = delimiter.as_slice();
    match find_first(hay, needle) {
        Some(at) => {
            proof {
                assert(occurs_at(chars@, delimiter@, at as int));
                assert(at + delimiter.len() <= chars.len());
                lemma_first_occurrence_unique(text@, OBJECT_DELIMITER@, at as int);
            }
            let rest = text.substring_char(at + delimiter.len(), chars.len());
            let mut json = OBJECT_OPEN.to_owned();
            json.append(rest);
            Some(json)
        },
        None => None,
    }
}

/// A text that holds one delimiter, after a prefix that holds none, carries
/// the object made of an opening brace and all that follows the delimiter.
pub proof fn law_embedded_object_of_record(prefix: Seq<char>, rest: Seq<char>)
    requires
        !contains(prefix, OBJECT_DELIMITER@),
    ensures
        embedded_object(prefix + OBJECT_DELIMITER@ + rest) == Some(OBJECT_OPEN@ + rest),
{
    reveal_strlit(":{");
    let delimiter = OBJECT_DELIMITER@;
    let text = prefix + delimiter + rest;
    let at = prefix.len() as int;
    assert(text.subrange(at, at + delimiter.len()) =~= delimiter);
    assert forall|earlier: int| 0 <= earlier < at implies !occurs_at(text, delimiter, earlier) by {
        if occurs_at(text, delimiter, earlier) {
            let found = text.subrange(earlier, earlier + 2);
            assert(found[0] == ':' && found[1] == '{');
            if earlier + 2 <= at {
                assert(prefix.subrange(earlier, earlier + 2) =~= found);
                assert(occurs_at(prefix, delimiter, earlier));
            } else {
                assert(found[1] == text[at]);
                assert(text[at] == delimiter[0]);
            }
        }
    }
    lemma_first_occurrence_unique(text, delimiter, at);
    assert(text.subrange(at + delimiter.len(), text.len() as int) =~= rest);
}

/// The two members of the process description, each as far as the object
/// holds it in the expected form: the identifier as an integer of 64 signed
/// bits, the name as a string.
#[derive(Debug)]
pub struct ProcessFields {
    pub pm_id: Option<i64>,
    pub name: Option<String>,
}

impl View for ProcessFields {
    type V = (Option<i64>, Option<Seq<char>>);

    open spec fn view(&self) -> (Option<i64>, Option<Seq<char>>) {
        (
            self.pm_id,
            match self.name {
                Some(name) => Some(name@),
                None => None,
            },
        )
    }
}

/// What a process event tells the correlator: which process is running, and
/// under which name.
#[derive(Debug)]
pub struct ProcessEventPayload {
    pub pm_id: i64,
    pub name: String,
}

impl View for ProcessEventPayload {
    type V = (i64, Seq<char>);

    open spec fn view(&self) -> (i64, Seq<char>) {
        (self.pm_id, self.name@)
    }
}

/// An embedded object that is no JSON text, with the parser's own words.
#[derive(Debug)]
pub struct MalformedObject {
    pub message: String,
}

/// `serde_json::Error`, taken as it comes: nothing is known of its contents,
/// and only its words are read.
#[verifier::external_type_specification]
#[verifier::external_body]
pub struct ExJsonError(serde_json::Error);

/// What `serde_json` reads in the text `json`: nothing where `json` is no
/// JSON text; else, of the member `object` of the parsed value, the member
/// `number` as `Value::as_i64` gives it and the member `string` as
/// `Value::as_str` gives it. Members are looked up as indexing a `Value`
/// does: what is missing, or asked of something that is no object, is null.
pub uninterp spec fn json_members(
    json: Seq<char>,
    object: Seq<char>,
    number: Seq<char>,
    string: Seq<char>,
) -> Option<(Option<i64>, Option<Seq<char>>)>;

/// Parses `json` with `serde_json::from_str` into a `serde_json::Value`,
/// indexes it by `object` and that by `number` and by `string`, and reads the
/// two with `Value::as_i64` and `Value::as_str`. Trusted: the result is the
/// one that `json_members` names, and the call fails exactly where the parser
/// refuses the text.
#[verifier::external_body]
fn read_members(
    json: &str,
    object: &str,
    number: &str,
    string: &str,
) -> (members: Result<ProcessFields, serde_json::Error>)
    ensures
        members matches Ok(fields) ==> json_members(json@, object@, number@, string@)
            == Some(fields@),
        members is Err ==> json_members(json@, object@, number@, string@) is None,
{
    let value: serde_json::Value = serde_json::from_str(json)?;
    let inner = &value[object];
    let pm_id = inner[number].as_i64();
    let name = inner[string].as_str().map(str::to_owned);
    Ok(ProcessFields { pm_id, name })
}

/// The members of the process description that the object `json` holds, or
/// nothing where `json` is no JSON text.
pub open spec fn object_fields(json: Seq<char>) -> Option<(Option<i64>, Option<Seq<char>>)> {
    json_members(json, PROCESS_KEY@, ID_KEY@, NAME_KEY@)
}

/// The payload that the members make: both have to be there.
pub open spec fn payload_of(fields: (Option<i64>, Option<Seq<char>>)) -> Option<(i64, Seq<char>)> {
    match fields {
        (Some(pm_id), Some(name)) => Some((pm_id, name)),
        _ => None,
    }
}

/// Parses the embedded object and reads the identifier and the name of the
/// process from it. Fails exactly where the object is no JSON text; a member
/// that is missing, or of another type, is reported as absent.
pub fn parse_obj(json: &str) -> (parsed: Result<ProcessFields, MalformedObject>)
    ensures
        match parsed {
            Ok(fields) => object_fields(json@) == Some(fields@),
            Err(_) => object_fields(json@) is None,
        },
{
    match read_members(json, PROCESS_KEY, ID_KEY, NAME_KEY) {
        Ok(fields) => Ok(fields),
        Err(error) => Err(MalformedObject { message: error.to_string() }),
    }
}

/// Makes the payload of a process event from the members that were read: an
/// event without an integer identifier, or without a name, has none.
pub fn payload_from_fields(fields: ProcessFields) -> (payload: Option<ProcessEventPayload>)
    ensures
        match payload {
            Some(p) => payload_of(fields@) == Some(p@),
            None => payload_of(fields@) is None,
        },
{
    match (fields.pm_id, fields.name) {
        (Some(pm_id), Some(name)) => Some(ProcessEventPayload { pm_id, name }),
        _ => None,
    }
}

} // verus!

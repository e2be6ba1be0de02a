//! The descriptor of an environment: a small JSON document inside the
//! environment directory that records the interpreter it was built with.
//!
//! The document is an object with the member `python`, whose value is the
//! text of the interpreter version. Reading and writing the file is the
//! caller's business; this module turns its contents into a value and back.
//! The JSON itself is left to `serde_json`.

use vstd::prelude::*;
use crate::environment::{Descriptor, DescriptorProbe};
use crate::error::{FileOperation, SyncError};
use crate::version::InterpreterVersion;

verus! {

/// The error type of `serde_json`, carried from the calls into that crate to
/// the place where it becomes an error of this library.
#[verifier::external_type_specification]
#[verifier::external_body]
pub struct ExJsonError(serde_json::Error);

/// The members of the JSON object that `serde_json` reads from `document`,
/// in the order in which its map hands them out: each with its name and,
/// where its value is a string, that string. Nothing if `document` is not
/// exactly one JSON object.
pub uninterp spec fn json_object_members(document: Seq<u8>) -> Option<
    Seq<(Seq<char>, Option<Seq<char>>)>,
>;

/// The JSON text that `serde_json` writes, with line breaks and indentation,
/// for the object whose only member is `key` with the string `value`; or
/// nothing if it reports an error.
pub uninterp spec fn json_object_text(key: Seq<char>, value: Seq<char>) -> Option<Seq<char>>;

/// The names and string values that `members` hold.
pub open spec fn member_views(members: Seq<(String, Option<String>)>) -> Seq<
    (Seq<char>, Option<Seq<char>>),
> {
    Seq::new(
        members.len(),
        |i: int|
            (
                members[i].0@,
                match members[i].1 {
                    Some(text) => Some(text@),
                    None => None,
                },
            ),
    )
}

/// What the JSON reader's answer amounts to, as a mathematical value.
pub open spec fn members_read(
    answer: Result<Vec<(String, Option<String>)>, serde_json::Error>,
) -> Option<Seq<(Seq<char>, Option<Seq<char>>)>> {
    match answer {
        Ok(members) => Some(member_views(members@)),
        Err(_) => None,
    }
}

/// What the JSON writer's answer amounts to, as a mathematical value.
pub open spec fn text_written(answer: Result<String, serde_json::Error>) -> Option<Seq<char>> {
    match answer {
        Ok(text) => Some(text@),
        Err(_) => None,
    }
}

/// Parses `document` with `serde_json::from_slice` as a map from names to
/// `serde_json::Value`, and hands out its members in the order of the map.
///
/// Not proved: that the answer is a function of `document` alone, which is
/// all that the contract says. An error of the parser, which it also gives
/// for a JSON text that is no object, stands for "nothing".
#[verifier::external_body]
fn read_object(document: &[u8]) -> (answer: Result<
    Vec<(String, Option<String>)>,
    serde_json::Error,
>)
    ensures
        members_read(answer) == json_object_members(document@),
{
    let object: std::collections::BTreeMap<String, serde_json::Value> = serde_json::from_slice(
        document,
    )?;
    Ok(
        object.into_iter().map(
            |(name, value)|
                match value {
                    serde_json::Value::String(text) => (name, Some(text)),
                    _ => (name, None),
                },
        ).collect(),
    )
}

/// Writes the map whose only entry is `key` with `value` through
/// `serde_json::to_string_pretty`.
///
/// Not proved: that the answer is a function of `key` and `value` alone,
/// which is all that the contract says.
#[verifier::external_body]
fn write_object(key: &str, value: &str) -> (answer: Result<String, serde_json::Error>)
    ensures
        text_written(answer) == json_object_text(key@, value@),
{
    serde_json::to_string_pretty(&std::collections::BTreeMap::from([(key, value)]))
}

/// The string under the first member named `key`, if that member is there
/// and holds a string.
pub open spec fn member_text(members: Seq<(Seq<char>, Option<Seq<char>>)>, key: Seq<char>) -> Option<
    Seq<char>,
>
    decreases members.len(),
{
    if members.len() == 0 {
        None
    } else if members[0].0 == key {
        members[0].1
    } else {
        member_text(members.drop_first(), key)
    }
}

/// Looks up the string under the first member named `key`.
pub fn find_member_text(members: &Vec<(String, Option<String>)>, key: &str) -> (found: Option<
    String,
>)
    ensures
        match found {
            Some(text) => member_text(member_views(members@), key@) == Some(text@),
            None => member_text(member_views(members@), key@) is None,
        },
{
    let wanted = key.to_owned();
    let ghost all = member_views(members@);
    let mut at: usize = 0;
    assert(all.subrange(0, all.len() as int) =~= all);
    while at < members.len()
        invariant
            at <= members@.len(),
            all == member_views(members@),
            wanted@ == key@,
            member_text(all, key@) == member_text(all.subrange(at as int, all.len() as int), key@),
        decreases members@.len() - at,
    {
        let ghost rest = all.subrange(at as int, all.len() as int);
        assert(rest[0] == all[at as int]);
        assert(rest.drop_first() =~= all.subrange(at + 1, all.len() as int));
        if members[at].0 == wanted {
            return match &members[at].1 {
                Some(text) => Some(text.clone()),
                None => None,
            };
        }
        at = at + 1;
    }
    None
}

/// What an environment's descriptor holds.
#[derive(Debug, PartialEq, Eq)]
pub struct VenvMarker {
    /// The interpreter that the environment was built with.
    pub python: InterpreterVersion,
}

impl View for VenvMarker {
    type V = Seq<char>;

    open spec fn view(&self) -> Seq<char> {
        self.python@
    }
}

/// The descriptor that a document holds, given the members that the JSON
/// reader found in it. A document that is no JSON object, has no member
/// `python`, or has something else than a string there is malformed.
pub open spec fn recorded(members: Option<Seq<(Seq<char>, Option<Seq<char>>)>>) -> Result<
    Seq<char>,
    SyncError,
> {
    match members {
        Some(members) => match member_text(members, "python"@) {
            Some(text) => Ok(text),
            None => Err(SyncError::ConfigurationError),
        },
        None => Err(SyncError::ConfigurationError),
    }
}

/// Whether `marker` is what `wanted` says: the same interpreter, or the
/// same failure.
pub open spec fn marker_is(marker: Result<VenvMarker, SyncError>, wanted: Result<
    Seq<char>,
    SyncError,
>) -> bool {
    match marker {
        Ok(marker) => wanted == Ok::<Seq<char>, SyncError>(marker@),
        Err(error) => wanted == Err::<Seq<char>, SyncError>(error),
    }
}

/// Turns the answer of the JSON reader into a descriptor.
pub fn marker_from_members(
    answer: Result<Vec<(String, Option<String>)>, serde_json::Error>,
) -> (marker: Result<VenvMarker, SyncError>)
    ensures
        marker_is(marker, recorded(members_read(answer))),
{
    match answer {
        Ok(members) => match find_member_text(&members, "python") {
            Some(text) => Ok(VenvMarker { python: InterpreterVersion { text } }),
            None => Err(SyncError::ConfigurationError),
        },
        Err(_) => Err(SyncError::ConfigurationError),
    }
}

/// Reads a descriptor from the contents of its file.
pub fn parse_marker(contents: &[u8]) -> (marker: Result<VenvMarker, SyncError>)
    ensures
        marker_is(marker, recorded(json_object_members(contents@))),
{
    marker_from_members(read_object(contents))
}

/// What a descriptor file with these contents tells about the environment.
pub fn probe_contents(contents: &[u8]) -> (probe: DescriptorProbe)
    ensures
        probe@ == match recorded(json_object_members(contents@)) {
            Ok(text) => Descriptor::Recorded(text),
            Err(_) => Descriptor::Malformed,
        },
{
    match parse_marker(contents) {
        Ok(marker) => DescriptorProbe::Recorded(marker.python),
        Err(_) => DescriptorProbe::Malformed,
    }
}

/// The text that a written descriptor holds, given what the JSON writer
/// made of it. A refusal of the writer counts as a failure to write.
pub open spec fn rendered(written: Option<Seq<char>>) -> Result<Seq<char>, SyncError> {
    match written {
        Some(text) => Ok(text),
        None => Err(SyncError::IoError(FileOperation::WriteDescriptor)),
    }
}

/// Whether `text` is what `wanted` says: the same text, or the same failure.
pub open spec fn text_is(text: Result<String, SyncError>, wanted: Result<
    Seq<char>,
    SyncError,
>) -> bool {
    match text {
        Ok(text) => wanted == Ok::<Seq<char>, SyncError>(text@),
        Err(error) => wanted == Err::<Seq<char>, SyncError>(error),
    }
}

/// Turns the answer of the JSON writer into the contents of the descriptor
/// file.
pub fn contents_from_written(answer: Result<String, serde_json::Error>) -> (text: Result<
    String,
    SyncError,
>)
    ensures
        text_is(text, rendered(text_written(answer))),
{
    match answer {
        Ok(text) => Ok(text),
        Err(_) => Err(SyncError::IoError(FileOperation::WriteDescriptor)),
    }
}

/// The contents of the descriptor file for `marker`.
pub fn render_marker(marker: &VenvMarker) -> (text: Result<String, SyncError>)
    ensures
        text_is(text, rendered(json_object_text("python"@, marker@))),
{
    contents_from_written(write_object("python", marker.python.as_str()))
}

} // verus!

//! The stored form of a task: the JSON object of its properties, written and read by
//! `serde_json`. Writing reads the text back before it hands it out, so a text that this
//! module wrote always reads as the task that it was written for.

use crate::errors::StorageError;
use crate::taskmap::{taskmap_with, TaskMap};
use crate::viewmap::{distinct_keys, pairs_map};
use vstd::prelude::*;
use vstd::string::StringExecFns;

verus! {

/// `serde_json::Error`: why a text could not be written or read.
#[verifier::external_type_specification]
#[verifier::external_body]
pub struct ExJsonError(serde_json::Error);

/// The text that `serde_json::to_string` writes for a dictionary of strings.
pub uninterp spec fn json_of_task(task: Map<Seq<char>, Seq<char>>) -> Seq<char>;

/// What `serde_json::from_str` reads from a text as an optional dictionary of strings:
/// nothing where the text is refused, an absent task for `null`, else the dictionary.
pub uninterp spec fn task_of_json(text: Seq<char>) -> Option<Option<Map<Seq<char>, Seq<char>>>>;

/// `serde_json::to_string`, on the entries as a `BTreeMap`: the JSON object with the
/// entries as its members. The text depends on the dictionary alone. Writing fails only
/// where a value's own serializer fails or a key of a map is no string; a map of
/// strings has neither, so a text always comes out.
#[verifier::external_body]
fn json_to_string(entries: &Vec<(String, String)>) -> (r: Result<String, serde_json::Error>)
    requires
        distinct_keys(entries@),
    ensures
        r is Ok,
        r matches Ok(text) ==> text@ == json_of_task(pairs_map(entries@)),
{
    serde_json::to_string(
        &entries.iter().map(|e| (e.0.as_str(), e.1.as_str())).collect::<
            std::collections::BTreeMap<&str, &str>,
        >(),
    )
}

/// `serde_json::from_str`, for an optional `BTreeMap` of strings: the members of a
/// JSON object, each key once, or nothing for `null`. What is read depends on the text
/// alone.
#[verifier::external_body]
fn json_from_str(text: &str) -> (r: Result<Option<Vec<(String, String)>>, serde_json::Error>)
    ensures
        r is Ok <==> task_of_json(text@) is Some,
        r matches Ok(Some(entries)) ==> task_of_json(text@) == Some(Some(pairs_map(entries@))),
        r matches Ok(None) ==> task_of_json(text@) == Some(
            None::<Map<Seq<char>, Seq<char>>>,
        ),
{
    serde_json::from_str::<Option<std::collections::BTreeMap<String, String>>>(text).map(
        |read| read.map(|members| members.into_iter().collect()),
    )
}

/// What an optional task holds.
pub open spec fn task_view(task: Option<TaskMap>) -> Option<Map<Seq<char>, Seq<char>>> {
    match task {
        Some(t) => Some(t@),
        None => None,
    }
}

/// The stored form of `task`: its JSON text, where that text reads back as `task`.
pub open spec fn encoded_task(task: Map<Seq<char>, Seq<char>>) -> Option<Seq<char>> {
    if task_of_json(json_of_task(task)) == Some(Some(task)) {
        Some(json_of_task(task))
    } else {
        None
    }
}

/// Reads a stored task. The text `null` reads as an absent task; a text that is not
/// the JSON object of a dictionary of strings is an encoding fault.
pub fn decode_task(text: &str) -> (r: Result<Option<TaskMap>, StorageError>)
    ensures
        r is Ok <==> task_of_json(text@) is Some,
        r matches Ok(task) ==> task_of_json(text@) == Some(task_view(task)),
        r matches Err(e) ==> e is Encoding,
{
    match json_from_str(text) {
        Ok(Some(entries)) => Ok(Some(taskmap_with(entries))),
        Ok(None) => Ok(None),
        Err(_) => Err(StorageError::Encoding(String::from_str("task is not a JSON object"))),
    }
}

/// Hands out `text` as the stored form of `task` where `read_back`, which is what
/// `text` reads as, is `task`; else an encoding fault.
pub fn accept_encoding(task: &TaskMap, text: String, read_back: Result<
    Option<TaskMap>,
    StorageError,
>) -> (r: Result<String, StorageError>)
    ensures
        r is Ok <==> (read_back matches Ok(Some(t)) && t@ == task@),
        r matches Ok(accepted) ==> accepted@ == text@,
        r matches Err(e) ==> e is Encoding,
{
    match read_back {
        Ok(Some(t)) => {
            if t == *task {
                Ok(text)
            } else {
                Err(StorageError::Encoding(String::from_str("task changes when it is read back")))
            }
        },
        _ => Err(StorageError::Encoding(String::from_str("task cannot be read back"))),
    }
}

/// Writes the stored form of a task: the JSON text of `task`, where that text reads
/// back as `task`; an encoding fault where it does not.
pub fn encode_task(task: &TaskMap) -> (r: Result<String, StorageError>)
    ensures
        r is Ok <==> encoded_task(task@) is Some,
        r matches Ok(text) ==> encoded_task(task@) == Some(text@),
        r matches Err(e) ==> e is Encoding,
{
    let entries = task.entries();
    match json_to_string(&entries) {
        Ok(text) => {
            let read_back = decode_task(text.as_str());
            accept_encoding(task, text, read_back)
        },
        Err(_) => Err(StorageError::Encoding(String::from_str("task cannot be written"))),
    }
}

/// What comes of writing a task, reading what was written, and writing what was read.
pub open spec fn written_again(task: Map<Seq<char>, Seq<char>>) -> Option<Seq<char>> {
    match encoded_task(task) {
        Some(text) => match task_of_json(text) {
            Some(Some(read)) => encoded_task(read),
            _ => None,
        },
        None => None,
    }
}

/// A stored form reads as the task that it was written for, so writing what was read
/// gives the stored form again.
pub proof fn lemma_task_round_trip(task: Map<Seq<char>, Seq<char>>)
    ensures
        encoded_task(task) matches Some(text) ==> task_of_json(text) == Some(Some(task)),
        written_again(task) == encoded_task(task),
{
}

} // verus!

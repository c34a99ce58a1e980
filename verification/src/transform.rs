//! JSON documents that go to and come from the model backends.
use vstd::prelude::*;

use crate::json;
use crate::json::JsonObject;
use crate::text::optional_text;

verus! {

/// The document that names a task for the backend: an object with the task under `task`.
pub fn transform_string(task: &str) -> (document: String)
    ensures
        document@ == "{\"task\":"@ + json::json_string(task@) + "}"@,
        json::json_object(document@) == Some(
            json::no_entries().insert("task"@, json::json_string(task@)),
        ),
{
    let mut object: JsonObject = JsonObject::new();
    object.set("task", Some(task));
    let document: String = object.print();
    proof {
        let entry = json::json_string(task@);
        assert(object@ == json::no_entries().insert("task"@, entry));
        assert(document@ == json::single_entry_text("task"@, entry));
        reveal_strlit("task");
        json::law_plain_text_is_quoted("task"@);
        reveal_strlit("{");
        reveal_strlit("\"");
        reveal_strlit(":");
        reveal_strlit("{\"task\":");
        assert("{"@ + json::quoted("task"@) + ":"@ =~= "{\"task\":"@);
    }
    document
}

/// The answer to a single prompt: the first of the answers to the batch that held only it.
pub fn generate(outputs: Vec<String>) -> (answer: Option<String>)
    ensures
        outputs@.len() == 0 ==> answer is None,
        outputs@.len() > 0 ==> (answer matches Some(a) && a@ == outputs@[0]@),
{
    if outputs.len() == 0 {
        None
    } else {
        Some(outputs[0].clone())
    }
}

/// A metrics document as it is stored: read as a JSON object and printed in its compact form.
pub open spec fn stored_metrics(document: Seq<char>) -> Option<Seq<char>> {
    match json::json_object(document) {
        Some(entries) => Some(json::object_text(entries)),
        None => None,
    }
}

fn store_metrics(document: &str) -> (stored: Option<String>)
    ensures
        optional_text(stored) == stored_metrics(document@),
        stored is Some <==> json::json_object(document@) is Some,
        stored matches Some(s) ==> s@ == json::object_text(json::json_object(document@)->0),
        stored matches Some(s) ==> json::json_object(s@) == json::json_object(document@),
{
    match JsonObject::parse(document) {
        Some(object) => Some(object.print()),
        None => None,
    }
}

/// Takes the metrics of a regression, as the backend has serialized them.
pub fn sklearn_regression_metrics(document: &str) -> (stored: Option<String>)
    ensures
        optional_text(stored) == stored_metrics(document@),
        stored is Some <==> json::json_object(document@) is Some,
        stored matches Some(s) ==> s@ == json::object_text(json::json_object(document@)->0),
        stored matches Some(s) ==> json::json_object(s@) == json::json_object(document@),
{
    store_metrics(document)
}

/// Takes the metrics of a classification, as the backend has serialized them.
pub fn sklearn_classification_metrics(document: &str) -> (stored: Option<String>)
    ensures
        optional_text(stored) == stored_metrics(document@),
        stored is Some <==> json::json_object(document@) is Some,
        stored matches Some(s) ==> s@ == json::object_text(json::json_object(document@)->0),
        stored matches Some(s) ==> json::json_object(s@) == json::json_object(document@),
{
    store_metrics(document)
}

/// The number of classes as the backend counts them.
pub fn class_count(num_classes: i64) -> (count: usize)
    ensures
        count == num_classes as usize,
        0 <= num_classes <= usize::MAX ==> count as int == num_classes as int,
{
    num_classes as usize
}

/// A metrics document is stored exactly if it is a JSON object, and it is stored as that object
/// prints: two documents with the same entries are stored alike.
pub proof fn law_stored_metrics(document: Seq<char>, other: Seq<char>)
    ensures
        json::json_object(document) is None ==> stored_metrics(document) is None,
        json::json_object(document) matches Some(entries) ==> stored_metrics(document) == Some(
            json::object_text(entries),
        ),
        json::json_object(document) == json::json_object(other) ==> stored_metrics(document)
            == stored_metrics(other),
{
}

} // verus!

//! The list of the models that the backend offers.

use crate::chat::required_text;
use crate::json::{parse_or_refuse, parsed, refusal, values_of, Json, JsonValue};
use crate::orchestrator::{
    connect_failure, connect_failure_text, status_failure, status_failure_text,
    unexpected_document, ChatExchange,
};
use crate::transport::{is_success, success};
use crate::text::{joined, owned};
use vstd::prelude::*;

verus! {

/// The characters of each of a sequence of names.
pub open spec fn name_views(names: Seq<String>) -> Seq<Seq<char>> {
    Seq::new(names.len(), |i: int| names[i]@)
}

/// Whether every document of a sequence has a string `name`.
pub open spec fn all_named(docs: Seq<JsonValue>) -> bool {
    forall|i: int| 0 <= i < docs.len() ==> (#[trigger] required_text(docs[i].field("name"@))).is_some()
}

/// The names of the models in the answer of the backend: the answer is an
/// object whose member `models` is an array of objects, each with a string
/// `name`.
pub open spec fn model_names(doc: JsonValue) -> Option<Seq<Seq<char>>> {
    match doc.field("models"@) {
        Some(JsonValue::Array(docs)) => if all_named(docs) {
            Some(Seq::new(docs.len(), |i: int| required_text(docs[i].field("name"@)).unwrap()))
        } else {
            None
        },
        _ => None,
    }
}

/// The message for a list that could not be read.
pub open spec fn models_read_failure(cause: Seq<char>) -> Seq<char> {
    "Failed to read response body: "@ + cause
}

/// The message for a body that is not a list of models, with what is wrong
/// with it.
pub open spec fn models_parse_failure(detail: Seq<char>) -> Seq<char> {
    "Failed to parse models response: "@ + detail
}

/// The names of the models in what came back from the backend, or the
/// description of what went wrong: the backend was not reached, it reported
/// a failure, its body could not be read, or its body is no list of models.
pub open spec fn listed_models(exchange: ChatExchange) -> Result<Seq<Seq<char>>, Seq<char>> {
    match exchange {
        Err(cause) => Err(connect_failure(cause@, false)),
        Ok(reply) => if !success(reply.status) {
            Err(status_failure(reply.status_text@))
        } else {
            match reply.body {
                Err(cause) => Err(models_read_failure(cause@)),
                Ok(bytes) => match parsed(bytes@) {
                    Some(doc) => match model_names(doc) {
                        Some(names) => Ok(names),
                        None => Err(models_parse_failure(unexpected_document())),
                    },
                    None => Err(models_parse_failure(refusal(bytes@))),
                },
            }
        },
    }
}

/// Reads the names of the models out of a document.
pub fn decode_models(doc: &Json) -> (r: Option<Vec<String>>)
    ensures
        match r {
            Some(names) => model_names(doc@) == Some(name_views(names@)),
            None => model_names(doc@).is_none(),
        },
{
    let items = match doc.get("models") {
        Some(list) => match list.as_array() {
            Some(items) => items,
            None => {
                return None;
            },
        },
        None => {
            return None;
        },
    };
    let ghost docs = values_of(items@);
    let mut names: Vec<String> = Vec::new();
    let mut i: usize = 0;
    while i < items.len()
        invariant
            i <= items.len(),
            docs == values_of(items@),
            doc@.field("models"@) == Some(JsonValue::Array(docs)),
            names.len() == i,
            forall|j: int|
                0 <= j < i ==> required_text(docs[j].field("name"@)) == Some(
                    (#[trigger] names@[j])@,
                ),
        decreases items.len() - i,
    {
        match items[i].get("name") {
            Some(value) => match value.as_text() {
                Some(name) => {
                    names.push(owned(name));
                },
                None => {
                    return None;
                },
            },
            None => {
                assert(required_text(docs[i as int].field("name"@)).is_none());
                return None;
            },
        }
        i += 1;
    }
    proof {
        assert forall|j: int| 0 <= j < docs.len() implies (#[trigger] required_text(
            docs[j].field("name"@),
        )).is_some() by {
            assert(required_text(docs[j].field("name"@)) == Some(names@[j]@));
        }
    }
    Some(names)
}

/// Turns what came back from the backend into the names of its models, or
/// into a description of the failure.
pub fn models_outcome(exchange: ChatExchange) -> (r: Result<Vec<String>, String>)
    ensures
        match r {
            Ok(names) => listed_models(exchange) == Ok::<_, Seq<char>>(name_views(names@)),
            Err(cause) => listed_models(exchange) == Err::<Seq<Seq<char>>, _>(cause@),
        },
{
    let reply = match exchange {
        Ok(reply) => reply,
        Err(cause) => {
            return Err(connect_failure_text(cause.as_str(), false));
        },
    };
    if !is_success(reply.status) {
        return Err(status_failure_text(reply.status_text.as_str()));
    }
    let bytes = match reply.body {
        Ok(bytes) => bytes,
        Err(cause) => {
            return Err(joined("Failed to read response body: ", cause.as_str()));
        },
    };
    let detail = match parse_or_refuse(bytes.as_slice()) {
        Ok(doc) => match decode_models(&doc) {
            Some(names) => {
                return Ok(names);
            },
            None => owned("unexpected document"),
        },
        Err(detail) => detail,
    };
    Err(joined("Failed to parse models response: ", detail.as_str()))
}

} // verus!

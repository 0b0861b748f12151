//! Small commands: the greeting, and the settings as they are shown in a log.

use crate::json::{lemma_members_replaced, Json, JsonValue, Member};
use crate::text::{joined, same_text};
use vstd::prelude::*;

verus! {

/// The greeting for a name.
pub open spec fn greeting(name: Seq<char>) -> Seq<char> {
    "Hello, "@ + name + "! You've been greeted from Rust!"@
}

/// Greets by name.
pub fn greet(name: &str) -> (text: String)
    ensures
        text@ == greeting(name@),
{
    joined(joined("Hello, ", name).as_str(), "! You've been greeted from Rust!")
}

/// The settings as they may be shown: where they are an object with a search
/// key, the key is replaced by a marker; anything else is shown as it is.
pub open spec fn redacted(values: JsonValue) -> JsonValue {
    match values {
        JsonValue::Object(members) => if members.dom().contains("webSearchApiKey"@) {
            JsonValue::Object(
                members.insert("webSearchApiKey"@, JsonValue::Text("[redacted]"@)),
            )
        } else {
            values
        },
        _ => values,
    }
}

/// Takes the search key out of settings before they are shown: every member
/// that holds it gets the marker in its place.
pub fn redact_settings(values: Json) -> (safe: Json)
    ensures
        safe@ == redacted(values@),
{
    match values {
        Json::Object(members) => {
            let mut members = members;
            let ghost before = members@;
            let mut i: usize = 0;
            while i < members.len()
                invariant
                    i <= members.len(),
                    members@.len() == before.len(),
                    forall|j: int| 0 <= j < before.len() ==> members@[j].key@ == before[j].key@,
                    forall|j: int|
                        0 <= j < i && before[j].key@ == "webSearchApiKey"@ ==> members@[j].value@
                            == JsonValue::Text("[redacted]"@),
                    forall|j: int|
                        0 <= j < i && before[j].key@ != "webSearchApiKey"@ ==> members@[j].value@
                            == before[j].value@,
                    forall|j: int| i <= j < before.len() ==> members@[j] == before[j],
                decreases members.len() - i,
            {
                if same_text(members[i].key.as_str(), "webSearchApiKey") {
                    let key = members[i].key.clone();
                    members.set(i, Member { key, value: Json::text("[redacted]") });
                }
                i += 1;
            }
            proof {
                lemma_members_replaced(
                    before,
                    members@,
                    "webSearchApiKey"@,
                    JsonValue::Text("[redacted]"@),
                );
            }
            Json::Object(members)
        },
        other => other,
    }
}

} // verus!

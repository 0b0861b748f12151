//! The tools that the backend may ask for. There is one: a web search.

use crate::json::{array, Json, JsonValue, ObjectBuilder};
use crate::text::{blank, joined, owned, trim, trimmed};
use crate::transport::{is_success, success, HttpReply};
use vstd::prelude::*;
use vstd::utf8::encode_utf8;

verus! {

/// The function that a tool offers.
#[derive(Debug, PartialEq)]
pub struct ToolFunction {
    pub name: String,
    pub description: String,
    pub parameters: Json,
}

/// A tool as it is announced to the backend.
#[derive(Debug, PartialEq)]
pub struct Tool {
    pub tool_type: String,
    pub function: ToolFunction,
}

/// The name of the web search tool.
pub open spec fn web_search_name() -> Seq<char> {
    "web_search"@
}

/// What the web search tool says of itself.
pub open spec fn web_search_description() -> Seq<char> {
    "Search the internet for current information. Use this when you need to find up-to-date information or facts you don't know."@
}

/// The parameters of the web search tool: an object with one required
/// string, `query`.
pub open spec fn web_search_parameters() -> JsonValue {
    let query = JsonValue::Object(
        Map::empty().insert("type"@, JsonValue::Text("string"@)).insert(
            "description"@,
            JsonValue::Text("The search query to look up on the internet"@),
        ),
    );
    JsonValue::Object(
        Map::empty().insert("type"@, JsonValue::Text("object"@)).insert(
            "required"@,
            JsonValue::Array(seq![JsonValue::Text("query"@)]),
        ).insert("properties"@, JsonValue::Object(Map::empty().insert("query"@, query))),
    )
}

/// The web search tool.
pub fn get_web_search_tool() -> (tool: Tool)
    ensures
        tool.tool_type@ == "function"@,
        tool.function.name@ == web_search_name(),
        tool.function.description@ == web_search_description(),
        tool.function.parameters@ == web_search_parameters(),
{
    let mut query = ObjectBuilder::new();
    query.put("type", Json::text("string"));
    query.put("description", Json::text("The search query to look up on the internet"));
    let mut properties = ObjectBuilder::new();
    properties.put("query", query.build());
    let mut required: Vec<Json> = Vec::new();
    required.push(Json::text("query"));
    assert(crate::json::values_of(required@) =~= seq![JsonValue::Text("query"@)]);
    let mut parameters = ObjectBuilder::new();
    parameters.put("type", Json::text("object"));
    parameters.put("required", array(required));
    parameters.put("properties", properties.build());
    Tool {
        tool_type: owned("function"),
        function: ToolFunction {
            name: owned("web_search"),
            description: owned(
                "Search the internet for current information. Use this when you need to find up-to-date information or facts you don't know.",
            ),
            parameters: parameters.build(),
        },
    }
}

/// The document that announces a tool: its type and its function, with the
/// function's name, description and parameters.
pub open spec fn tool_value(tool: Tool) -> JsonValue {
    JsonValue::Object(
        Map::empty().insert("type"@, JsonValue::Text(tool.tool_type@)).insert(
            "function"@,
            JsonValue::Object(
                Map::empty().insert("name"@, JsonValue::Text(tool.function.name@)).insert(
                    "description"@,
                    JsonValue::Text(tool.function.description@),
                ).insert("parameters"@, tool.function.parameters@),
            ),
        ),
    )
}

/// The document that announces a tool.
pub fn tool_document(tool: &Tool) -> (doc: Json)
    ensures
        doc@ == tool_value(*tool),
{
    let mut function = ObjectBuilder::new();
    function.put("name", Json::text(tool.function.name.as_str()));
    function.put("description", Json::text(tool.function.description.as_str()));
    function.put("parameters", tool.function.parameters.duplicate());
    let mut doc = ObjectBuilder::new();
    doc.put("type", Json::text(tool.tool_type.as_str()));
    doc.put("function", function.build());
    doc.build()
}

/// Whether a byte stands for itself in a percent-encoded text: a letter, a
/// digit, `-`, `.`, `_` or `~`.
pub open spec fn unreserved(b: u8) -> bool {
    (0x30 <= b <= 0x39) || (0x41 <= b <= 0x5a) || (0x61 <= b <= 0x7a) || b == 0x2d || b == 0x2e
        || b == 0x5f || b == 0x7e
}

/// The upper-case hexadecimal digit for a value below sixteen.
pub open spec fn hex_digit(n: u8) -> char {
    if n < 10 {
        (0x30 + n) as char
    } else {
        (0x41 + n - 10) as char
    }
}

/// What stands for one byte in a percent-encoded text.
pub open spec fn encoded_byte(b: u8) -> Seq<char> {
    if unreserved(b) {
        seq![b as char]
    } else {
        seq!['%', hex_digit(b / 16), hex_digit(b % 16)]
    }
}

/// The percent-encoding of a sequence of bytes.
pub open spec fn percent_encoded(bytes: Seq<u8>) -> Seq<char>
    decreases bytes.len(),
{
    if bytes.len() == 0 {
        Seq::empty()
    } else {
        encoded_byte(bytes[0]) + percent_encoded(bytes.drop_first())
    }
}

/// `urlencoding::encode`: every byte of the UTF-8 form of `s` is percent-
/// encoded, except letters, digits, `-`, `.`, `_` and `~`.
#[verifier::external_body]
pub(crate) fn url_encoded(s: &str) -> (r: String)
    ensures
        r@ == percent_encoded(encode_utf8(s@)),
{
    urlencoding::encode(s).into_owned()
}

/// One search, ready to be sent: a POST to `url` with the two headers and the
/// body.
#[derive(Debug, Clone, PartialEq, Eq)]
pub struct SearchRequest {
    pub url: String,
    pub authorization: String,
    pub content_type: String,
    pub body: String,
}

/// The mathematical value of a `SearchRequest`.
pub struct SearchRequestView {
    pub url: Seq<char>,
    pub authorization: Seq<char>,
    pub content_type: Seq<char>,
    pub body: Seq<char>,
}

impl View for SearchRequest {
    type V = SearchRequestView;

    open spec fn view(&self) -> SearchRequestView {
        SearchRequestView {
            url: self.url@,
            authorization: self.authorization@,
            content_type: self.content_type@,
            body: self.body@,
        }
    }
}

/// The message for a search without an address.
pub open spec fn url_not_configured() -> Seq<char> {
    "Search API URL not configured in Options"@
}

/// The message for a search without a key.
pub open spec fn key_not_configured() -> Seq<char> {
    "Search API key not configured in Options"@
}

/// The request for a search: the address and the key are trimmed, the answer
/// is asked for as JSON, the key goes into a bearer authorization, and the
/// query is percent-encoded into a form body.
pub open spec fn search_request(query: Seq<char>, api_url: Seq<char>, api_key: Seq<char>)
    -> SearchRequestView {
    SearchRequestView {
        url: trimmed(api_url) + "?format=json"@,
        authorization: "Bearer "@ + trimmed(api_key),
        content_type: "application/x-www-form-urlencoded"@,
        body: "q="@ + percent_encoded(encode_utf8(query)),
    }
}

/// What preparing a search gives: the request, or the message that says
/// which setting is missing. The address is looked at first.
pub open spec fn prepared_search(query: Seq<char>, api_url: Seq<char>, api_key: Seq<char>)
    -> Result<SearchRequestView, Seq<char>> {
    if blank(api_url) {
        Err(url_not_configured())
    } else if blank(api_key) {
        Err(key_not_configured())
    } else {
        Ok(search_request(query, api_url, api_key))
    }
}

/// Prepares a web search. Fails at once where the address or the key is
/// blank.
pub fn prepare_web_search(query: &str, api_url: &str, api_key: &str) -> (r: Result<
    SearchRequest,
    String,
>)
    ensures
        match r {
            Ok(request) => prepared_search(query@, api_url@, api_key@) == Ok::<_, Seq<char>>(
                request@,
            ),
            Err(message) => prepared_search(query@, api_url@, api_key@) == Err::<
                SearchRequestView,
                _,
            >(message@),
        },
{
    let api_url = trim(api_url);
    if api_url.is_empty() {
        return Err(owned("Search API URL not configured in Options"));
    }
    let api_key = trim(api_key);
    if api_key.is_empty() {
        return Err(owned("Search API key not configured in Options"));
    }
    let encoded = url_encoded(query);
    Ok(
        SearchRequest {
            url: joined(api_url, "?format=json"),
            authorization: joined("Bearer ", api_key),
            content_type: owned("application/x-www-form-urlencoded"),
            body: joined("q=", encoded.as_str()),
        },
    )
}

/// What a search has brought: the text of the answer, or a description of
/// what went wrong.
pub open spec fn search_outcome(exchange: Result<HttpReply<String>, String>) -> Result<
    Seq<char>,
    Seq<char>,
> {
    match exchange {
        Err(cause) => Err("Search request failed: "@ + cause@),
        Ok(reply) => if !success(reply.status) {
            Err("Search API error: "@ + reply.status_text@)
        } else {
            match reply.body {
                Ok(text) => Ok(text@),
                Err(cause) => Err("Failed to read search response: "@ + cause@),
            }
        },
    }
}

/// Turns what came back from a search into its text, or into a description
/// of the failure.
pub fn web_search_outcome(exchange: Result<HttpReply<String>, String>) -> (r: Result<String, String>)
    ensures
        match r {
            Ok(text) => search_outcome(exchange) == Ok::<_, Seq<char>>(text@),
            Err(message) => search_outcome(exchange) == Err::<Seq<char>, _>(message@),
        },
{
    match exchange {
        Err(cause) => Err(joined("Search request failed: ", cause.as_str())),
        Ok(reply) => {
            if !is_success(reply.status) {
                return Err(joined("Search API error: ", reply.status_text.as_str()));
            }
            match reply.body {
                Ok(text) => Ok(text),
                Err(cause) => Err(joined("Failed to read search response: ", cause.as_str())),
            }
        },
    }
}

} // verus!

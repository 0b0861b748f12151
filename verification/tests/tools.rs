use quickask::commands::{greet, redact_settings};
use quickask::json::{parse, render, Json, Member};
use quickask::models::{decode_models, models_outcome};
use quickask::text::{joined, owned, same_text};
use quickask::tools::{get_web_search_tool, prepare_web_search, tool_document, web_search_outcome, SearchRequest};
use quickask::transport::{is_success, HttpReply};

fn reply<B>(status: u16, status_text: &str, body: Result<B, String>) -> HttpReply<B> {
    HttpReply { status, status_text: status_text.to_string(), body }
}

#[test]
fn search_request_is_built_from_trimmed_settings() {
    let request = prepare_web_search("capital of France", "  https://search.example/api \n", "\tsecret ").unwrap();
    assert_eq!(
        request,
        SearchRequest {
            url: "https://search.example/api?format=json".to_string(),
            authorization: "Bearer secret".to_string(),
            content_type: "application/x-www-form-urlencoded".to_string(),
            body: "q=capital%20of%20France".to_string(),
        }
    );
}

#[test]
fn query_is_percent_encoded_byte_by_byte() {
    let request = prepare_web_search("a-b_c.d~e & f=g/h?\u{e9}\u{20ac}+", "u", "k").unwrap();
    assert_eq!(request.body, "q=a-b_c.d~e%20%26%20f%3Dg%2Fh%3F%C3%A9%E2%82%AC%2B");
    assert_eq!(prepare_web_search("", "u", "k").unwrap().body, "q=");
    assert_eq!(prepare_web_search("AZaz09", "u", "k").unwrap().body, "q=AZaz09");
}

#[test]
fn missing_settings_fail_at_once() {
    assert_eq!(
        prepare_web_search("q", "", "key"),
        Err("Search API URL not configured in Options".to_string())
    );
    assert_eq!(
        prepare_web_search("q", " \t\n", ""),
        Err("Search API URL not configured in Options".to_string())
    );
    assert_eq!(
        prepare_web_search("q", "https://search.example", "   "),
        Err("Search API key not configured in Options".to_string())
    );
}

#[test]
fn search_outcome_is_text_or_a_description() {
    assert_eq!(web_search_outcome(Ok(reply(200, "200 OK", Ok("{\"r\":1}".to_string())))), Ok("{\"r\":1}".to_string()));
    assert_eq!(web_search_outcome(Ok(reply(299, "299", Ok(String::new())))), Ok(String::new()));
    assert_eq!(
        web_search_outcome(Ok(reply(401, "401 Unauthorized", Ok("denied".to_string())))),
        Err("Search API error: 401 Unauthorized".to_string())
    );
    assert_eq!(
        web_search_outcome(Ok(reply(300, "300 Multiple Choices", Ok(String::new())))),
        Err("Search API error: 300 Multiple Choices".to_string())
    );
    assert_eq!(
        web_search_outcome(Ok(reply(199, "199", Ok(String::new())))),
        Err("Search API error: 199".to_string())
    );
    assert_eq!(
        web_search_outcome(Ok(reply(200, "200 OK", Err("reset".to_string())))),
        Err("Failed to read search response: reset".to_string())
    );
    assert_eq!(
        web_search_outcome(Err("dns failure".to_string())),
        Err("Search request failed: dns failure".to_string())
    );
}

#[test]
fn success_is_two_hundred_to_two_ninety_nine() {
    assert!(!is_success(199));
    assert!(is_success(200));
    assert!(is_success(299));
    assert!(!is_success(300));
    assert!(!is_success(0));
    assert!(!is_success(65535));
}

#[test]
fn web_search_tool_declares_one_required_query() {
    let tool = get_web_search_tool();
    assert_eq!(tool.tool_type, "function");
    assert_eq!(tool.function.name, "web_search");
    assert_eq!(
        tool.function.description,
        "Search the internet for current information. Use this when you need to find up-to-date information or facts you don't know."
    );
    assert_eq!(
        render(&tool_document(&tool)),
        "{\"function\":{\"description\":\"Search the internet for current information. Use this when you need to find up-to-date information or facts you don't know.\",\"name\":\"web_search\",\"parameters\":{\"properties\":{\"query\":{\"description\":\"The search query to look up on the internet\",\"type\":\"string\"}},\"required\":[\"query\"],\"type\":\"object\"}},\"type\":\"function\"}"
    );
}

#[test]
fn text_helpers_compare_copy_and_join() {
    assert!(same_text("", ""));
    assert!(same_text("caf\u{e9}", "caf\u{e9}"));
    assert!(!same_text("en", "e"));
    assert!(!same_text("en", "em"));
    assert_eq!(owned("x"), "x");
    assert_eq!(joined("ab", "cd"), "abcd");
    assert_eq!(joined("", ""), "");
}

#[test]
fn models_are_listed_by_name() {
    let body = b"{\"models\":[{\"name\":\"llama3:8b\",\"size\":1},{\"name\":\"qwen3\"}]}".to_vec();
    assert_eq!(
        models_outcome(Ok(reply(200, "200 OK", Ok(body)))),
        Ok(vec!["llama3:8b".to_string(), "qwen3".to_string()])
    );
    assert_eq!(models_outcome(Ok(reply(200, "200 OK", Ok(b"{\"models\":[]}".to_vec())))), Ok(Vec::new()));
    assert_eq!(decode_models(&parse(b"{\"models\":[{\"name\":\"a\"}]}").unwrap()), Some(vec!["a".to_string()]));
}

#[test]
fn models_failures_are_described() {
    assert_eq!(
        models_outcome(Err("refused".to_string())),
        Err("Failed to connect to Ollama: refused. Make sure Ollama is running.".to_string())
    );
    assert_eq!(
        models_outcome(Ok(reply(500, "500 Internal Server Error", Ok(b"{\"models\":[]}".to_vec())))),
        Err("Ollama API error: 500 Internal Server Error".to_string())
    );
    assert_eq!(
        models_outcome(Ok(reply(200, "200 OK", Err("cut".to_string())))),
        Err("Failed to read response body: cut".to_string())
    );
    for bad in [&b"{}"[..], b"{\"models\":{}}", b"{\"models\":[{}]}", b"{\"models\":[{\"name\":1}]}", b"{\"models\":[\"a\"]}"] {
        assert_eq!(
            models_outcome(Ok(reply(200, "200 OK", Ok(bad.to_vec())))),
            Err("Failed to parse models response: unexpected document".to_string())
        );
    }
    let said = serde_json::from_slice::<serde_json::Value>(b"nope").unwrap_err().to_string();
    assert!(said.starts_with("expected ident"));
    assert_eq!(
        models_outcome(Ok(reply(200, "200 OK", Ok(b"nope".to_vec())))),
        Err(format!("Failed to parse models response: {}", said))
    );
    let said = serde_json::from_slice::<serde_json::Value>(b"{\"models\":").unwrap_err().to_string();
    assert_eq!(
        models_outcome(Ok(reply(200, "200 OK", Ok(b"{\"models\":".to_vec())))),
        Err(format!("Failed to parse models response: {}", said))
    );
}

#[test]
fn white_space_is_what_unicode_says() {
    let spaces = [
        '\u{9}', '\u{a}', '\u{b}', '\u{c}', '\u{d}', ' ', '\u{85}', '\u{a0}', '\u{1680}', '\u{2000}',
        '\u{2001}', '\u{2002}', '\u{2003}', '\u{2004}', '\u{2005}', '\u{2006}', '\u{2007}',
        '\u{2008}', '\u{2009}', '\u{200a}', '\u{2028}', '\u{2029}', '\u{202f}', '\u{205f}',
        '\u{3000}',
    ];
    let mut count = 0;
    for code in 0..=0x10ffffu32 {
        if let Some(c) = char::from_u32(code) {
            assert_eq!(c.is_whitespace(), spaces.contains(&c), "U+{:04X}", code);
            if c.is_whitespace() {
                count += 1;
            }
        }
    }
    assert_eq!(count, 25);
    for c in spaces {
        let url = format!("{}u{}", c, c);
        assert_eq!(prepare_web_search("q", &url, "k").unwrap().url, "u?format=json");
        assert!(prepare_web_search("q", &c.to_string(), "k").is_err());
    }
    for c in ['\u{200b}', '\u{180e}', '\u{feff}', '\u{1c}', '\u{1f}', 'x'] {
        let url = format!("{}u{}", c, c);
        assert_eq!(prepare_web_search("q", &url, "k").unwrap().url, format!("{}?format=json", url));
    }
}

#[test]
fn greeting_names_the_guest() {
    assert_eq!(greet("Ada"), "Hello, Ada! You've been greeted from Rust!");
    assert_eq!(greet(""), "Hello, ! You've been greeted from Rust!");
}

#[test]
fn search_key_is_not_shown() {
    let settings = parse(b"{\"model\":\"m\",\"webSearchApiKey\":\"secret\",\"webSearchApiUrl\":\"u\"}").unwrap();
    assert_eq!(
        render(&redact_settings(settings)),
        "{\"model\":\"m\",\"webSearchApiKey\":\"[redacted]\",\"webSearchApiUrl\":\"u\"}"
    );
    let settings = parse(b"{\"model\":\"m\"}").unwrap();
    assert_eq!(render(&redact_settings(settings)), "{\"model\":\"m\"}");
    let twice = Json::Object(vec![
        Member { key: "webSearchApiKey".to_string(), value: Json::Text("one".to_string()) },
        Member { key: "model".to_string(), value: Json::Text("m".to_string()) },
        Member { key: "webSearchApiKey".to_string(), value: Json::Text("two".to_string()) },
    ]);
    assert_eq!(
        redact_settings(twice),
        Json::Object(vec![
            Member { key: "webSearchApiKey".to_string(), value: Json::Text("[redacted]".to_string()) },
            Member { key: "model".to_string(), value: Json::Text("m".to_string()) },
            Member { key: "webSearchApiKey".to_string(), value: Json::Text("[redacted]".to_string()) },
        ])
    );
    let settings = parse(b"[\"webSearchApiKey\"]").unwrap();
    assert_eq!(render(&redact_settings(settings)), "[\"webSearchApiKey\"]");
}

use quickask::json::parse;
use quickask::translate::{
    build_translation_request, fresh_request_number, new_translation_request, parse_translation,
    request_number_of, translation_result, TranslationAction, TranslationJob, TranslationStage,
};
use quickask::transport::HttpReply;
use quickask::TranslationResult;

fn result(text: &str, detected: &str) -> TranslationResult {
    TranslationResult { text: text.to_string(), detected_language: detected.to_string() }
}

fn could_not_parse() -> String {
    ["Could not parse translation", "from response"].join(" ")
}

fn said(bytes: &[u8]) -> String {
    serde_json::from_slice::<serde_json::Value>(bytes).unwrap_err().to_string()
}

fn decode_form(encoded: &str) -> String {
    urlencoding::decode(encoded).unwrap().into_owned()
}

#[test]
fn source_english_without_target_fails() {
    let (mut job, action) = TranslationJob::begin("hello", None);
    assert_eq!(action, TranslationAction::Translate("en".to_string()));
    assert_eq!(job.stage(), TranslationStage::AwaitingEnglish);
    let action = job.step(Ok(result("hello", "en")));
    assert_eq!(action, TranslationAction::Finish(Err("Source is English".to_string())));
    assert_eq!(job.stage(), TranslationStage::Finished);
}

#[test]
fn english_target_counts_as_no_target() {
    for target in [Some("en".to_string()), Some("  en \n".to_string()), Some("   ".to_string()), Some(String::new())] {
        let (mut job, action) = TranslationJob::begin("bonjour", target);
        assert_eq!(action, TranslationAction::Translate("en".to_string()));
        let action = job.step(Ok(result("hello", "fr")));
        assert_eq!(action, TranslationAction::Finish(Ok(result("hello", "fr"))));
    }
}

#[test]
fn other_target_is_used_unless_source_is_english() {
    let (mut job, action) = TranslationJob::begin("bonjour", Some(" de ".to_string()));
    assert_eq!(action, TranslationAction::Translate("de".to_string()));
    assert_eq!(job.stage(), TranslationStage::AwaitingTarget);
    let action = job.step(Ok(result("hallo", "fr")));
    assert_eq!(action, TranslationAction::Finish(Ok(result("hallo", "fr"))));
    assert_eq!(job.stage(), TranslationStage::Finished);
}

#[test]
fn english_source_falls_back_to_english() {
    let (mut job, action) = TranslationJob::begin("hello", Some("de".to_string()));
    assert_eq!(action, TranslationAction::Translate("de".to_string()));
    let action = job.step(Ok(result("hallo", "en")));
    assert_eq!(action, TranslationAction::Translate("en".to_string()));
    assert_eq!(job.stage(), TranslationStage::AwaitingFallback);
    let action = job.step(Ok(result("hello", "en")));
    assert_eq!(action, TranslationAction::Finish(Ok(result("hello", "en"))));
    assert_eq!(job.stage(), TranslationStage::Finished);
    assert_eq!(job.step(Ok(result("x", "y"))), TranslationAction::Finish(Err("Unexpected event".to_string())));
}

#[test]
fn first_failure_is_passed_on() {
    let (mut job, _) = TranslationJob::begin("hello", None);
    assert_eq!(job.step(Err("HTTP error: 429 Too Many Requests".to_string())), TranslationAction::Finish(Err("HTTP error: 429 Too Many Requests".to_string())));
    let (mut job, _) = TranslationJob::begin("hello", Some("de".to_string()));
    assert_eq!(job.step(Err("a".to_string())), TranslationAction::Finish(Err("a".to_string())));
    let (mut job, _) = TranslationJob::begin("hello", Some("de".to_string()));
    assert_eq!(job.step(Ok(result("hallo", "en"))), TranslationAction::Translate("en".to_string()));
    assert_eq!(job.step(Err("b".to_string())), TranslationAction::Finish(Err("b".to_string())));
}

#[test]
fn blank_text_is_not_translated() {
    let (job, action) = TranslationJob::begin("  \n", Some("de".to_string()));
    assert_eq!(action, TranslationAction::Finish(Err("Empty text".to_string())));
    assert_eq!(job.stage(), TranslationStage::Finished);
}

#[test]
fn request_number_has_four_digits() {
    assert_eq!(request_number_of(0), 1000);
    assert_eq!(request_number_of(8999), 9999);
    assert_eq!(request_number_of(9000), 1000);
    assert_eq!(request_number_of(4294967295), 4294967295 % 9000 + 1000);
    for _ in 0..50 {
        let number = fresh_request_number();
        assert!((1000..10000).contains(&number));
    }
}

#[test]
fn request_carries_text_and_trimmed_target() {
    let request = build_translation_request("Guten Tag & \"mehr\"", " en ", 4321);
    assert_eq!(
        request.url,
        "https://translate.google.com/_/TranslateWebserverUi/data/batchexecute?rpcids=MkEWBc&source-path=/&f.sid=&bl=&hl=en-US&soc-app=1&soc-platform=1&soc-device=1&_reqid=4321&rt=c"
    );
    assert_eq!(request.content_type, "application/x-www-form-urlencoded;charset=UTF-8");
    assert!(request.body.starts_with("f.req=%5B%5B%5B%22MkEWBc%22%2C"));
    assert!(request.body.ends_with("&"));
    let encoded = &request.body["f.req=".len()..request.body.len() - 1];
    assert!(encoded.bytes().all(|b| b.is_ascii_alphanumeric() || b"-_.~%".contains(&b)));
    let outer = parse(decode_form(encoded).as_bytes()).unwrap();
    let envelope = outer.item(0).unwrap().item(0).unwrap();
    assert_eq!(envelope.as_array().unwrap().len(), 4);
    assert_eq!(envelope.item(0).unwrap().as_text(), Some("MkEWBc"));
    assert_eq!(envelope.item(3).unwrap().as_text(), Some("0"));
    let inner_text = envelope.item(1).unwrap().as_text().unwrap();
    assert_eq!(inner_text, "[[\"Guten Tag & \\\"mehr\\\"\",\"auto\",\"en\",true],[null]]");
}

#[test]
fn drawn_request_number_is_in_the_address() {
    let (number, request) = new_translation_request("x", "de");
    assert!((1000..10000).contains(&number));
    assert_eq!(request, build_translation_request("x", "de", number));
    assert!(request.url.ends_with(&format!("&_reqid={}&rt=c", number)));
}

fn answer_body(data: &str) -> String {
    let escaped = data.replace('\\', "\\\\").replace('"', "\\\"");
    format!(
        ")]}}'\n\n123\n[[\"wrb.fr\",\"MkEWBc\",\"{}\",null,null,null,\"generic\"],[\"di\",38],[\"af.httprm\",37,\"1\",4]]\n25\n[[\"e\",4,null,null,236]]\n",
        escaped
    )
}

#[test]
fn translation_is_read_from_the_answer() {
    let data = "[[null,null,\"fr\"],[[[null,null,null,null,null,[[\"Hello \",null],[\"world\"],[5],\"x\"]]],\"en\",1,\"fr\",[\"Bonjour le monde\"]],\"fr\"]";
    assert_eq!(parse_translation(&answer_body(data)), Ok(result("Hello world", "fr")));
}

#[test]
fn detected_language_has_one_place() {
    let data = "[[null,null,\"fr\"],[[[null,null,null,null,null,[[\"Hello\"]]]],\"en\",1,null],\"fr\"]";
    assert_eq!(
        parse_translation(&answer_body(data)),
        Err(could_not_parse())
    );
}

#[test]
fn answers_without_translation_are_described() {
    assert_eq!(parse_translation(""), Err("Invalid response format".to_string()));
    assert_eq!(parse_translation(")]}'\n\n"), Err("Invalid response format".to_string()));
    assert_eq!(parse_translation(")]}'\n\n1"), Err(could_not_parse()));
    assert_eq!(
        parse_translation(")]}'\n\n[[\"e\",4]]\n[[\"other\",1,\"[]\"]]\n{\"a\":1}\n"),
        Err(could_not_parse())
    );
    assert_eq!(
        parse_translation(")]}'\n\n[[\"wrb.fr\",\"MkEWBc\"\n"),
        Err(format!("Failed to parse response JSON: {}", said(b"[[\"wrb.fr\",\"MkEWBc\"\n")))
    );
    assert_eq!(
        parse_translation(")]}'\n\n[[\"wrb.fr\",\"MkEWBc\",\"[not json\"]]\n"),
        Err(format!("Failed to parse translation data: {}", said(b"[not json")))
    );
    assert_eq!(
        parse_translation(&answer_body("[1,[[[1,2,3,4,5,\"no parts\"]]]]")),
        Err(could_not_parse())
    );
}

#[test]
fn answer_without_translation_names_what_is_missing() {
    let message = parse_translation(")]}'\n\nhello\n").unwrap_err();
    assert_eq!(message.len(), 41);
    assert!(message.starts_with("Could not parse translation "));
    assert!(message.ends_with(" from response"));
    assert_eq!(message, could_not_parse());
}

#[test]
fn answer_without_final_newline_is_read() {
    let data = "[null,[[[null,null,null,null,null,[[\"Hi\"]]]],\"en\",1,\"de\"]]";
    let escaped = data.replace('"', "\\\"");
    let body = format!(")]}}'\n\n[[\"wrb.fr\",\"MkEWBc\",\"{}\"]]", escaped);
    assert_eq!(parse_translation(&body), Ok(result("Hi", "de")));
    let body = format!(")]}}'\r\n[[\"wrb.fr\",\"MkEWBc\",\"{}\"]]\r\n", escaped);
    assert_eq!(parse_translation(&body), Ok(result("Hi", "de")));
}

#[test]
fn exchange_failures_are_described() {
    assert_eq!(translation_result(Err("timeout".to_string())), Err("Request failed: timeout".to_string()));
    assert_eq!(
        translation_result(Ok(HttpReply { status: 429, status_text: "429 Too Many Requests".to_string(), body: Ok(String::new()) })),
        Err("HTTP error: 429 Too Many Requests".to_string())
    );
    assert_eq!(
        translation_result(Ok(HttpReply { status: 200, status_text: "200 OK".to_string(), body: Err("cut".to_string()) })),
        Err("Failed to read response: cut".to_string())
    );
    let data = "[null,[[[null,null,null,null,null,[[\"Hi\"]]]],\"en\",1,\"de\"]]";
    assert_eq!(
        translation_result(Ok(HttpReply { status: 200, status_text: "200 OK".to_string(), body: Ok(answer_body(data)) })),
        Ok(result("Hi", "de"))
    );
}

use roleplay_turn::json::Json;
use roleplay_turn::prompt::system_instruction;
use roleplay_turn::turn::{
    conclude_parsed, conclude_turn, first_choice_text, prepare_turn, resolve_difficulty,
    resolve_model, ErrorKind, HttpStatus, Reply, RoleplayTurnInput,
};

fn input(api_key: &str, model: Option<&str>, difficulty: Option<u8>, transcript: &str) -> RoleplayTurnInput {
    RoleplayTurnInput {
        api_key: api_key.to_string(),
        model: model.map(|m| m.to_string()),
        difficulty,
        transcript: transcript.to_string(),
    }
}

fn ok_status() -> HttpStatus {
    HttpStatus { code: 200, reason: Some("OK".to_string()) }
}

fn received(body: &str) -> Reply {
    Reply::Received { status: ok_status(), body: body.as_bytes().to_vec() }
}

fn expected_instruction(difficulty: u8, transcript: &str) -> String {
    format!(
        "You are simulating a life insurance prospect on a phone call. Difficulty: {} (1 easy, 2 normal, 3 hard).\n\nRules:\n- Respond as the CLIENT (short, realistic, sometimes skeptical).\n- Also include COACH feedback for the agent.\n- Output MUST be valid JSON only. No extra text.\n\nJSON schema:\n{{\n  \"client\": \"string (what client says next)\",\n  \"coach\": {{\n    \"score\": number 0-100,\n    \"note\": \"1 short sentence coaching\",\n    \"best\": \"a better agent response (short)\"\n  }},\n  \"hangup\": boolean\n}}\n\nConversation so far:\n{}",
        difficulty, transcript
    )
}

#[test]
fn empty_key_is_missing_credential() {
    assert_eq!(prepare_turn(input("", None, None, "Agent: hi")), Err(ErrorKind::MissingCredential));
}

#[test]
fn blank_key_is_missing_credential() {
    for key in ["   ", "\t\n", " \r\n\t ", "\u{3000}\u{a0}\u{2003}", "\u{85}\u{1680}\u{2028}\u{2029}\u{202f}\u{205f}"] {
        assert_eq!(
            prepare_turn(input(key, Some("m"), Some(3), "Agent: hi")),
            Err(ErrorKind::MissingCredential)
        );
    }
}

#[test]
fn missing_credential_message() {
    assert_eq!(
        ErrorKind::MissingCredential.message(),
        "Missing API key. Paste your OpenAI API key in Roleplay settings."
    );
}

#[test]
fn omitted_model_and_difficulty_take_defaults() {
    let request = prepare_turn(input("sk-test", None, None, "Agent: hello")).unwrap();
    assert_eq!(request.model, "gpt-5-mini");
    assert_eq!(request.messages.len(), 1);
    assert_eq!(request.messages[0].content, expected_instruction(2, "Agent: hello"));
    assert!(request.messages[0].content.contains("Difficulty: 2 (1 easy"));
}

#[test]
fn resolve_model_and_difficulty() {
    assert_eq!(resolve_model(None), "gpt-5-mini");
    assert_eq!(resolve_model(Some("gpt-4o".to_string())), "gpt-4o");
    assert_eq!(resolve_model(Some(String::new())), "");
    assert_eq!(resolve_difficulty(None), 2);
    assert_eq!(resolve_difficulty(Some(1)), 1);
    assert_eq!(resolve_difficulty(Some(3)), 3);
    assert_eq!(resolve_difficulty(Some(0)), 0);
}

#[test]
fn request_carries_given_fields() {
    let request = prepare_turn(input("  sk-abc \n", Some("gpt-4o"), Some(3), "Agent: hi\nClient: who?")).unwrap();
    assert_eq!(request.endpoint, "https://api.openai.com/v1/chat/completions");
    assert_eq!(request.bearer_token, "sk-abc");
    assert_eq!(request.model, "gpt-4o");
    assert_eq!(request.temperature_tenths, 7);
    assert_eq!(request.messages.len(), 1);
    assert_eq!(request.messages[0].role, "system");
    assert_eq!(request.messages[0].content, expected_instruction(3, "Agent: hi\nClient: who?"));
}

#[test]
fn key_with_inner_space_keeps_it() {
    let request = prepare_turn(input("\u{a0}a b\u{3000}", None, None, "")).unwrap();
    assert_eq!(request.bearer_token, "a b");
}

#[test]
fn instruction_holds_transcript_and_difficulty() {
    let transcript = "Agent: Hello {there}\n  Client: \"who is this?\" \u{e9}\u{1f600}  ";
    for difficulty in [0u8, 1, 2, 3, 9, 10, 42, 100, 255] {
        let text = system_instruction(difficulty, transcript);
        assert_eq!(text, expected_instruction(difficulty, transcript));
        assert!(text.ends_with(transcript));
        assert!(text.contains(&format!("Difficulty: {} (", difficulty)));
    }
}

#[test]
fn instruction_names_the_answer_fields() {
    let text = system_instruction(2, "");
    for field in ["\"client\"", "\"coach\"", "\"score\"", "\"note\"", "\"best\"", "\"hangup\""] {
        assert!(text.contains(field));
    }
    assert!(text.ends_with("Conversation so far:\n"));
}

#[test]
fn reply_with_content_is_returned_unchanged() {
    let body = "{\"choices\":[{\"message\":{\"content\":\"{\\\"client\\\":\\\"Hi\\\",\\\"coach\\\":{\\\"score\\\":80,\\\"note\\\":\\\"ok\\\",\\\"best\\\":\\\"try X\\\"},\\\"hangup\\\":false}\"}}]}";
    let out = conclude_turn(received(body)).unwrap();
    assert_eq!(
        out.raw_text,
        "{\"client\":\"Hi\",\"coach\":{\"score\":80,\"note\":\"ok\",\"best\":\"try X\"},\"hangup\":false}"
    );
}

#[test]
fn reply_text_keeps_surrounding_space() {
    let out = conclude_turn(received("{\"choices\":[{\"message\":{\"content\":\"  hi there \\n\"}},{\"message\":{\"content\":\"second\"}}]}")).unwrap();
    assert_eq!(out.raw_text, "  hi there \n");
}

#[test]
fn non_json_body_is_invalid_format() {
    let result = conclude_turn(received("<html>Bad Gateway</html>"));
    match result {
        Err(ErrorKind::InvalidResponseFormat { status, detail }) => {
            assert_eq!(status, ok_status());
            let fault = serde_json::from_slice::<serde_json::Value>(b"<html>Bad Gateway</html>").unwrap_err();
            assert_eq!(detail, fault.to_string());
            let message = ErrorKind::InvalidResponseFormat { status, detail: detail.clone() }.message();
            assert_eq!(message, format!("AI response not JSON: {} (status 200 OK)", detail));
            assert!(message.contains("200"));
        }
        other => panic!("unexpected result: {:?}", other),
    }
}

#[test]
fn empty_and_truncated_bodies_are_invalid_format() {
    for body in ["", "{\"choices\":[", "{} trailing", "\u{feff}{}"] {
        let status = HttpStatus { code: 502, reason: Some("Bad Gateway".to_string()) };
        let result = conclude_turn(Reply::Received { status: status.clone(), body: body.as_bytes().to_vec() });
        match result {
            Err(ErrorKind::InvalidResponseFormat { status: s, .. }) => assert_eq!(s, status),
            other => panic!("unexpected result: {:?}", other),
        }
    }
}

#[test]
fn invalid_utf8_body_is_invalid_format() {
    let result = conclude_turn(Reply::Received { status: ok_status(), body: vec![b'"', 0xff, b'"'] });
    assert!(matches!(result, Err(ErrorKind::InvalidResponseFormat { .. })));
}

#[test]
fn empty_choices_is_empty_response() {
    assert_eq!(
        conclude_turn(received("{\"choices\":[]}")),
        Err(ErrorKind::EmptyResponse { status: ok_status() })
    );
}

#[test]
fn missing_content_is_empty_response() {
    for body in [
        "{\"choices\":[{\"message\":{}}]}",
        "{\"choices\":[{\"message\":{\"role\":\"assistant\"}}]}",
        "{\"choices\":[{}]}",
        "{}",
        "[]",
        "null",
        "42",
        "\"text\"",
        "{\"choices\":{\"0\":{\"message\":{\"content\":\"x\"}}}}",
        "{\"choices\":[{\"message\":{\"content\":null}}]}",
        "{\"choices\":[{\"message\":{\"content\":17}}]}",
        "{\"choices\":[{\"message\":{\"content\":[\"x\"]}}]}",
        "{\"choices\":[{\"message\":{\"content\":\"\"}}]}",
        "{\"choices\":[{\"message\":{\"content\":\" \\n\\t \"}}]}",
        "{\"error\":{\"message\":\"invalid key\"}}",
    ] {
        assert_eq!(
            conclude_turn(received(body)),
            Err(ErrorKind::EmptyResponse { status: ok_status() }),
            "body: {}",
            body
        );
    }
}

#[test]
fn empty_response_message_names_status() {
    let error = ErrorKind::EmptyResponse { status: HttpStatus { code: 401, reason: Some("Unauthorized".to_string()) } };
    assert_eq!(error.message(), "AI returned empty content (status 401 Unauthorized)");
}

#[test]
fn unreachable_service_is_request_failed() {
    let result = conclude_turn(Reply::Unreachable { detail: "error sending request".to_string() });
    assert_eq!(result, Err(ErrorKind::RequestFailed { detail: "error sending request".to_string() }));
    assert_eq!(result.unwrap_err().message(), "AI request failed: error sending request");
}

#[test]
fn unreadable_body_is_invalid_format() {
    let status = HttpStatus { code: 200, reason: Some("OK".to_string()) };
    let result = conclude_turn(Reply::Unreadable { status: status.clone(), detail: "error decoding response body".to_string() });
    assert_eq!(
        result,
        Err(ErrorKind::InvalidResponseFormat { status, detail: "error decoding response body".to_string() })
    );
    assert_eq!(
        result.unwrap_err().message(),
        "AI response not JSON: error decoding response body (status 200 OK)"
    );
}

#[test]
fn status_rendering() {
    assert_eq!(HttpStatus { code: 200, reason: Some("OK".to_string()) }.render(), "200 OK");
    assert_eq!(HttpStatus { code: 404, reason: Some("Not Found".to_string()) }.render(), "404 Not Found");
    assert_eq!(HttpStatus { code: 599, reason: None }.render(), "599 <unknown status code>");
    assert_eq!(HttpStatus { code: 0, reason: None }.render(), "0 <unknown status code>");
    assert_eq!(HttpStatus { code: 65535, reason: None }.render(), "65535 <unknown status code>");
}

#[test]
fn conclude_parsed_on_given_documents() {
    let content = Json::Record(vec![("content".to_string(), Json::Text("hello".to_string()))]);
    let choice = Json::Record(vec![("index".to_string(), Json::Number("0".to_string())), ("message".to_string(), content)]);
    let doc = Json::Record(vec![("choices".to_string(), Json::List(vec![choice]))]);
    assert_eq!(first_choice_text(&doc), "hello");
    assert_eq!(conclude_parsed(ok_status(), Ok(doc)).unwrap().raw_text, "hello");
    assert_eq!(
        conclude_parsed(ok_status(), Ok(Json::Null)),
        Err(ErrorKind::EmptyResponse { status: ok_status() })
    );
    assert_eq!(
        conclude_parsed(ok_status(), Ok(Json::Record(vec![("choices".to_string(), Json::List(vec![]))]))),
        Err(ErrorKind::EmptyResponse { status: ok_status() })
    );
    assert_eq!(
        conclude_parsed(ok_status(), Err("expected value at line 1 column 1".to_string())),
        Err(ErrorKind::InvalidResponseFormat {
            status: ok_status(),
            detail: "expected value at line 1 column 1".to_string()
        })
    );
}

#[test]
fn reply_agrees_with_direct_indexing() {
    for body in [
        "{\"choices\":[{\"message\":{\"content\":\"a \\u00e9 \\ud83d\\ude00 \\\" \\\\ z\"}}]}",
        "{\"id\":1,\"choices\":[{\"finish_reason\":\"stop\",\"message\":{\"role\":\"assistant\",\"content\":\"deep\",\"extra\":{\"a\":[1,2.5,-3,true,null]}}}],\"usage\":{\"total_tokens\":12}}",
        "{\"choices\":[{\"message\":{\"content\":\"first\"}}],\"choices\":[{\"message\":{\"content\":\"last\"}}]}",
        "{\"choices\":[{\"message\":{\"content\":\"x\",\"content\":\"y\"}}]}",
    ] {
        let value: serde_json::Value = serde_json::from_slice(body.as_bytes()).unwrap();
        let expected = value["choices"][0]["message"]["content"].as_str().unwrap_or("").to_string();
        assert_eq!(conclude_turn(received(body)).unwrap().raw_text, expected, "body: {}", body);
    }
}

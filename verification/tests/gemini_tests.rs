use telegram_mp3_bot::gemini::{
    gemini_answer, gemini_url, interpret_gemini_reply, GeminiError, GeminiReply,
};

#[test]
fn gemini_request_url() {
    assert_eq!(
        gemini_url("KEY"),
        "https://generativelanguage.googleapis.com/v1beta/models/gemini-2.0-flash:generateContent?key=KEY"
    );
}

#[test]
fn gemini_reply_reading() {
    let ok = interpret_gemini_reply(GeminiReply { error: None, text: Some("hi".into()) });
    assert_eq!(ok.unwrap(), "hi");
    let err = interpret_gemini_reply(GeminiReply {
        error: Some("{\"code\":400}".into()),
        text: Some("ignored".into()),
    })
    .unwrap_err();
    assert_eq!(err.message(), "Gemini API error: {\"code\":400}");
    let none = interpret_gemini_reply(GeminiReply { error: None, text: None }).unwrap_err();
    assert!(matches!(none, GeminiError::Unparsable));
    assert_eq!(none.message(), "Failed to parse Gemini response");
}

#[test]
fn gemini_answer_from_body() {
    let body = r#"{"candidates":[{"content":{"parts":[{"text":"Hello!"}]}}]}"#;
    assert_eq!(gemini_answer(body).unwrap(), "Hello!");
    let body = r#"{"error":{"code":400,"message":"bad key"}}"#;
    assert_eq!(
        gemini_answer(body).unwrap_err().message(),
        "Gemini API error: {\"code\":400,\"message\":\"bad key\"}"
    );
    let body = r#"{"candidates":[]}"#;
    assert!(matches!(gemini_answer(body), Err(GeminiError::Unparsable)));
    let err = gemini_answer("not json").unwrap_err();
    assert!(matches!(err, GeminiError::NotJson { .. }));
    assert_eq!(
        err.message(),
        serde_json::from_str::<serde_json::Value>("not json").unwrap_err().to_string()
    );
}

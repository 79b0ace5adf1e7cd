use text_review::request::{
    authorization_header, build_prompt, build_request, build_request_body, completions_url,
    ChatMessage, CompletionRequestBody, BEARER_PREFIX, DEFAULT_BASE_URL, MAX_TOKENS, MODEL,
    PREAMBLE, USER_ROLE,
};

const INSTRUCTION: &str = "Review the following text for potentially discriminatory language, including but not limited to ableism, ageism, racism, antisemitism, islamophobia, and likewise: ";

#[test]
fn constants_are_the_fixed_values() {
    assert_eq!(PREAMBLE, INSTRUCTION);
    assert_eq!(MODEL, "gpt-3.5-turbo");
    assert_eq!(USER_ROLE, "user");
    assert_eq!(MAX_TOKENS, 100);
    assert_eq!(BEARER_PREFIX, "Bearer ");
    assert_eq!(DEFAULT_BASE_URL, "https://api.openai.com");
}

#[test]
fn prompt_is_the_preamble_and_the_text() {
    assert_eq!(
        build_prompt("This is a normal sentence without any discriminatory language."),
        "Review the following text for potentially discriminatory language, including but not limited to ableism, ageism, racism, antisemitism, islamophobia, and likewise: This is a normal sentence without any discriminatory language."
    );
}

#[test]
fn prompt_of_an_empty_text_is_the_preamble() {
    assert_eq!(build_prompt(""), INSTRUCTION);
}

#[test]
fn prompt_keeps_the_text_verbatim() {
    let text = "line one\nline \"two\"\r\n\t{\"json\": [1, 2]} \\ {} %s \u{e9}\u{1f600}\u{0} ";
    let prompt = build_prompt(text);
    assert_eq!(prompt, format!("{}{}", INSTRUCTION, text));
    assert_eq!(&prompt.as_bytes()[INSTRUCTION.len()..], text.as_bytes());
}

#[test]
fn body_holds_one_message_from_the_user() {
    let text = "This is an example sentence with discriminatory language: stupid beginners";
    let body = build_request_body(text);
    assert_eq!(
        body,
        CompletionRequestBody {
            model: "gpt-3.5-turbo".to_string(),
            messages: vec![ChatMessage {
                role: "user".to_string(),
                content: format!("{}{}", INSTRUCTION, text),
            }],
            max_tokens: 100,
        }
    );
    assert_eq!(body.messages.len(), 1);
}

#[test]
fn body_of_an_empty_text_still_holds_one_message() {
    let body = build_request_body("");
    assert_eq!(body.messages.len(), 1);
    assert_eq!(body.messages[0].role, "user");
    assert_eq!(body.messages[0].content, INSTRUCTION);
}

#[test]
fn url_is_the_base_and_the_path() {
    assert_eq!(completions_url("https://api.openai.com"), "https://api.openai.com/v1/chat/completions");
    assert_eq!(completions_url("http://127.0.0.1:8080"), "http://127.0.0.1:8080/v1/chat/completions");
    assert_eq!(completions_url(""), "/v1/chat/completions");
    assert_eq!(completions_url("http://host/"), "http://host//v1/chat/completions");
}

#[test]
fn header_is_bearer_and_the_credential() {
    assert_eq!(authorization_header("fake_api_key"), "Bearer fake_api_key");
    assert_eq!(authorization_header("sk-A b\tc "), "Bearer sk-A b\tc ");
    assert_eq!(authorization_header(""), "Bearer ");
    assert_eq!(authorization_header("Bearer x"), "Bearer Bearer x");
}

#[test]
fn request_puts_the_three_together() {
    let request = build_request("fake_api_key", "some text", "http://localhost:1");
    assert_eq!(request.url, "http://localhost:1/v1/chat/completions");
    assert_eq!(request.authorization, "Bearer fake_api_key");
    assert_eq!(request.body, build_request_body("some text"));
}

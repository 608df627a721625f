use da_harness::client::{ChatResponse, Readiness, Temperature};
use da_harness::models::{context_window, ModelListing};
use da_harness::multi_tool::message::{Comparable, FunctionCall, Message, TextContent, ToolCall, UserContent};
use da_harness::multi_tool::reply::{
    assistant_text, assistant_tool_calls, AssistantReply, ReplyAudio, Role,
};
use da_harness::schema::ToolDescription;
use da_harness::usage::{CompletionUsage, PromptTokensDetails};
use da_harness::{LLMConfig, OpenAIClient, TokenUsage};

fn config(api_base: &str) -> LLMConfig {
    LLMConfig {
        api_base: api_base.to_string(),
        model_name: "m".to_string(),
        api_key: "SECRET-REDACTED".to_string(),
        max_context_tokens: Some(8),
    }
}

#[test]
fn default_config_points_to_a_local_endpoint() {
    let c = LLMConfig::default();
    assert_eq!(c.api_base, "http://127.0.0.1:4242/v1");
    assert_eq!(c.model_name, "LocalModel");
    assert_eq!(c.api_key, "");
    assert_eq!(c.max_context_tokens, None);
    let client = OpenAIClient::default();
    assert_eq!(client.api_base.as_deref(), Some("http://127.0.0.1:4242/v1"));
    assert_eq!(OpenAIClient::new().model_name(), "LocalModel");
    assert_eq!(client.max_context_tokens(), None);
}

#[test]
fn chat_path_is_cut_off_the_base() {
    let client = OpenAIClient::with_config(config("http://h/v1/chat/completions"));
    assert_eq!(client.api_base.as_deref(), Some("http://h/v1"));
    assert_eq!(client.model_name(), "m");
    assert_eq!(client.max_context_tokens(), Some(8));
    assert_eq!(client.api_key, "SECRET-REDACTED");
    let client = OpenAIClient::with_config(config("http://h/v1"));
    assert_eq!(client.api_base.as_deref(), Some("http://h/v1"));
    let client = OpenAIClient::with_config(config(""));
    assert_eq!(client.api_base, None);
}

#[test]
fn requests_carry_what_they_are_given() {
    let client = OpenAIClient::with_config(config(""));
    let hi = || vec![Message::User(UserContent::Text("hi".to_string()), None)];
    let request = client.chat(hi(), Temperature { bits: 0.6f32.to_bits() });
    assert_eq!(request.model, "m");
    assert!(request.messages.same(&hi()));
    assert_eq!(f32::from_bits(request.temperature.bits), 0.6);
    assert!(request.tools.is_none());
    assert_eq!(request.parallel_tool_calls, None);

    let tool = ToolDescription {
        name: "T".to_string(),
        description: Some("d".to_string()),
        parameters: serde_json::Value::Null,
    };
    let request =
        client.chat_with_tools(hi(), vec![tool.duplicate()], true, Temperature { bits: 0 });
    let tools = request.tools.unwrap();
    assert_eq!(tools.len(), 1);
    assert_eq!(tools[0].name, "T");
    assert_eq!(tools[0].description.as_deref(), Some("d"));
    assert_eq!(tools[0].parameters, serde_json::Value::Null);
    assert_eq!(request.parallel_tool_calls, Some(true));
}

#[test]
fn health_check_is_a_minimal_request() {
    let request = OpenAIClient::new().check_health();
    assert_eq!(f32::from_bits(request.temperature.bits), 0.0);
    assert_eq!(request.messages.len(), 2);
    match (&request.messages[0], &request.messages[1]) {
        (
            Message::System(TextContent::Text(s), None),
            Message::User(UserContent::Text(u), None),
        ) => {
            assert_eq!(s, "You are a test assistant.");
            assert_eq!(u, "Say 'OK'.");
        }
        other => panic!("{other:?}"),
    }
    assert_eq!(OpenAIClient::new().wait_until_ready(true), Readiness::Ready);
    assert_eq!(OpenAIClient::new().wait_until_ready(false), Readiness::CheckAgainAfter(30));
}

#[test]
fn usage_takes_cached_tokens_from_the_details() {
    let mut usage = CompletionUsage {
        prompt_tokens: 10,
        completion_tokens: 3,
        total_tokens: 13,
        prompt_tokens_details: None,
    };
    assert_eq!(
        TokenUsage::from_completion_usage(&usage),
        TokenUsage {
            prompt_tokens: 10,
            completion_tokens: 3,
            total_tokens: 13,
            cached_prompt_tokens: None,
        }
    );
    usage.prompt_tokens_details =
        Some(PromptTokensDetails { audio_tokens: Some(9), cached_tokens: Some(4) });
    assert_eq!(TokenUsage::from_completion_usage(&usage).cached_prompt_tokens, Some(4));
    assert_eq!(TokenUsage::default().total_tokens, 0);
}

#[test]
fn first_choice_is_read() {
    let usage = CompletionUsage {
        prompt_tokens: 1,
        completion_tokens: 2,
        total_tokens: 3,
        prompt_tokens_details: None,
    };
    let response = ChatResponse {
        choices: vec![assistant_text("one".to_string()), assistant_text("two".to_string())],
        usage: Some(usage),
    };
    assert_eq!(response.text().unwrap(), "one");
    let (text, counts) = response.text_with_usage().unwrap();
    assert_eq!(text, "one");
    assert_eq!(counts.unwrap().total_tokens, 3);

    let call = ToolCall {
        id: "c".to_string(),
        function: FunctionCall { name: "T".to_string(), arguments: "{}".to_string() },
    };
    let response = ChatResponse { choices: vec![assistant_tool_calls(vec![call])], usage: None };
    assert_eq!(response.text().unwrap_err().message(), "LLM returned no content");
    let (reply, counts) = response.reply_with_usage();
    assert_eq!(reply.tool_calls.unwrap()[0].id, "c");
    assert!(counts.is_none());
}

#[test]
fn reply_is_handed_out_with_all_it_holds() {
    let reply = AssistantReply {
        content: Some("text".to_string()),
        refusal: Some("no".to_string()),
        tool_calls: None,
        role: Role::Function,
        function_call: Some(FunctionCall { name: "f".to_string(), arguments: "{}".to_string() }),
        audio: Some(ReplyAudio {
            id: "sound".to_string(),
            expires_at: 7,
            data: "AAAA".to_string(),
            transcript: "said".to_string(),
        }),
    };
    let response = ChatResponse { choices: vec![reply], usage: None };
    let (reply, _) = response.reply_with_usage();
    assert_eq!(reply.content.as_deref(), Some("text"));
    assert_eq!(reply.refusal.as_deref(), Some("no"));
    assert!(reply.tool_calls.is_none());
    assert_eq!(reply.role, Role::Function);
    assert_eq!(reply.function_call.unwrap().name, "f");
    let audio = reply.audio.unwrap();
    assert_eq!(audio.id, "sound");
    assert_eq!(audio.expires_at, 7);
    assert_eq!(audio.data, "AAAA");
    assert_eq!(audio.transcript, "said");
    assert_eq!(assistant_text("t".to_string()).role, Role::Assistant);
}

fn discover(name: &str, body: &str) -> (OpenAIClient, Option<usize>) {
    let mut client = OpenAIClient::with_config(LLMConfig {
        model_name: name.to_string(),
        ..LLMConfig::default()
    });
    let found = client.discover_max_context_tokens(200, "200 OK", body).unwrap();
    (client, found)
}

#[test]
fn window_is_discovered_and_kept() {
    let body = r#"{"data":[{"id":"a","max_model_len":1},{"id":"b","n_ctx":4096,"max_tokens":9}]}"#;
    let (client, found) = discover("b", body);
    assert_eq!(found, Some(4096));
    assert_eq!(client.max_context_tokens(), Some(4096));
    for key in [
        "max_model_len",
        "max_context_length",
        "context_length",
        "n_ctx",
        "max_seq_len",
        "context_window",
        "max_tokens",
    ] {
        let body = format!("{{\"data\":[{{\"id\":\"x\",\"{key}\":77}}]}}");
        assert_eq!(discover("x", &body).1, Some(77));
    }
    // The order of the names counts, and only positive integers do.
    let body = r#"{"data":[{"id":"x","max_tokens":5,"context_length":6,"max_model_len":0,"max_context_length":-3,"n_ctx":1.5}]}"#;
    assert_eq!(discover("x", body).1, Some(6));
}

#[test]
fn unknown_windows_are_no_error() {
    for body in [
        "{}",
        "[]",
        "null",
        r#"{"data":{}}"#,
        r#"{"data":[]}"#,
        r#"{"data":[{"id":"other","n_ctx":5}]}"#,
        r#"{"data":[{"id":"x"}]}"#,
        r#"{"data":[{"id":"x","n_ctx":"12"}]}"#,
        r#"{"data":[{"id":"x"},{"id":"x","n_ctx":5}]}"#,
        r#"{"data":[{"n_ctx":5},7]}"#,
    ] {
        let (client, found) = discover("x", body);
        assert_eq!(found, None, "{body}");
        assert_eq!(client.max_context_tokens(), None);
    }
}

#[test]
fn failed_discovery_says_why() {
    let mut client = OpenAIClient::new();
    client.max_context_tokens = Some(3);
    let e = client.discover_max_context_tokens(404, "404 Not Found", "nothing here").unwrap_err();
    assert_eq!(e.message(), "GET /models failed: 404 Not Found body: nothing here");
    let e = client.discover_max_context_tokens(299, "299", "{").unwrap_err();
    assert_eq!(e.message(), "decoding /models response as JSON");
    assert_eq!(client.max_context_tokens(), Some(3));
    assert_eq!(client.discover_max_context_tokens(200, "200 OK", "{}").unwrap(), None);
    assert_eq!(client.max_context_tokens(), Some(3));
}

#[test]
fn first_entry_of_the_model_decides() {
    let entry = |id: Option<&str>, limits: Vec<Option<u64>>| ModelListing {
        id: id.map(|s| s.to_string()),
        limits,
    };
    let listings = vec![
        entry(None, vec![Some(1)]),
        entry(Some("y"), vec![Some(2)]),
        entry(Some("x"), vec![None, Some(0), Some(3), Some(4)]),
        entry(Some("x"), vec![Some(5)]),
    ];
    assert_eq!(context_window(&listings, "x"), Some(3));
    assert_eq!(context_window(&listings, "y"), Some(2));
    assert_eq!(context_window(&listings, "z"), None);
    let mut client = OpenAIClient::with_config(config(""));
    client.model_name = "x".to_string();
    assert_eq!(client.adopt_context_window(&listings), Some(3));
    assert_eq!(client.max_context_tokens(), Some(3));
}

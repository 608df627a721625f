//! The client of an OpenAI-compatible endpoint: its configuration, what it asks for and what it
//! reads out of the answers.
//!
//! The requests and the answers are plain values here. Whoever sends a request hands the answer
//! back.

use vstd::prelude::*;
use vstd::string::*;

use crate::multi_tool::message::{
    Message, MessageView, TextContent, TextContentView, UserContent, UserContentView,
};
use crate::multi_tool::reply::AssistantReply;
use crate::schema::{ToolDescription, ToolDescriptionView};
use crate::text;
use crate::text::removed;
use crate::usage;
use crate::usage::{CompletionUsage, TokenUsage};

verus! {

/// Configuration for connecting to an OpenAI-compatible LLM endpoint.
#[derive(Clone, Debug)]
pub struct LLMConfig {
    /// The base URL of the API endpoint (e.g., `http://127.0.0.1:4242/v1`).
    pub api_base: String,
    /// The model identifier to use for completions.
    pub model_name: String,
    /// The API key for authentication. May be empty for local endpoints.
    pub api_key: String,
    /// Optional explicit maximum context window size in tokens for this model.
    ///
    /// When set, this value is used for compaction threshold calculations instead of discovering
    /// it from the server's `/models` endpoint.
    pub max_context_tokens: Option<usize>,
}

impl Default for LLMConfig {
    /// A configuration that points to a local endpoint at `http://127.0.0.1:4242/v1` with the
    /// model name `LocalModel`.
    fn default() -> (r: Self)
        ensures
            r.api_base@ == "http://127.0.0.1:4242/v1"@,
            r.model_name@ == "LocalModel"@,
            r.api_key@ == ""@,
            r.max_context_tokens is None,
    {
        LLMConfig {
            api_base: "http://127.0.0.1:4242/v1".to_owned(),
            model_name: "LocalModel".to_owned(),
            api_key: "".to_owned(),
            max_context_tokens: None,
        }
    }
}

/// A client for OpenAI-compatible chat completion APIs.
///
/// The client can know the model's maximum context window size (in tokens), either from
/// [`LLMConfig::max_context_tokens`] or discovered at run time from the `/models` endpoint.
#[derive(Clone, Debug)]
pub struct OpenAIClient {
    /// The base URL of the endpoint; `None` stands for the standard one.
    pub api_base: Option<String>,
    pub api_key: String,
    pub model_name: String,
    pub max_context_tokens: Option<usize>,
}

impl Default for OpenAIClient {
    /// A client with the default [`LLMConfig`].
    fn default() -> (r: Self)
        ensures
            r.api_base.deep_view() == Some("http://127.0.0.1:4242/v1"@),
            r.model_name@ == "LocalModel"@,
            r.api_key@ == ""@,
            r.max_context_tokens is None,
    {
        proof {
            lemma_default_base();
        }
        OpenAIClient::with_config(LLMConfig::default())
    }
}

/// The default base URL does not hold the path of the chat endpoint.
proof fn lemma_default_base()
    ensures
        base_of("http://127.0.0.1:4242/v1"@) == Some("http://127.0.0.1:4242/v1"@),
{
    let base = "http://127.0.0.1:4242/v1"@;
    let path = "/chat/completions"@;
    reveal_strlit("http://127.0.0.1:4242/v1");
    reveal_strlit("/chat/completions");
    assert forall|i: int| !text::occurs_at(base, path, i) by {
        if text::occurs_at(base, path, i) {
            assert(base.subrange(i, i + path.len())[1] == path[1]);
            assert(base[i + 1] == 'c');
            assert(i + path.len() <= 24);
            assert(i == 0 || i == 1 || i == 2 || i == 3 || i == 4 || i == 5 || i == 6 || i == 7);
        }
    }
    text::lemma_without_absent(base, path);
}

/// The base URL that a configuration stands for: the configured one without the path of the chat
/// endpoint, or none where the configured one is empty.
pub open spec fn base_of(api_base: Seq<char>) -> Option<Seq<char>> {
    if api_base.len() == 0 {
        None
    } else {
        Some(text::without(api_base, "/chat/completions"@))
    }
}

/// A base URL that was given with the path of the chat endpoint behind it is taken without it.
pub proof fn law_chat_path_is_cut_off(base: Seq<char>)
    requires
        text::find(base + "/chat/completions"@, "/chat/completions"@) == Some(base.len() as int),
    ensures
        base_of(base + "/chat/completions"@) == Some(base),
{
    let path = "/chat/completions"@;
    reveal_strlit("/chat/completions");
    let all = base + path;
    text::lemma_without(all, path, 0);
    let end = all.len() as int;
    assert(all.skip(0) =~= all);
    assert(all.skip(end).len() == 0);
    assert(all.subrange(0, base.len() as int) + text::without(all.skip(end), path) =~= base);
}

impl OpenAIClient {
    /// Creates a new client with the default [`LLMConfig`].
    pub fn new() -> (r: Self)
        ensures
            r.api_base.deep_view() == Some("http://127.0.0.1:4242/v1"@),
            r.model_name@ == "LocalModel"@,
            r.api_key@ == ""@,
            r.max_context_tokens is None,
    {
        OpenAIClient::default()
    }

    /// Creates a new client with the given configuration.
    pub fn with_config(config: LLMConfig) -> (r: Self)
        ensures
            r.api_base.deep_view() == base_of(config.api_base@),
            r.api_key == config.api_key,
            r.model_name == config.model_name,
            r.max_context_tokens == config.max_context_tokens,
    {
        let api_base: Option<String> = if config.api_base.as_str().is_empty() {
            None
        } else {
            Some(removed(config.api_base.as_str(), "/chat/completions"))
        };
        OpenAIClient {
            api_base,
            api_key: config.api_key,
            model_name: config.model_name,
            max_context_tokens: config.max_context_tokens,
        }
    }

    /// Returns the model name configured for this client.
    pub fn model_name(&self) -> (r: &str)
        ensures
            r@ == self.model_name@,
    {
        self.model_name.as_str()
    }

    /// Returns the known maximum context window size in tokens, if known.
    ///
    /// This may have been provided at construction time via [`LLMConfig`] or populated by a prior
    /// call to [`OpenAIClient::discover_max_context_tokens`].
    pub fn max_context_tokens(&self) -> (r: Option<usize>)
        ensures
            r == self.max_context_tokens,
    {
        self.max_context_tokens
    }

    /// The request for a chat completion; [`ChatResponse::text`] reads the answer.
    pub fn chat(&self, messages: Vec<Message>, temperature: Temperature) -> (r: ChatRequest)
        ensures
            r.deep_view() == plain_request(self.model_name@, messages.deep_view(), temperature),
    {
        self.chat_with_usage(messages, temperature)
    }

    /// The request for a chat completion; [`ChatResponse::text_with_usage`] reads the answer.
    pub fn chat_with_usage(&self, messages: Vec<Message>, temperature: Temperature) -> (r:
        ChatRequest)
        ensures
            r.deep_view() == plain_request(self.model_name@, messages.deep_view(), temperature),
    {
        ChatRequest {
            model: self.model_name.clone(),
            messages,
            temperature,
            tools: None,
            parallel_tool_calls: None,
        }
    }

    /// The request for a chat completion with tools; [`ChatResponse::reply_with_usage`] reads the
    /// answer.
    pub fn chat_with_tools(
        &self,
        messages: Vec<Message>,
        tools: Vec<ToolDescription>,
        parallel_tool_calls: bool,
        temperature: Temperature,
    ) -> (r: ChatRequest)
        ensures
            r.deep_view() == tools_request(
                self.model_name@,
                messages.deep_view(),
                tools.deep_view(),
                parallel_tool_calls,
                temperature,
            ),
    {
        ChatRequest {
            model: self.model_name.clone(),
            messages,
            temperature,
            tools: Some(tools),
            parallel_tool_calls: Some(parallel_tool_calls),
        }
    }

    /// The minimal request by which the endpoint is found reachable. Any answer will do.
    pub fn check_health(&self) -> (r: ChatRequest)
        ensures
            r.deep_view() == plain_request(
                self.model_name@,
                health_messages(),
                (Temperature { bits: 0 }),
            ),
    {
        let mut messages: Vec<Message> = Vec::new();
        messages.push(system_message("You are a test assistant."));
        messages.push(user_message("Say 'OK'."));
        assert(messages.deep_view() =~= health_messages());
        self.chat(messages, Temperature { bits: 0 })
    }

    /// What to do after a health check: stop polling once it succeeded, else check again after 30
    /// seconds.
    pub fn wait_until_ready(&self, healthy: bool) -> (r: Readiness)
        ensures
            r == (if healthy {
                Readiness::Ready
            } else {
                Readiness::CheckAgainAfter(30)
            }),
    {
        if healthy {
            Readiness::Ready
        } else {
            Readiness::CheckAgainAfter(30)
        }
    }
}

/// A sampling temperature, held as the bits of a single-precision number.
#[derive(Clone, Copy, Debug, PartialEq, Eq, Structural)]
pub struct Temperature {
    pub bits: u32,
}

/// The outcome of a health check, for whoever waits for the endpoint.
#[derive(Clone, Copy, Debug, PartialEq, Eq, Structural)]
pub enum Readiness {
    Ready,
    /// Check again after this number of seconds.
    CheckAgainAfter(u64),
}

/// A chat completion request.
#[derive(Debug)]
pub struct ChatRequest {
    pub model: String,
    pub messages: Vec<Message>,
    pub temperature: Temperature,
    pub tools: Option<Vec<ToolDescription>>,
    pub parallel_tool_calls: Option<bool>,
}

/// Deep view of [`ChatRequest`].
pub struct ChatRequestView {
    pub model: Seq<char>,
    pub messages: Seq<MessageView>,
    pub temperature: Temperature,
    pub tools: Option<Seq<ToolDescriptionView>>,
    pub parallel_tool_calls: Option<bool>,
}

impl DeepView for ChatRequest {
    type V = ChatRequestView;

    open spec fn deep_view(&self) -> ChatRequestView {
        ChatRequestView {
            model: self.model.deep_view(),
            messages: self.messages.deep_view(),
            temperature: self.temperature,
            tools: self.tools.deep_view(),
            parallel_tool_calls: self.parallel_tool_calls,
        }
    }
}

/// The request for a completion without tools.
pub open spec fn plain_request(
    model: Seq<char>,
    messages: Seq<MessageView>,
    temperature: Temperature,
) -> ChatRequestView {
    ChatRequestView { model, messages, temperature, tools: None, parallel_tool_calls: None }
}

/// The request for a completion with tools.
pub open spec fn tools_request(
    model: Seq<char>,
    messages: Seq<MessageView>,
    tools: Seq<ToolDescriptionView>,
    parallel: bool,
    temperature: Temperature,
) -> ChatRequestView {
    ChatRequestView {
        model,
        messages,
        temperature,
        tools: Some(tools),
        parallel_tool_calls: Some(parallel),
    }
}

/// A system message of a text.
pub open spec fn system_text(text: Seq<char>) -> MessageView {
    MessageView::System(TextContentView::Text(text), None)
}

/// A user message of a text.
pub open spec fn user_text(text: Seq<char>) -> MessageView {
    MessageView::User(UserContentView::Text(text), None)
}

/// The conversation of a health check.
pub open spec fn health_messages() -> Seq<MessageView> {
    seq![system_text("You are a test assistant."@), user_text("Say 'OK'."@)]
}

/// A system message of a text.
pub fn system_message(text: &str) -> (r: Message)
    ensures
        r.deep_view() == system_text(text@),
{
    Message::System(TextContent::Text(text.to_owned()), None)
}

/// A user message of a text.
pub fn user_message(text: &str) -> (r: Message)
    ensures
        r.deep_view() == user_text(text@),
{
    Message::User(UserContent::Text(text.to_owned()), None)
}

/// The answer to a chat completion request: the alternatives, of which the first counts, and the
/// usage statistics where the server reported them.
#[derive(Debug)]
pub struct ChatResponse {
    pub choices: Vec<AssistantReply>,
    pub usage: Option<CompletionUsage>,
}

/// Why an answer cannot be used.
#[derive(Clone, Copy, Debug, PartialEq, Eq, Structural)]
pub enum ChatError {
    /// The first alternative has no text.
    NoContent,
}

impl ChatError {
    /// The text of this error.
    pub fn message(&self) -> (r: &'static str)
        ensures
            r@ == "LLM returned no content"@,
    {
        "LLM returned no content"
    }
}

/// The token counts of an answer, where the server reported them.
pub open spec fn reported_usage(usage: Option<CompletionUsage>) -> Option<TokenUsage> {
    match usage {
        Some(u) => Some(usage::usage_of(u)),
        None => None,
    }
}

/// The token counts of an answer, where the server reported them.
fn counts_of(usage: &Option<CompletionUsage>) -> (r: Option<TokenUsage>)
    ensures
        r == reported_usage(*usage),
{
    match usage {
        Some(u) => Some(TokenUsage::from_completion_usage(u)),
        None => None,
    }
}

impl ChatResponse {
    /// The assistant's text.
    pub fn text(&self) -> (r: Result<String, ChatError>)
        requires
            self.choices@.len() > 0,
        ensures
            match r {
                Ok(text) => self.choices@[0].content.deep_view() == Some(text@),
                Err(_) => self.choices@[0].content is None,
            },
    {
        match self.text_with_usage() {
            Ok((text, _)) => Ok(text),
            Err(e) => Err(e),
        }
    }

    /// The assistant's text along with token usage, where the server reported it.
    pub fn text_with_usage(&self) -> (r: Result<(String, Option<TokenUsage>), ChatError>)
        requires
            self.choices@.len() > 0,
        ensures
            match r {
                Ok((text, usage)) => self.choices@[0].content.deep_view() == Some(text@) && usage
                    == reported_usage(self.usage),
                Err(_) => self.choices@[0].content is None,
            },
    {
        match &self.choices[0].content {
            Some(text) => Ok((text.clone(), counts_of(&self.usage))),
            None => Err(ChatError::NoContent),
        }
    }

    /// The assistant's whole reply, with its tool calls, along with token usage, where the server
    /// reported it.
    pub fn reply_with_usage(&self) -> (r: (AssistantReply, Option<TokenUsage>))
        requires
            self.choices@.len() > 0,
        ensures
            r.0.deep_view() == self.choices@[0].deep_view(),
            r.1 == reported_usage(self.usage),
    {
        (self.choices[0].duplicate(), counts_of(&self.usage))
    }
}

} // verus!

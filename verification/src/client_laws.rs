//! What the requests to an endpoint hold, and what is read out of its answers.

use vstd::prelude::*;

use crate::client;
use crate::client::Temperature;
use crate::multi_tool::message::{MessageView, TextContentView, UserContentView};
use crate::schema::ToolDescriptionView;
use crate::text;
use crate::usage;
use crate::usage::CompletionUsage;

verus! {

/// A request carries the model, the messages and the temperature that it is made with, and the tools
/// only where it is made with tools.
pub proof fn law_requests_carry_what_they_are_given(
    model: Seq<char>,
    messages: Seq<MessageView>,
    tools: Seq<ToolDescriptionView>,
    parallel: bool,
    temperature: Temperature,
)
    ensures
        ({
            let plain = client::plain_request(model, messages, temperature);
            &&& plain.model == model
            &&& plain.messages == messages
            &&& plain.temperature == temperature
            &&& plain.tools is None
            &&& plain.parallel_tool_calls is None
        }),
        ({
            let asked = client::tools_request(model, messages, tools, parallel, temperature);
            &&& asked.model == model
            &&& asked.messages == messages
            &&& asked.temperature == temperature
            &&& asked.tools == Some(tools)
            &&& asked.parallel_tool_calls == Some(parallel)
        }),
{
}

/// A message of a text holds that text and no name.
pub proof fn law_messages_hold_their_text(text: Seq<char>)
    ensures
        client::system_text(text) == MessageView::System(TextContentView::Text(text), None),
        client::user_text(text) == MessageView::User(UserContentView::Text(text), None),
{
}

/// A health check sends these two messages.
pub proof fn law_health_check_says_ok()
    ensures
        client::health_messages().len() == 2,
        client::health_messages()[0] == MessageView::System(
            TextContentView::Text("You are a test assistant."@),
            None,
        ),
        client::health_messages()[1] == MessageView::User(
            UserContentView::Text("Say 'OK'."@),
            None,
        ),
{
}

/// An empty base URL stands for the standard endpoint. Any other is taken without the path of the chat
/// endpoint: as it is where it does not hold the path, and else without its first occurrence and
/// without those behind it.
pub proof fn law_base_is_taken_without_chat_path(api_base: Seq<char>)
    ensures
        api_base.len() == 0 <==> client::base_of(api_base) is None,
        api_base.len() > 0 ==> (match text::find(api_base, "/chat/completions"@) {
            None => client::base_of(api_base) == Some(api_base),
            Some(k) => client::base_of(api_base) == Some(
                api_base.take(k) + text::without(api_base.skip(k + 17), "/chat/completions"@),
            ),
        }),
{
    reveal_strlit("/chat/completions");
    let path = "/chat/completions"@;
    text::lemma_without(api_base, path, 0);
    assert(api_base.skip(0) =~= api_base);
    if let Some(k) = text::find(api_base, path) {
        assert(api_base.subrange(0, k) =~= api_base.take(k));
    }
}

/// The token counts are those that the server reports, each as it is, and the cached ones are those of
/// the details of the prompt.
pub proof fn law_counts_are_the_servers(reported: Option<CompletionUsage>)
    ensures
        match reported {
            None => client::reported_usage(reported) is None,
            Some(u) => {
                let counts = client::reported_usage(reported)->0;
                &&& client::reported_usage(reported) is Some
                &&& counts == usage::usage_of(u)
                &&& counts.prompt_tokens == u.prompt_tokens
                &&& counts.completion_tokens == u.completion_tokens
                &&& counts.total_tokens == u.total_tokens
                &&& u.prompt_tokens_details is None ==> counts.cached_prompt_tokens is None
                &&& u.prompt_tokens_details matches Some(details) ==> counts.cached_prompt_tokens
                    == details.cached_tokens
            },
        },
{
}

} // verus!

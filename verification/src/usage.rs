//! Token usage.

use vstd::prelude::*;

verus! {

/// Breakdown of the tokens of a prompt, as a server reports it.
#[derive(Clone, Copy, Debug, PartialEq, Eq, Structural)]
pub struct PromptTokensDetails {
    pub audio_tokens: Option<u32>,
    pub cached_tokens: Option<u32>,
}

/// Usage statistics of a completion request, as a server reports them.
#[derive(Clone, Copy, Debug, PartialEq, Eq, Structural)]
pub struct CompletionUsage {
    pub prompt_tokens: u32,
    pub completion_tokens: u32,
    pub total_tokens: u32,
    pub prompt_tokens_details: Option<PromptTokensDetails>,
}

/// Token counts reported by an OpenAI-compatible chat completion response.
#[derive(Clone, Copy, Debug, PartialEq, Eq, Structural)]
pub struct TokenUsage {
    /// Tokens in the prompt (input / context).
    pub prompt_tokens: u32,
    /// Tokens in the generated completion (output).
    pub completion_tokens: u32,
    /// Total tokens for the request (`prompt + completion` when both reported).
    pub total_tokens: u32,
    /// Cached prompt tokens when the server reports `prompt_tokens_details`.
    pub cached_prompt_tokens: Option<u32>,
}

impl Default for TokenUsage {
    fn default() -> (r: Self)
        ensures
            r == (TokenUsage {
                prompt_tokens: 0,
                completion_tokens: 0,
                total_tokens: 0,
                cached_prompt_tokens: None,
            }),
    {
        TokenUsage {
            prompt_tokens: 0,
            completion_tokens: 0,
            total_tokens: 0,
            cached_prompt_tokens: None,
        }
    }
}

/// The token counts that a server's usage statistics hold.
pub open spec fn usage_of(usage: CompletionUsage) -> TokenUsage {
    TokenUsage {
        prompt_tokens: usage.prompt_tokens,
        completion_tokens: usage.completion_tokens,
        total_tokens: usage.total_tokens,
        cached_prompt_tokens: match usage.prompt_tokens_details {
            Some(details) => details.cached_tokens,
            None => None,
        },
    }
}

impl TokenUsage {
    /// Build from a server's usage statistics.
    pub fn from_completion_usage(usage: &CompletionUsage) -> (r: Self)
        ensures
            r == usage_of(*usage),
    {
        TokenUsage {
            prompt_tokens: usage.prompt_tokens,
            completion_tokens: usage.completion_tokens,
            total_tokens: usage.total_tokens,
            cached_prompt_tokens: match &usage.prompt_tokens_details {
                Some(details) => details.cached_tokens,
                None => None,
            },
        }
    }
}

} // verus!

//! An agent invocation and its builder.

use vstd::prelude::*;
use vstd::string::*;

use crate::multi_tool::message::Message;
use crate::multi_tool::tool::Tool;

verus! {

/// The types by which a program plugs its handlers, its callbacks and its channel into an
/// invocation. The loop carries values of these types and never looks into them.
pub trait Host {
    /// The handler of a tool that only returns a result.
    type Handler;

    /// The handler of a tool that may replace the history.
    type RewritingHandler;

    /// Where the user's requests come from.
    type Incoming;

    /// Called when the agent produces a text response (no tool calls).
    type MessageCallback;

    /// Called when the agent is idle, waiting for incoming user messages.
    type IdleCallback;

    /// Called after a message is pushed to the conversation history.
    type PushCallback;

    /// Called when a rewriting tool replaces the history, with the old and the new messages.
    type ReplaceCallback;

    /// Called after each successful turn that reports token usage.
    type UsageCallback;

    /// The delays between the attempts of a request.
    type RetryStrategy: Clone;

    /// Answers a turn in place of the model.
    type InferenceCallback;
}

/// Produces a fresh retry strategy for each request: a clone of the one it was made with.
pub struct RetryStrategyFactory<S> {
    pub strategy: S,
}

impl<S: Clone> RetryStrategyFactory<S> {
    /// A fresh strategy.
    pub fn fresh(&self) -> (r: S)
        ensures
            cloned(self.strategy, r),
    {
        self.strategy.clone()
    }
}

/// All that a run of the agent loop needs.
pub struct AgentInvocation<H: Host> {
    pub system_prompt: String,
    /// Tools the agent can invoke. The tool's name is used to differentiate when the model asks to
    /// execute something, and to invoke the correct handler.
    pub tools: Vec<Tool<H::Handler, H::RewritingHandler>>,
    /// Whether the calls of a batch run concurrently. A rewriting tool forces serial execution of
    /// its batch.
    pub parallel_tools: bool,
    /// Where the user's requests come from.
    pub incoming: H::Incoming,
    /// Called when the agent produces a text response; nothing is called where it is not set.
    pub agent_message_callback: Option<H::MessageCallback>,
    /// Called when the agent is idle; nothing is called where it is not set.
    pub agent_idle_callback: Option<H::IdleCallback>,
    /// Called after a message is pushed; nothing is called where it is not set.
    pub messages_push_callback: Option<H::PushCallback>,
    /// Called when the history is replaced; nothing is called where it is not set.
    pub messages_replace_callback: Option<H::ReplaceCallback>,
    /// Called with the token usage of a turn; nothing is called where it is not set.
    pub usage_callback: Option<H::UsageCallback>,
    /// Optional strategy by which each request to the model is retried. A single attempt is made
    /// where it is not set.
    pub retry_strategy: Option<RetryStrategyFactory<H::RetryStrategy>>,
    /// When set, used instead of the model for each turn.
    pub inference_callback: Option<H::InferenceCallback>,
    /// Optional history inserted after the system prompt, before the loop accepts new requests.
    pub seed_messages: Vec<Message>,
}

impl<H: Host> AgentInvocation<H> {
    /// A fresh retry strategy for one request, where one is set.
    pub fn fresh_retry_strategy(&self) -> (r: Option<H::RetryStrategy>)
        ensures
            match self.retry_strategy {
                Some(factory) => r matches Some(strategy) && cloned(factory.strategy, strategy),
                None => r is None,
            },
    {
        match &self.retry_strategy {
            Some(factory) => Some(factory.fresh()),
            None => None,
        }
    }
}

/// Builder for [`AgentInvocation`]: a field is `None` until it is set.
pub struct AgentInvocationArgs<H: Host> {
    pub system_prompt: Option<String>,
    pub tools: Option<Vec<Tool<H::Handler, H::RewritingHandler>>>,
    pub parallel_tools: Option<bool>,
    pub incoming: Option<H::Incoming>,
    pub agent_message_callback: Option<H::MessageCallback>,
    pub agent_idle_callback: Option<H::IdleCallback>,
    pub messages_push_callback: Option<H::PushCallback>,
    pub messages_replace_callback: Option<H::ReplaceCallback>,
    pub usage_callback: Option<H::UsageCallback>,
    pub retry_strategy: Option<RetryStrategyFactory<H::RetryStrategy>>,
    pub inference_callback: Option<H::InferenceCallback>,
    pub seed_messages: Option<Vec<Message>>,
}

/// Why an invocation cannot be built.
#[derive(Clone, Copy, Debug, PartialEq, Eq, Structural)]
pub enum AgentInvocationArgsError {
    /// `system_prompt` was not set.
    NoSystemPrompt,
    /// `incoming` was not set.
    NoIncoming,
}

impl AgentInvocationArgsError {
    /// The text of this error.
    pub fn message(&self) -> (r: &'static str)
        ensures
            r@ == match self {
                AgentInvocationArgsError::NoSystemPrompt => "`system_prompt` must be initialized"@,
                AgentInvocationArgsError::NoIncoming => "`incoming` must be initialized"@,
            },
    {
        match self {
            AgentInvocationArgsError::NoSystemPrompt => "`system_prompt` must be initialized",
            AgentInvocationArgsError::NoIncoming => "`incoming` must be initialized",
        }
    }
}

impl<H: Host> Default for AgentInvocationArgs<H> {
    /// A builder in which nothing is set.
    fn default() -> (r: Self)
        ensures
            r == (AgentInvocationArgs::<H> {
                system_prompt: None,
                tools: None,
                parallel_tools: None,
                incoming: None,
                agent_message_callback: None,
                agent_idle_callback: None,
                messages_push_callback: None,
                messages_replace_callback: None,
                usage_callback: None,
                retry_strategy: None,
                inference_callback: None,
                seed_messages: None,
            }),
    {
        AgentInvocationArgs {
            system_prompt: None,
            tools: None,
            parallel_tools: None,
            incoming: None,
            agent_message_callback: None,
            agent_idle_callback: None,
            messages_push_callback: None,
            messages_replace_callback: None,
            usage_callback: None,
            retry_strategy: None,
            inference_callback: None,
            seed_messages: None,
        }
    }
}

impl<H: Host> AgentInvocationArgs<H> {
    /// Sets the system prompt.
    pub fn system_prompt(self, value: String) -> (r: Self)
        ensures
            r == (AgentInvocationArgs::<H> { system_prompt: Some(value), ..self }),
    {
        AgentInvocationArgs { system_prompt: Some(value), ..self }
    }

    /// Sets the tools.
    pub fn tools(self, value: Vec<Tool<H::Handler, H::RewritingHandler>>) -> (r: Self)
        ensures
            r == (AgentInvocationArgs::<H> { tools: Some(value), ..self }),
    {
        AgentInvocationArgs { tools: Some(value), ..self }
    }

    /// Sets whether the calls of a batch run concurrently.
    pub fn parallel_tools(self, value: bool) -> (r: Self)
        ensures
            r == (AgentInvocationArgs::<H> { parallel_tools: Some(value), ..self }),
    {
        AgentInvocationArgs { parallel_tools: Some(value), ..self }
    }

    /// Sets where the user's requests come from.
    pub fn incoming(self, value: H::Incoming) -> (r: Self)
        ensures
            r == (AgentInvocationArgs::<H> { incoming: Some(value), ..self }),
    {
        AgentInvocationArgs { incoming: Some(value), ..self }
    }

    /// Sets the callback for text responses.
    pub fn agent_message_callback(self, value: H::MessageCallback) -> (r: Self)
        ensures
            r == (AgentInvocationArgs::<H> { agent_message_callback: Some(value), ..self }),
    {
        AgentInvocationArgs { agent_message_callback: Some(value), ..self }
    }

    /// Sets the callback for an idle agent.
    pub fn agent_idle_callback(self, value: H::IdleCallback) -> (r: Self)
        ensures
            r == (AgentInvocationArgs::<H> { agent_idle_callback: Some(value), ..self }),
    {
        AgentInvocationArgs { agent_idle_callback: Some(value), ..self }
    }

    /// Sets the callback for pushed messages.
    pub fn messages_push_callback(self, value: H::PushCallback) -> (r: Self)
        ensures
            r == (AgentInvocationArgs::<H> { messages_push_callback: Some(value), ..self }),
    {
        AgentInvocationArgs { messages_push_callback: Some(value), ..self }
    }

    /// Sets the callback for a replaced history.
    pub fn messages_replace_callback(self, value: H::ReplaceCallback) -> (r: Self)
        ensures
            r == (AgentInvocationArgs::<H> { messages_replace_callback: Some(value), ..self }),
    {
        AgentInvocationArgs { messages_replace_callback: Some(value), ..self }
    }

    /// Sets the callback for token usage.
    pub fn usage_callback(self, value: H::UsageCallback) -> (r: Self)
        ensures
            r == (AgentInvocationArgs::<H> { usage_callback: Some(value), ..self }),
    {
        AgentInvocationArgs { usage_callback: Some(value), ..self }
    }

    /// Sets a retry strategy for each request to the model. The strategy is cloned for every
    /// request.
    pub fn retry_strategy(self, strategy: H::RetryStrategy) -> (r: Self)
        ensures
            r == (AgentInvocationArgs::<H> {
                retry_strategy: Some(RetryStrategyFactory { strategy }),
                ..self
            }),
    {
        AgentInvocationArgs { retry_strategy: Some(RetryStrategyFactory { strategy }), ..self }
    }

    /// Sets what answers each turn in place of the model.
    pub fn inference_callback(self, value: H::InferenceCallback) -> (r: Self)
        ensures
            r == (AgentInvocationArgs::<H> { inference_callback: Some(value), ..self }),
    {
        AgentInvocationArgs { inference_callback: Some(value), ..self }
    }

    /// Sets the history that is inserted after the system prompt.
    pub fn seed_messages(self, value: Vec<Message>) -> (r: Self)
        ensures
            r == (AgentInvocationArgs::<H> { seed_messages: Some(value), ..self }),
    {
        AgentInvocationArgs { seed_messages: Some(value), ..self }
    }

    /// Builds the invocation. The system prompt and the incoming requests have to be set; there
    /// are no tools, no parallel calls and no seed messages where those are not.
    pub fn build(self) -> (r: Result<AgentInvocation<H>, AgentInvocationArgsError>)
        ensures
            match r {
                Ok(invocation) => {
                    &&& self.system_prompt == Some(invocation.system_prompt)
                    &&& self.incoming == Some(invocation.incoming)
                    &&& match self.tools {
                        Some(tools) => invocation.tools == tools,
                        None => invocation.tools@.len() == 0,
                    }
                    &&& invocation.parallel_tools == (self.parallel_tools == Some(true))
                    &&& invocation.agent_message_callback == self.agent_message_callback
                    &&& invocation.agent_idle_callback == self.agent_idle_callback
                    &&& invocation.messages_push_callback == self.messages_push_callback
                    &&& invocation.messages_replace_callback == self.messages_replace_callback
                    &&& invocation.usage_callback == self.usage_callback
                    &&& invocation.retry_strategy == self.retry_strategy
                    &&& invocation.inference_callback == self.inference_callback
                    &&& match self.seed_messages {
                        Some(seed) => invocation.seed_messages == seed,
                        None => invocation.seed_messages@.len() == 0,
                    }
                },
                Err(AgentInvocationArgsError::NoSystemPrompt) => self.system_prompt is None,
                Err(AgentInvocationArgsError::NoIncoming) => self.system_prompt is Some
                    && self.incoming is None,
            },
    {
        let system_prompt: String = match self.system_prompt {
            Some(prompt) => prompt,
            None => return Err(AgentInvocationArgsError::NoSystemPrompt),
        };
        let incoming: H::Incoming = match self.incoming {
            Some(incoming) => incoming,
            None => return Err(AgentInvocationArgsError::NoIncoming),
        };
        Ok(
            AgentInvocation {
                system_prompt,
                tools: match self.tools {
                    Some(tools) => tools,
                    None => Vec::new(),
                },
                parallel_tools: match self.parallel_tools {
                    Some(parallel) => parallel,
                    None => false,
                },
                incoming,
                agent_message_callback: self.agent_message_callback,
                agent_idle_callback: self.agent_idle_callback,
                messages_push_callback: self.messages_push_callback,
                messages_replace_callback: self.messages_replace_callback,
                usage_callback: self.usage_callback,
                retry_strategy: self.retry_strategy,
                inference_callback: self.inference_callback,
                seed_messages: match self.seed_messages {
                    Some(seed) => seed,
                    None => Vec::new(),
                },
            },
        )
    }
}

} // verus!

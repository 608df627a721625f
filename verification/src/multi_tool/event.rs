//! What the agent loop asks its host to do, what the host reports back, and what it is told.

use vstd::prelude::*;
use vstd::string::*;

use crate::client::{ChatRequest, ChatRequestView, Temperature};
use crate::multi_tool::message::{Message, MessageView, UserContent, UserContentView};
use crate::multi_tool::reply::{AssistantReply, AssistantReplyView};
use crate::multi_tool::tool::{Job, ToolErrorView};
use crate::usage::TokenUsage;

verus! {

/// User request to the agent loop.
#[derive(Debug)]
pub enum UserRequest {
    /// Append a user message to the session.
    Message(UserContent),
    /// Change the temperature used with the model.
    ChangeTemperature(Temperature),
    /// Exit the loop.
    Exit,
}

/// Deep view of [`UserRequest`].
pub enum UserRequestView {
    Message(UserContentView),
    ChangeTemperature(Temperature),
    Exit,
}

impl DeepView for UserRequest {
    type V = UserRequestView;

    open spec fn deep_view(&self) -> UserRequestView {
        match self {
            UserRequest::Message(content) => UserRequestView::Message(content.deep_view()),
            UserRequest::ChangeTemperature(t) => UserRequestView::ChangeTemperature(*t),
            UserRequest::Exit => UserRequestView::Exit,
        }
    }
}

/// How the handler of a normal tool ended.
#[derive(Debug)]
pub enum Outcome {
    /// With this result.
    Done(String),
    /// With an error of this text.
    Failed(String),
}

impl DeepView for Outcome {
    type V = Result<Seq<char>, ToolErrorView>;

    open spec fn deep_view(&self) -> Result<Seq<char>, ToolErrorView> {
        match self {
            Outcome::Done(text) => Ok(text@),
            Outcome::Failed(text) => Err(ToolErrorView::Handler(text@)),
        }
    }
}

/// How the handler of a rewriting tool ended.
#[derive(Debug)]
pub enum RewriteOutcome {
    /// With this result and these messages.
    Done(String, Vec<Message>),
    /// With an error of this text.
    Failed(String),
}

/// Deep view of [`RewriteOutcome`].
pub enum RewriteOutcomeView {
    Done(Seq<char>, Seq<MessageView>),
    Failed(Seq<char>),
}

impl DeepView for RewriteOutcome {
    type V = RewriteOutcomeView;

    open spec fn deep_view(&self) -> RewriteOutcomeView {
        match self {
            RewriteOutcome::Done(text, messages) => RewriteOutcomeView::Done(
                text@,
                messages.deep_view(),
            ),
            RewriteOutcome::Failed(text) => RewriteOutcomeView::Failed(text@),
        }
    }
}

/// What the host reports once it has done what it was asked to. Errors are given by their text.
#[derive(Debug)]
pub enum Event {
    /// Whether the incoming channel is closed.
    Closed(bool),
    /// A request that was waiting, if any.
    Polled(Option<UserRequest>),
    /// The next request, or none where the channel is closed.
    Received(Option<UserRequest>),
    /// The idle callback has run; the text of its error, if any.
    Idled(Option<String>),
    /// The message callback has run; the text of its error, if any.
    Said(Option<String>),
    /// The inference callback's answer.
    CallbackReplied(AssistantReply),
    /// The inference callback failed.
    CallbackFailed(String),
    /// The model's answer.
    ModelReplied(AssistantReply, Option<TokenUsage>),
    /// The request to the model failed, after all its attempts.
    ModelFailed(String),
    /// The handlers of a batch have run: the outcome of each call that had a handler to run.
    ParallelDone(Vec<Option<Outcome>>),
    /// The handler of a normal tool has run.
    ToolDone(Outcome),
    /// The handler of a rewriting tool has run.
    Rewritten(RewriteOutcome),
}

/// Deep view of [`Event`].
pub enum EventView {
    Closed(bool),
    Polled(Option<UserRequestView>),
    Received(Option<UserRequestView>),
    Idled(Option<Seq<char>>),
    Said(Option<Seq<char>>),
    CallbackReplied(AssistantReplyView),
    CallbackFailed(Seq<char>),
    ModelReplied(AssistantReplyView, Option<TokenUsage>),
    ModelFailed(Seq<char>),
    ParallelDone(Seq<Option<Result<Seq<char>, ToolErrorView>>>),
    ToolDone(Result<Seq<char>, ToolErrorView>),
    Rewritten(RewriteOutcomeView),
}

impl DeepView for Event {
    type V = EventView;

    open spec fn deep_view(&self) -> EventView {
        match self {
            Event::Closed(closed) => EventView::Closed(*closed),
            Event::Polled(request) => EventView::Polled(request.deep_view()),
            Event::Received(request) => EventView::Received(request.deep_view()),
            Event::Idled(error) => EventView::Idled(error.deep_view()),
            Event::Said(error) => EventView::Said(error.deep_view()),
            Event::CallbackReplied(reply) => EventView::CallbackReplied(reply.deep_view()),
            Event::CallbackFailed(text) => EventView::CallbackFailed(text@),
            Event::ModelReplied(reply, usage) => EventView::ModelReplied(
                reply.deep_view(),
                *usage,
            ),
            Event::ModelFailed(text) => EventView::ModelFailed(text@),
            Event::ParallelDone(outcomes) => EventView::ParallelDone(outcomes.deep_view()),
            Event::ToolDone(outcome) => EventView::ToolDone(outcome.deep_view()),
            Event::Rewritten(outcome) => EventView::Rewritten(outcome.deep_view()),
        }
    }
}

/// Why a run of the loop failed.
#[derive(Debug)]
pub enum RunError {
    /// The loop was to run without a client and has no inference callback.
    NoInferenceCallback,
    /// A turn was due and there is neither a client nor an inference callback.
    NoClient,
    /// The inference callback failed.
    InferenceCallback(String),
    /// The request to the model failed.
    Model(String),
    /// The idle or the message callback failed.
    Callback(String),
}

/// Deep view of [`RunError`].
pub enum RunErrorView {
    NoInferenceCallback,
    NoClient,
    InferenceCallback(Seq<char>),
    Model(Seq<char>),
    Callback(Seq<char>),
}

impl DeepView for RunError {
    type V = RunErrorView;

    open spec fn deep_view(&self) -> RunErrorView {
        match self {
            RunError::NoInferenceCallback => RunErrorView::NoInferenceCallback,
            RunError::NoClient => RunErrorView::NoClient,
            RunError::InferenceCallback(text) => RunErrorView::InferenceCallback(text@),
            RunError::Model(text) => RunErrorView::Model(text@),
            RunError::Callback(text) => RunErrorView::Callback(text@),
        }
    }
}

/// The text of an error with the texts of its causes, from the outermost inwards.
pub open spec fn run_error_text(e: RunErrorView) -> Seq<char> {
    match e {
        RunErrorView::NoInferenceCallback => "run_without_client requires inference_callback"@,
        RunErrorView::NoClient =>
            "LLM chat call failed: OpenAIClient required when inference_callback is not set"@,
        RunErrorView::InferenceCallback(text) =>
            "LLM chat call failed: inference callback failed: "@ + text,
        RunErrorView::Model(text) => "LLM chat call failed: "@ + text,
        RunErrorView::Callback(text) => text,
    }
}

impl RunError {
    /// The text of this error with the texts of its causes.
    pub fn message(&self) -> (r: String)
        ensures
            r@ == run_error_text(self.deep_view()),
    {
        match self {
            RunError::NoInferenceCallback => {
                "run_without_client requires inference_callback".to_owned()
            },
            RunError::NoClient => {
                "LLM chat call failed: OpenAIClient required when inference_callback is not set".to_owned()
            },
            RunError::InferenceCallback(text) => {
                "LLM chat call failed: inference callback failed: ".to_owned().concat(text.as_str())
            },
            RunError::Model(text) => "LLM chat call failed: ".to_owned().concat(text.as_str()),
            RunError::Callback(text) => text.clone(),
        }
    }
}

/// Deep view of [`Job`].
pub struct JobView {
    pub tool: int,
    pub args: serde_json::Value,
}

impl DeepView for Job {
    type V = JobView;

    open spec fn deep_view(&self) -> JobView {
        JobView { tool: self.tool as int, args: self.args }
    }
}

/// What the host is to do next.
pub enum Action {
    /// Look whether the incoming channel is closed.
    CheckClosed,
    /// Take a waiting request from the channel, if there is one.
    TryReceive,
    /// Wait for the next request.
    Receive,
    /// Call the idle callback.
    Idle,
    /// Call the message callback with this text.
    Say(String),
    /// Call the inference callback with these messages.
    AskCallback(Vec<Message>),
    /// Send this request, retrying it by a fresh strategy where the flag is set.
    AskModel(ChatRequest, bool),
    /// Run the handlers of a batch concurrently. A call that has no handler to run is `None`.
    RunParallel(Vec<Option<Job>>),
    /// Run the handler of a normal tool.
    RunTool(Job),
    /// Run the handler of a rewriting tool, on this snapshot of the history.
    RunRewrite(Job, Vec<Message>),
    /// End the run, with this error if any.
    Finish(Option<RunError>),
}

/// Deep view of [`Action`].
pub enum ActionView {
    CheckClosed,
    TryReceive,
    Receive,
    Idle,
    Say(Seq<char>),
    AskCallback(Seq<MessageView>),
    AskModel(ChatRequestView, bool),
    RunParallel(Seq<Option<JobView>>),
    RunTool(JobView),
    RunRewrite(JobView, Seq<MessageView>),
    Finish(Option<RunErrorView>),
}

impl DeepView for Action {
    type V = ActionView;

    open spec fn deep_view(&self) -> ActionView {
        match self {
            Action::CheckClosed => ActionView::CheckClosed,
            Action::TryReceive => ActionView::TryReceive,
            Action::Receive => ActionView::Receive,
            Action::Idle => ActionView::Idle,
            Action::Say(text) => ActionView::Say(text@),
            Action::AskCallback(messages) => ActionView::AskCallback(messages.deep_view()),
            Action::AskModel(request, retry) => ActionView::AskModel(request.deep_view(), *retry),
            Action::RunParallel(jobs) => ActionView::RunParallel(jobs.deep_view()),
            Action::RunTool(job) => ActionView::RunTool(job.deep_view()),
            Action::RunRewrite(job, messages) => ActionView::RunRewrite(
                job.deep_view(),
                messages.deep_view(),
            ),
            Action::Finish(error) => ActionView::Finish(error.deep_view()),
        }
    }
}

/// What the host is told through its callbacks, in order, before it does the next action.
#[derive(Debug)]
pub enum Effect {
    /// The message was appended to the history.
    Pushed(Message),
    /// A rewriting tool replaced the history: the old and the new messages.
    Replaced(Vec<Message>, Vec<Message>),
    /// The model's answer used this many tokens.
    Usage(TokenUsage),
}

/// Deep view of [`Effect`].
pub enum EffectView {
    Pushed(MessageView),
    Replaced(Seq<MessageView>, Seq<MessageView>),
    Usage(TokenUsage),
}

impl DeepView for Effect {
    type V = EffectView;

    open spec fn deep_view(&self) -> EffectView {
        match self {
            Effect::Pushed(m) => EffectView::Pushed(m.deep_view()),
            Effect::Replaced(old_messages, new_messages) => EffectView::Replaced(
                old_messages.deep_view(),
                new_messages.deep_view(),
            ),
            Effect::Usage(usage) => EffectView::Usage(*usage),
        }
    }
}

/// One step of the loop: what the host is told, then what it is to do.
pub struct Step {
    pub effects: Vec<Effect>,
    pub action: Action,
}

} // verus!

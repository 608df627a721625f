//! The typed request/response loop as a state machine.
//!
//! A [`TypedLoop`] decides; its host acts. Each [`LoopAction`] says what the host is to do next, and
//! the host reports with a [`LoopEvent`]. [`loop_transition`] says what each event does to each
//! state. Requests are of type `Q`, responses of type `R` and the output of type `O`; the loop
//! carries them, and reads only their JSON texts.

use vstd::prelude::*;
use vstd::string::*;

use crate::client;
use crate::client::{
    system_message, user_message, ChatRequest, ChatRequestView, OpenAIClient, Temperature,
};
use crate::fences;
use crate::fences::extract_json;
use crate::multi_tool::message::{Message, MessageView};
use crate::single_tool::compaction;
use crate::single_tool::compaction::{build_summary_prompt, keep_latest, should_compact};
use crate::single_tool::config::{CompactPolicy, LoopConfig};
use crate::single_tool::prompt;
use crate::single_tool::prompt::{build_user_prompt, Encoded, PromptView, Turn};
use crate::text;
use crate::text::decimal_text;
use crate::usage::TokenUsage;

verus! {

/// The bits of the temperature of every turn: six tenths.
pub const TURN_TEMPERATURE_BITS: u32 = 0x3f19_999a;

/// What the controller makes of a response.
#[derive(Debug)]
pub enum LoopControl<Q, O> {
    /// The loop goes on with this request.
    Continue(Encoded<Q>),
    /// The loop ends with this output.
    Stop(O),
}

/// Where in the loop its state is saved.
#[derive(Clone, Copy, Debug, PartialEq, Eq, Structural)]
pub enum SavePoint {
    /// Before a turn that is not the first.
    Continue,
    /// After the last turn.
    Final,
}

/// A saved state that the loop goes on from.
#[derive(Debug)]
pub struct RestoreState<Q, R> {
    pub history: Vec<Turn<Q, R>>,
    pub current_request: Encoded<Q>,
    pub previous_summary: Option<String>,
}

/// What the agent says for a turn.
#[derive(Debug)]
pub struct Briefing<Q, R> {
    pub system_prompt: String,
    /// The agent's instructions.
    pub user_prompt: String,
    /// The combined schema of requests and responses, as a JSON text.
    pub schema: Option<String>,
    /// Examples of a request and the response to it.
    pub examples: Vec<Turn<Q, R>>,
    /// Additional context.
    pub extension: Option<String>,
}

/// How many turns are left, out of how many.
#[derive(Clone, Copy, Debug, PartialEq, Eq, Structural)]
pub struct Budget {
    pub left: usize,
    pub max: usize,
}

/// What the loop waits for.
#[derive(Debug)]
pub enum LoopPhase<Q, O> {
    /// The window that the server gives.
    Discover,
    /// The saved state.
    Restore,
    /// The state to be saved, before the turn of this request.
    Save(Encoded<Q>),
    /// What the agent says for the turn of this request.
    Describe(Encoded<Q>),
    /// The model's answer to this request.
    Ask(Encoded<Q>),
    /// The response that the model's answer to this request stands for.
    Parse(Encoded<Q>, String, Option<TokenUsage>),
    /// The summary.
    Summarize,
    /// The controller.
    Iterate,
    /// The state to be saved, before the loop ends with this output.
    FinalSave(O),
    /// Nothing: the loop has ended.
    Done,
}

/// A typed loop.
pub struct TypedLoop<Q, R, O> {
    /// The model that is asked.
    pub model: String,
    /// The size of the context window, where the loop is to compact its history and knows it.
    pub window: Option<usize>,
    /// The turns that are left, where there is a limit.
    pub budget: Option<Budget>,
    /// Whether no turn has begun.
    pub fresh: bool,
    /// The turns so far, but for those that a summary stands for.
    pub history: Vec<Turn<Q, R>>,
    /// The summary of earlier turns.
    pub summary: Option<String>,
    /// What the loop waits for.
    pub phase: LoopPhase<Q, O>,
}

/// View of [`TypedLoop`].
pub struct LoopView<Q, R, O> {
    pub model: Seq<char>,
    pub window: Option<usize>,
    pub budget: Option<Budget>,
    pub fresh: bool,
    pub history: Seq<Turn<Q, R>>,
    pub summary: Option<String>,
    pub phase: LoopPhase<Q, O>,
}

impl<Q, R, O> View for TypedLoop<Q, R, O> {
    type V = LoopView<Q, R, O>;

    open spec fn view(&self) -> LoopView<Q, R, O> {
        LoopView {
            model: self.model@,
            window: self.window,
            budget: self.budget,
            fresh: self.fresh,
            history: self.history@,
            summary: self.summary,
            phase: self.phase,
        }
    }
}

/// What the host reports once it has done what it was asked to.
#[derive(Debug)]
pub enum LoopEvent<Q, R, O> {
    /// The window that the server gives, where it gives one.
    Discovered(Option<usize>),
    /// The server could not be asked for the window.
    DiscoveryFailed,
    /// The saved state, where there is one, and the request to begin with where there is none.
    Restored(Option<RestoreState<Q, R>>, Encoded<Q>),
    /// The state was saved.
    Saved,
    /// What the agent says for the turn.
    Described(Briefing<Q, R>),
    /// The model's answer, and the tokens that it took where the server reported them.
    Replied(String, Option<TokenUsage>),
    /// The request to the model failed, with an error of this text.
    ChatFailed(String),
    /// The response that the answer stands for.
    Parsed(Encoded<R>),
    /// The answer stands for no response.
    ParseFailed,
    /// The summary.
    Summarized(String),
    /// The request for a summary failed.
    SummaryFailed,
    /// The controller's decision.
    Iterated(LoopControl<Q, O>),
}

/// Why a loop failed.
#[derive(Debug)]
pub enum LoopError {
    /// The request to the model failed, with an error of this text.
    Chat(String),
    /// The model's answer, which is this text, stands for no response.
    Deserialize(String),
    /// The loop did not end within this many turns.
    TooManyIterations(usize),
}

/// View of [`LoopError`].
pub enum LoopErrorView {
    Chat(Seq<char>),
    Deserialize(Seq<char>),
    TooManyIterations(usize),
}

impl View for LoopError {
    type V = LoopErrorView;

    open spec fn view(&self) -> LoopErrorView {
        match self {
            LoopError::Chat(text) => LoopErrorView::Chat(text@),
            LoopError::Deserialize(text) => LoopErrorView::Deserialize(text@),
            LoopError::TooManyIterations(max) => LoopErrorView::TooManyIterations(*max),
        }
    }
}

/// The text of an error.
pub open spec fn loop_error_text(e: LoopErrorView) -> Seq<char> {
    match e {
        LoopErrorView::Chat(text) => "LLM chat call failed: "@ + text,
        LoopErrorView::Deserialize(text) => "failed to deserialize LLM response: "@ + text,
        LoopErrorView::TooManyIterations(max) => "too many iterations (max "@ + text::decimal(
            max as nat,
        ) + ")"@,
    }
}

impl LoopError {
    /// The text of this error.
    pub fn message(&self) -> (r: String)
        ensures
            r@ == loop_error_text(self@),
    {
        match self {
            LoopError::Chat(text) => "LLM chat call failed: ".to_owned().concat(text.as_str()),
            LoopError::Deserialize(text) => {
                "failed to deserialize LLM response: ".to_owned().concat(text.as_str())
            },
            LoopError::TooManyIterations(max) => {
                "too many iterations (max ".to_owned().concat(decimal_text(*max).as_str()).concat(
                    ")",
                )
            },
        }
    }
}

/// What the host is to do next.
#[derive(Debug)]
pub enum LoopAction<O> {
    /// Ask the server for the size of the context window.
    Discover,
    /// Ask the agent for its saved state.
    Restore,
    /// Have the agent save its state.
    Save(SavePoint),
    /// Ask the agent what it says for the turn.
    Describe,
    /// Send this request.
    Ask(ChatRequest),
    /// Turn this JSON text into a response.
    Parse(String),
    /// Send this request for a summary.
    Summarize(ChatRequest),
    /// Have the controller deal with the response of the last turn.
    Iterate,
    /// End the loop, with this output.
    Stop(O),
    /// End the loop, with this error.
    Fail(LoopError),
}

/// View of [`LoopAction`].
pub enum LoopActionView<O> {
    Discover,
    Restore,
    Save(SavePoint),
    Describe,
    Ask(ChatRequestView),
    Parse(Seq<char>),
    Summarize(ChatRequestView),
    Iterate,
    Stop(O),
    Fail(LoopErrorView),
}

impl<O> View for LoopAction<O> {
    type V = LoopActionView<O>;

    open spec fn view(&self) -> LoopActionView<O> {
        match self {
            LoopAction::Discover => LoopActionView::Discover,
            LoopAction::Restore => LoopActionView::Restore,
            LoopAction::Save(point) => LoopActionView::Save(*point),
            LoopAction::Describe => LoopActionView::Describe,
            LoopAction::Ask(request) => LoopActionView::Ask(request.deep_view()),
            LoopAction::Parse(json) => LoopActionView::Parse(json@),
            LoopAction::Summarize(request) => LoopActionView::Summarize(request.deep_view()),
            LoopAction::Iterate => LoopActionView::Iterate,
            LoopAction::Stop(output) => LoopActionView::Stop(*output),
            LoopAction::Fail(e) => LoopActionView::Fail(e@),
        }
    }
}

/// A state with what the host is to do next.
pub struct LoopStepView<Q, R, O> {
    pub state: LoopView<Q, R, O>,
    pub action: LoopActionView<O>,
}

/// The window that the loop compacts for, as far as the configuration and the client tell; the server
/// is asked where neither does.
pub open spec fn given_window(config: LoopConfig, client: OpenAIClient) -> Option<usize> {
    match config.compact_policy {
        CompactPolicy::Discover => client.max_context_tokens,
        CompactPolicy::NoCompact => None,
        CompactPolicy::Override(window) => Some(window),
    }
}

/// The server is asked for the window.
pub open spec fn asks_server(config: LoopConfig, client: OpenAIClient) -> bool {
    config.compact_policy is Discover && client.max_context_tokens is None
}

/// A loop starts with the discovery of the window, where it is needed, and the saved state.
pub open spec fn loop_started<Q, R, O>(config: LoopConfig, client: OpenAIClient) -> LoopStepView<
    Q,
    R,
    O,
> {
    LoopStepView {
        state: LoopView {
            model: client.model_name@,
            window: given_window(config, client),
            budget: match config.max_iterations {
                Some(max) => Some(Budget { left: max, max }),
                None => None,
            },
            fresh: true,
            history: Seq::empty(),
            summary: None,
            phase: if asks_server(config, client) {
                LoopPhase::Discover
            } else {
                LoopPhase::Restore
            },
        },
        action: if asks_server(config, client) {
            LoopActionView::Discover
        } else {
            LoopActionView::Restore
        },
    }
}

/// The turn of a request is due: it begins unless none is left. The state is saved before every turn
/// but the first.
pub open spec fn turn_due<Q, R, O>(s: LoopView<Q, R, O>, request: Encoded<Q>) -> LoopStepView<
    Q,
    R,
    O,
> {
    match s.budget {
        Some(Budget { left: 0, max }) => LoopStepView {
            state: LoopView { phase: LoopPhase::Done, ..s },
            action: LoopActionView::Fail(LoopErrorView::TooManyIterations(max)),
        },
        _ => {
            let t = LoopView {
                budget: match s.budget {
                    Some(b) => Some(Budget { left: (b.left - 1) as usize, max: b.max }),
                    None => None,
                },
                fresh: false,
                ..s
            };
            if s.fresh {
                LoopStepView {
                    state: LoopView { phase: LoopPhase::Describe(request), ..t },
                    action: LoopActionView::Describe,
                }
            } else {
                LoopStepView {
                    state: LoopView { phase: LoopPhase::Save(request), ..t },
                    action: LoopActionView::Save(SavePoint::Continue),
                }
            }
        },
    }
}

/// A conversation of a system prompt and a user prompt.
pub open spec fn two_messages(system: Seq<char>, user: Seq<char>) -> Seq<MessageView> {
    seq![client::system_text(system), client::user_text(user)]
}

/// The temperature of every turn.
pub open spec fn turn_temperature() -> Temperature {
    Temperature { bits: TURN_TEMPERATURE_BITS }
}

/// The request of a turn.
pub open spec fn turn_request<Q, R, O>(
    s: LoopView<Q, R, O>,
    request: Encoded<Q>,
    briefing: Briefing<Q, R>,
) -> ChatRequestView {
    client::plain_request(
        s.model,
        two_messages(
            briefing.system_prompt@,
            prompt::prompt_text(
                PromptView {
                    user_prompt: briefing.user_prompt@,
                    schema: briefing.schema.deep_view(),
                    examples: prompt::texts_of(briefing.examples@),
                    summary: s.summary.deep_view(),
                    history: prompt::texts_of(s.history),
                    extension: briefing.extension.deep_view(),
                    current: request.json@,
                },
            ),
        ),
        turn_temperature(),
    )
}

/// The request for a summary.
pub open spec fn summary_request<Q, R, O>(s: LoopView<Q, R, O>, window: usize) -> ChatRequestView {
    client::plain_request(
        s.model,
        two_messages(
            "You summarize sessions of an agent so that it can go on from the summary."@,
            compaction::summary_prompt(
                s.summary.deep_view(),
                prompt::texts_of(s.history),
                compaction::summary_target(window as nat),
            ),
        ),
        turn_temperature(),
    )
}

/// The response was recorded: the history is summarized where the prompt filled the window, and the
/// controller deals with the response.
pub open spec fn recorded<Q, R, O>(
    s: LoopView<Q, R, O>,
    usage: Option<TokenUsage>,
) -> LoopStepView<Q, R, O> {
    match (usage, s.window) {
        (Some(u), Some(window)) if compaction::fills(u.prompt_tokens as int, window as int) => {
            LoopStepView {
                state: LoopView { phase: LoopPhase::Summarize, ..s },
                action: LoopActionView::Summarize(summary_request(s, window)),
            }
        },
        _ => iterating(s),
    }
}

/// The controller deals with the response of the last turn.
pub open spec fn iterating<Q, R, O>(s: LoopView<Q, R, O>) -> LoopStepView<Q, R, O> {
    LoopStepView {
        state: LoopView { phase: LoopPhase::Iterate, ..s },
        action: LoopActionView::Iterate,
    }
}

/// The loop fails.
pub open spec fn failed<Q, R, O>(s: LoopView<Q, R, O>, error: LoopErrorView) -> LoopStepView<
    Q,
    R,
    O,
> {
    LoopStepView {
        state: LoopView { phase: LoopPhase::Done, ..s },
        action: LoopActionView::Fail(error),
    }
}

/// The loop waits for this event.
pub open spec fn loop_fits<Q, R, O>(phase: LoopPhase<Q, O>, event: LoopEvent<Q, R, O>) -> bool {
    match (phase, event) {
        (LoopPhase::Discover, LoopEvent::Discovered(_)) => true,
        (LoopPhase::Discover, LoopEvent::DiscoveryFailed) => true,
        (LoopPhase::Restore, LoopEvent::Restored(_, _)) => true,
        (LoopPhase::Save(_), LoopEvent::Saved) => true,
        (LoopPhase::Describe(_), LoopEvent::Described(_)) => true,
        (LoopPhase::Ask(_), LoopEvent::Replied(_, _)) => true,
        (LoopPhase::Ask(_), LoopEvent::ChatFailed(_)) => true,
        (LoopPhase::Parse(_, _, _), LoopEvent::Parsed(_)) => true,
        (LoopPhase::Parse(_, _, _), LoopEvent::ParseFailed) => true,
        (LoopPhase::Summarize, LoopEvent::Summarized(_)) => true,
        (LoopPhase::Summarize, LoopEvent::SummaryFailed) => true,
        (LoopPhase::Iterate, LoopEvent::Iterated(_)) => true,
        (LoopPhase::FinalSave(_), LoopEvent::Saved) => true,
        _ => false,
    }
}

/// What an event does to a loop that waits for it, as [`loop_fits`] says. (An event that it does not
/// wait for is not taken, whatever stands here.)
pub open spec fn loop_transition<Q, R, O>(
    s: LoopView<Q, R, O>,
    event: LoopEvent<Q, R, O>,
) -> LoopStepView<Q, R, O> {
    match (s.phase, event) {
        (LoopPhase::Discover, LoopEvent::Discovered(window)) => LoopStepView {
            state: LoopView { window, phase: LoopPhase::Restore, ..s },
            action: LoopActionView::Restore,
        },
        (LoopPhase::Discover, LoopEvent::DiscoveryFailed) => LoopStepView {
            state: LoopView { window: None, phase: LoopPhase::Restore, ..s },
            action: LoopActionView::Restore,
        },
        (LoopPhase::Restore, LoopEvent::Restored(saved, initial)) => match saved {
            Some(state) => turn_due(
                LoopView { history: state.history@, summary: state.previous_summary, ..s },
                state.current_request,
            ),
            None => turn_due(s, initial),
        },
        (LoopPhase::Save(request), LoopEvent::Saved) => LoopStepView {
            state: LoopView { phase: LoopPhase::Describe(request), ..s },
            action: LoopActionView::Describe,
        },
        (LoopPhase::Describe(request), LoopEvent::Described(briefing)) => LoopStepView {
            state: LoopView { phase: LoopPhase::Ask(request), ..s },
            action: LoopActionView::Ask(turn_request(s, request, briefing)),
        },
        (LoopPhase::Ask(request), LoopEvent::Replied(text, usage)) => LoopStepView {
            state: LoopView { phase: LoopPhase::Parse(request, text, usage), ..s },
            action: LoopActionView::Parse(fences::json_of(text@)),
        },
        (LoopPhase::Ask(_), LoopEvent::ChatFailed(text)) => failed(s, LoopErrorView::Chat(text@)),
        (LoopPhase::Parse(request, _, usage), LoopEvent::Parsed(response)) => recorded(
            LoopView { history: s.history.push(Turn { request, response }), ..s },
            usage,
        ),
        (LoopPhase::Parse(_, text, _), LoopEvent::ParseFailed) => failed(
            s,
            LoopErrorView::Deserialize(text@),
        ),
        (LoopPhase::Summarize, LoopEvent::Summarized(text)) => iterating(
            LoopView { history: compaction::latest(s.history), summary: Some(text), ..s },
        ),
        (LoopPhase::Summarize, LoopEvent::SummaryFailed) => iterating(s),
        (LoopPhase::Iterate, LoopEvent::Iterated(control)) => match control {
            LoopControl::Continue(request) => turn_due(s, request),
            LoopControl::Stop(output) => LoopStepView {
                state: LoopView { phase: LoopPhase::FinalSave(output), ..s },
                action: LoopActionView::Save(SavePoint::Final),
            },
        },
        (LoopPhase::FinalSave(output), LoopEvent::Saved) => LoopStepView {
            state: LoopView { phase: LoopPhase::Done, ..s },
            action: LoopActionView::Stop(output),
        },
        _ => iterating(s),
    }
}

/// A conversation of a system prompt and a user prompt, asked at the temperature of every turn.
fn two_message_request(model: &String, system: &str, user: &str) -> (r: ChatRequest)
    ensures
        r.deep_view() == client::plain_request(
            model@,
            two_messages(system@, user@),
            turn_temperature(),
        ),
{
    let mut messages: Vec<Message> = Vec::new();
    messages.push(system_message(system));
    messages.push(user_message(user));
    assert(messages.deep_view() =~= two_messages(system@, user@));
    ChatRequest {
        model: model.clone(),
        messages,
        temperature: Temperature { bits: TURN_TEMPERATURE_BITS },
        tools: None,
        parallel_tool_calls: None,
    }
}

/// A loop and the first thing its host is to do.
pub struct LoopBegun<Q, R, O> {
    pub typed_loop: TypedLoop<Q, R, O>,
    pub action: LoopAction<O>,
}

/// Starts a typed loop.
pub fn run_loop<Q, R, O>(client: &OpenAIClient, config: LoopConfig) -> (r: LoopBegun<Q, R, O>)
    ensures
        r.typed_loop@ == loop_started::<Q, R, O>(config, *client).state,
        r.action@ == loop_started::<Q, R, O>(config, *client).action,
{
    let window: Option<usize> = match config.compact_policy {
        CompactPolicy::Discover => client.max_context_tokens(),
        CompactPolicy::NoCompact => None,
        CompactPolicy::Override(window) => Some(window),
    };
    let discover: bool = match config.compact_policy {
        CompactPolicy::Discover => window.is_none(),
        _ => false,
    };
    let typed_loop: TypedLoop<Q, R, O> = TypedLoop {
        model: client.model_name.clone(),
        window,
        budget: match config.max_iterations {
            Some(max) => Some(Budget { left: max, max }),
            None => None,
        },
        fresh: true,
        history: Vec::new(),
        summary: None,
        phase: if discover {
            LoopPhase::Discover
        } else {
            LoopPhase::Restore
        },
    };
    let action: LoopAction<O> = if discover {
        LoopAction::Discover
    } else {
        LoopAction::Restore
    };
    LoopBegun { typed_loop, action }
}

/// Starts a typed loop that may take so many turns, with the default compaction.
pub fn run_loop_with_max<Q, R, O>(client: &OpenAIClient, max_iterations: usize) -> (r: LoopBegun<
    Q,
    R,
    O,
>)
    ensures
        ({
            let config = LoopConfig {
                max_iterations: Some(max_iterations),
                compact_policy: CompactPolicy::Discover,
            };
            &&& r.typed_loop@ == loop_started::<Q, R, O>(config, *client).state
            &&& r.action@ == loop_started::<Q, R, O>(config, *client).action
        }),
{
    run_loop(
        client,
        LoopConfig {
            max_iterations: Some(max_iterations),
            compact_policy: CompactPolicy::Discover,
        },
    )
}

/// The request of the current turn: the one that the loop is about to ask or has asked, and else
/// that of the last turn.
pub open spec fn request_of<Q, R, O>(s: LoopView<Q, R, O>) -> Option<Encoded<Q>> {
    match s.phase {
        LoopPhase::Save(request) => Some(request),
        LoopPhase::Describe(request) => Some(request),
        LoopPhase::Ask(request) => Some(request),
        LoopPhase::Parse(request, _, _) => Some(request),
        _ => if s.history.len() > 0 {
            Some(s.history.last().request)
        } else {
            None
        },
    }
}

impl<Q, R, O> TypedLoop<Q, R, O> {
    /// The request of the current turn.
    pub fn current_request(&self) -> (r: Option<&Encoded<Q>>)
        ensures
            match r {
                Some(request) => request_of(self@) == Some(*request),
                None => request_of(self@) is None,
            },
    {
        match &self.phase {
            LoopPhase::Save(request) => Some(request),
            LoopPhase::Describe(request) => Some(request),
            LoopPhase::Ask(request) => Some(request),
            LoopPhase::Parse(request, _, _) => Some(request),
            _ => {
                let n: usize = self.history.len();
                if n > 0 {
                    Some(&self.history[n - 1].request)
                } else {
                    None
                }
            },
        }
    }

    /// Begins the turn of a request, unless none is left.
    fn begin_turn(&mut self, request: Encoded<Q>) -> (action: LoopAction<O>)
        ensures
            final(self)@ == turn_due(old(self)@, request).state,
            action@ == turn_due(old(self)@, request).action,
    {
        if let Some(budget) = self.budget {
            if budget.left == 0 {
                self.phase = LoopPhase::Done;
                return LoopAction::Fail(LoopError::TooManyIterations(budget.max));
            }
            self.budget = Some(Budget { left: budget.left - 1, max: budget.max });
        }
        if self.fresh {
            self.fresh = false;
            self.phase = LoopPhase::Describe(request);
            LoopAction::Describe
        } else {
            self.phase = LoopPhase::Save(request);
            LoopAction::Save(SavePoint::Continue)
        }
    }

    /// Has the history summarized where the prompt filled the window, and else the controller deal
    /// with the response.
    fn after_response(&mut self, usage: Option<TokenUsage>) -> (action: LoopAction<O>)
        ensures
            final(self)@ == recorded(old(self)@, usage).state,
            action@ == recorded(old(self)@, usage).action,
    {
        if let Some(u) = usage {
            if let Some(window) = self.window {
                if should_compact(u.prompt_tokens, window) {
                    let user: String = build_summary_prompt(&self.summary, &self.history, window);
                    let request: ChatRequest = two_message_request(
                        &self.model,
                        "You summarize sessions of an agent so that it can go on from the summary.",
                        user.as_str(),
                    );
                    self.phase = LoopPhase::Summarize;
                    return LoopAction::Summarize(request);
                }
            }
        }
        self.phase = LoopPhase::Iterate;
        LoopAction::Iterate
    }

    /// Asks the model, with all that the prompt of the turn holds.
    fn ask(&mut self, request: Encoded<Q>, briefing: Briefing<Q, R>) -> (action: LoopAction<O>)
        ensures
            final(self)@ == (LoopView { phase: LoopPhase::Ask(request), ..old(self)@ }),
            action@ == LoopActionView::<O>::Ask(turn_request(old(self)@, request, briefing)),
    {
        let user: String = build_user_prompt(
            briefing.user_prompt.as_str(),
            &briefing.schema,
            &briefing.examples,
            &self.summary,
            &self.history,
            &briefing.extension,
            request.json.as_str(),
        );
        let asked: ChatRequest = two_message_request(
            &self.model,
            briefing.system_prompt.as_str(),
            user.as_str(),
        );
        self.phase = LoopPhase::Ask(request);
        LoopAction::Ask(asked)
    }

    /// Whether the loop waits for this event.
    fn waits_for(&self, event: &LoopEvent<Q, R, O>) -> (r: bool)
        ensures
            r == loop_fits(self.phase, *event),
    {
        match (&self.phase, event) {
            (LoopPhase::Discover, LoopEvent::Discovered(_)) => true,
            (LoopPhase::Discover, LoopEvent::DiscoveryFailed) => true,
            (LoopPhase::Restore, LoopEvent::Restored(_, _)) => true,
            (LoopPhase::Save(_), LoopEvent::Saved) => true,
            (LoopPhase::Describe(_), LoopEvent::Described(_)) => true,
            (LoopPhase::Ask(_), LoopEvent::Replied(_, _)) => true,
            (LoopPhase::Ask(_), LoopEvent::ChatFailed(_)) => true,
            (LoopPhase::Parse(_, _, _), LoopEvent::Parsed(_)) => true,
            (LoopPhase::Parse(_, _, _), LoopEvent::ParseFailed) => true,
            (LoopPhase::Summarize, LoopEvent::Summarized(_)) => true,
            (LoopPhase::Summarize, LoopEvent::SummaryFailed) => true,
            (LoopPhase::Iterate, LoopEvent::Iterated(_)) => true,
            (LoopPhase::FinalSave(_), LoopEvent::Saved) => true,
            _ => false,
        }
    }

    /// Takes in an event and says what to do next. An event that the loop does not wait for is not
    /// taken: there is no action then, and nothing changes.
    pub fn step(&mut self, event: LoopEvent<Q, R, O>) -> (r: Option<LoopAction<O>>)
        ensures
            match r {
                Some(action) => {
                    &&& loop_fits(old(self)@.phase, event)
                    &&& final(self)@ == loop_transition(old(self)@, event).state
                    &&& action@ == loop_transition(old(self)@, event).action
                },
                None => !loop_fits(old(self)@.phase, event) && *final(self) == *old(self),
            },
    {
        if !self.waits_for(&event) {
            return None;
        }
        let mut phase: LoopPhase<Q, O> = LoopPhase::Done;
        std::mem::swap(&mut phase, &mut self.phase);
        let action: LoopAction<O> = match (phase, event) {
            (LoopPhase::Discover, LoopEvent::Discovered(window)) => {
                self.window = window;
                self.phase = LoopPhase::Restore;
                LoopAction::Restore
            },
            (LoopPhase::Discover, LoopEvent::DiscoveryFailed) => {
                self.window = None;
                self.phase = LoopPhase::Restore;
                LoopAction::Restore
            },
            (LoopPhase::Restore, LoopEvent::Restored(saved, initial)) => match saved {
                Some(state) => {
                    self.history = state.history;
                    self.summary = state.previous_summary;
                    self.begin_turn(state.current_request)
                },
                None => self.begin_turn(initial),
            },
            (LoopPhase::Save(request), LoopEvent::Saved) => {
                self.phase = LoopPhase::Describe(request);
                LoopAction::Describe
            },
            (LoopPhase::Describe(request), LoopEvent::Described(briefing)) => {
                self.ask(request, briefing)
            },
            (LoopPhase::Ask(request), LoopEvent::Replied(text, usage)) => {
                let json: String = extract_json(text.as_str()).to_owned();
                self.phase = LoopPhase::Parse(request, text, usage);
                LoopAction::Parse(json)
            },
            (LoopPhase::Ask(_), LoopEvent::ChatFailed(text)) => {
                LoopAction::Fail(LoopError::Chat(text))
            },
            (LoopPhase::Parse(request, _, usage), LoopEvent::Parsed(response)) => {
                self.history.push(Turn { request, response });
                self.after_response(usage)
            },
            (LoopPhase::Parse(_, text, _), LoopEvent::ParseFailed) => {
                LoopAction::Fail(LoopError::Deserialize(text))
            },
            (LoopPhase::Summarize, LoopEvent::Summarized(text)) => {
                keep_latest(&mut self.history);
                self.summary = Some(text);
                self.phase = LoopPhase::Iterate;
                LoopAction::Iterate
            },
            (LoopPhase::Summarize, LoopEvent::SummaryFailed) => {
                self.phase = LoopPhase::Iterate;
                LoopAction::Iterate
            },
            (LoopPhase::Iterate, LoopEvent::Iterated(control)) => match control {
                LoopControl::Continue(request) => self.begin_turn(request),
                LoopControl::Stop(output) => {
                    self.phase = LoopPhase::FinalSave(output);
                    LoopAction::Save(SavePoint::Final)
                },
            },
            (LoopPhase::FinalSave(output), LoopEvent::Saved) => LoopAction::Stop(output),
            _ => {
                assert(false);
                return None;
            },
        };
        Some(action)
    }
}

} // verus!

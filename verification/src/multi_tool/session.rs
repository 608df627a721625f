//! The multi-tool agent loop as a state machine.
//!
//! A [`Session`] decides; its host acts. Each [`Step`] tells the host what happened to the history
//! and what to do next, and the host reports with an [`Event`]. [`transition`] says what each event
//! does to each state.

use vstd::prelude::*;
use vstd::string::*;

use crate::client;
use crate::client::{system_message, OpenAIClient, Temperature};
use crate::multi_tool::event::{
    Action, ActionView, Effect, EffectView, Event, EventView, JobView, Outcome, RewriteOutcome,
    RewriteOutcomeView, RunError, RunErrorView, Step, UserRequest, UserRequestView,
};
use crate::multi_tool::history;
use crate::multi_tool::history::history_has_tool_call_id;
use crate::multi_tool::invocation::{AgentInvocation, Host};
use crate::multi_tool::message::{
    Comparable, Message, MessageView, TextContent, TextContentView, ToolCall, ToolCallView,
};
use crate::multi_tool::reply;
use crate::multi_tool::reply::{AssistantReply, AssistantReplyView};
use crate::multi_tool::tool;
use crate::multi_tool::tool::{
    batch_has_rewrite, execute_tool, judge_rewrite, resolve_call, tool_content, Job, Tool,
    ToolError, ToolErrorView, ToolView,
};
use crate::schema::{ToolDescription, ToolDescriptionView};
use crate::usage::TokenUsage;

verus! {

/// A call of a batch that runs concurrently: its identifier, and why its handler does not run, if
/// it does not.
pub struct Planned {
    pub call_id: String,
    pub error: Option<ToolError>,
}

/// Deep view of [`Planned`].
pub struct PlannedView {
    pub call_id: Seq<char>,
    pub error: Option<ToolErrorView>,
}

impl DeepView for Planned {
    type V = PlannedView;

    open spec fn deep_view(&self) -> PlannedView {
        PlannedView { call_id: self.call_id.deep_view(), error: self.error.deep_view() }
    }
}

/// What the session waits for.
pub enum Phase {
    /// Whether the channel is closed.
    CheckClosed,
    /// A request that is already waiting.
    Poll,
    /// The inference callback's answer.
    AskedCallback,
    /// The model's answer.
    AskedModel,
    /// The idle callback.
    Idle,
    /// The next request.
    Receive,
    /// The message callback.
    Say,
    /// The handlers of a batch.
    Parallel(Vec<Planned>),
    /// The normal tool of the first of these calls; the others come after it.
    Tool(Vec<ToolCall>),
    /// The rewriting tool of the first of these calls; the others come after it.
    Rewrite(Vec<ToolCall>),
    /// Nothing: the run has ended.
    Done,
}

/// Deep view of [`Phase`].
pub enum PhaseView {
    CheckClosed,
    Poll,
    AskedCallback,
    AskedModel,
    Idle,
    Receive,
    Say,
    Parallel(Seq<PlannedView>),
    Tool(Seq<ToolCallView>),
    Rewrite(Seq<ToolCallView>),
    Done,
}

impl DeepView for Phase {
    type V = PhaseView;

    open spec fn deep_view(&self) -> PhaseView {
        match self {
            Phase::CheckClosed => PhaseView::CheckClosed,
            Phase::Poll => PhaseView::Poll,
            Phase::AskedCallback => PhaseView::AskedCallback,
            Phase::AskedModel => PhaseView::AskedModel,
            Phase::Idle => PhaseView::Idle,
            Phase::Receive => PhaseView::Receive,
            Phase::Say => PhaseView::Say,
            Phase::Parallel(planned) => PhaseView::Parallel(planned.deep_view()),
            Phase::Tool(calls) => PhaseView::Tool(calls.deep_view()),
            Phase::Rewrite(calls) => PhaseView::Rewrite(calls.deep_view()),
            Phase::Done => PhaseView::Done,
        }
    }
}

/// A run of the agent loop.
pub struct Session {
    /// The client whose model is asked, if there is one.
    pub client: Option<OpenAIClient>,
    /// The history.
    pub messages: Vec<Message>,
    /// Whether the last turn listed tool calls, so that the model is to see their results.
    pub prev_call: bool,
    /// Whether there are user messages that the model has not seen.
    pub pending: bool,
    /// The temperature of the next turn.
    pub temperature: Temperature,
    /// What the session waits for.
    pub phase: Phase,
}

/// Deep view of [`Session`], without the client.
pub struct SessionView {
    pub messages: Seq<MessageView>,
    pub prev_call: bool,
    pub pending: bool,
    pub temperature: Temperature,
    pub phase: PhaseView,
}

impl DeepView for Session {
    type V = SessionView;

    open spec fn deep_view(&self) -> SessionView {
        SessionView {
            messages: self.messages.deep_view(),
            prev_call: self.prev_call,
            pending: self.pending,
            temperature: self.temperature,
            phase: self.phase.deep_view(),
        }
    }
}

/// What stays the same during a run.
pub struct SetupView {
    pub tools: Seq<ToolView>,
    pub parallel_tools: bool,
    /// There is an inference callback.
    pub callback: bool,
    /// There is a retry strategy.
    pub retry: bool,
    /// The model of the client, if there is one.
    pub model: Option<Seq<char>>,
}

/// The setup of an invocation that runs with the given client, if any.
pub open spec fn setup_of<H: Host>(
    invocation: AgentInvocation<H>,
    client: Option<OpenAIClient>,
) -> SetupView {
    SetupView {
        tools: invocation.tools.deep_view(),
        parallel_tools: invocation.parallel_tools,
        callback: invocation.inference_callback is Some,
        retry: invocation.retry_strategy is Some,
        model: match client {
            Some(c) => Some(c.model_name@),
            None => None,
        },
    }
}

/// A state with what the host is told and what it is to do next.
pub struct StepView {
    pub state: SessionView,
    pub effects: Seq<EffectView>,
    pub action: ActionView,
}

/// The bits of the temperature with which a run starts: one half.
pub const INITIAL_TEMPERATURE_BITS: u32 = 0x3f00_0000;

/// The result of the call `id`, as a message.
pub open spec fn tool_message(id: Seq<char>, content: Seq<char>) -> MessageView {
    MessageView::Tool(TextContentView::Text(content), id)
}

/// Each of the messages was appended, in order.
pub open spec fn pushes(messages: Seq<MessageView>) -> Seq<EffectView> {
    messages.map_values(|m: MessageView| EffectView::Pushed(m))
}

/// A run starts with the system prompt and the seed messages, and looks for requests.
pub open spec fn started(system_prompt: Seq<char>, seed: Seq<MessageView>) -> StepView {
    StepView {
        state: SessionView {
            messages: seq![client::system_text(system_prompt)] + seed,
            prev_call: false,
            pending: false,
            temperature: Temperature { bits: INITIAL_TEMPERATURE_BITS },
            phase: PhaseView::CheckClosed,
        },
        effects: pushes(seed),
        action: ActionView::CheckClosed,
    }
}

/// The session goes on at the top of the loop.
pub open spec fn looped(s: SessionView) -> StepView {
    StepView {
        state: SessionView { phase: PhaseView::CheckClosed, ..s },
        effects: Seq::empty(),
        action: ActionView::CheckClosed,
    }
}

/// The run ends.
pub open spec fn finished(s: SessionView, error: Option<RunErrorView>) -> StepView {
    StepView {
        state: SessionView { phase: PhaseView::Done, ..s },
        effects: Seq::empty(),
        action: ActionView::Finish(error),
    }
}

/// What a user request does: a message is appended and awaits an answer, a temperature is set for
/// later turns, and an exit ends the run. Where the run goes on, the session waits as `next` says.
pub open spec fn requested(
    s: SessionView,
    request: UserRequestView,
    next: PhaseView,
    action: ActionView,
) -> StepView {
    match request {
        UserRequestView::Message(content) => {
            let m = MessageView::User(content, None);
            StepView {
                state: SessionView {
                    messages: s.messages.push(m),
                    pending: true,
                    phase: next,
                    ..s
                },
                effects: seq![EffectView::Pushed(m)],
                action,
            }
        },
        UserRequestView::ChangeTemperature(temperature) => StepView {
            state: SessionView { temperature, phase: next, ..s },
            effects: Seq::empty(),
            action,
        },
        UserRequestView::Exit => finished(s, None),
    }
}

/// The descriptions of the tools.
pub open spec fn descriptions(tools: Seq<ToolView>) -> Seq<ToolDescriptionView> {
    tools.map_values(|t: ToolView| t.description)
}

/// No request is waiting any more: a turn is due if there are tool results or user messages that
/// the model has not seen; else the agent is idle. The inference callback answers in place of the
/// model where there is one.
pub open spec fn drained(setup: SetupView, s: SessionView) -> StepView {
    if s.prev_call || s.pending {
        let due = SessionView { pending: false, ..s };
        if setup.callback {
            StepView {
                state: SessionView { phase: PhaseView::AskedCallback, ..due },
                effects: Seq::empty(),
                action: ActionView::AskCallback(s.messages),
            }
        } else {
            match setup.model {
                Some(model) => StepView {
                    state: SessionView { phase: PhaseView::AskedModel, ..due },
                    effects: Seq::empty(),
                    action: ActionView::AskModel(
                        client::tools_request(
                            model,
                            s.messages,
                            descriptions(setup.tools),
                            setup.parallel_tools,
                            s.temperature,
                        ),
                        setup.retry,
                    ),
                },
                None => finished(due, Some(RunErrorView::NoClient)),
            }
        }
    } else {
        StepView {
            state: SessionView { phase: PhaseView::Idle, ..s },
            effects: Seq::empty(),
            action: ActionView::Idle,
        }
    }
}

/// A call is settled: its result is appended, unless no assistant turn lists the call any more.
pub open spec fn settled(s: SessionView, id: Seq<char>, content: Seq<char>) -> SessionView {
    if history::has_call(s.messages, id) {
        SessionView { messages: s.messages.push(tool_message(id, content)), ..s }
    } else {
        s
    }
}

/// What the host is told of a settled call.
pub open spec fn settled_effects(s: SessionView, id: Seq<char>, content: Seq<char>) -> Seq<
    EffectView,
> {
    if history::has_call(s.messages, id) {
        seq![EffectView::Pushed(tool_message(id, content))]
    } else {
        Seq::empty()
    }
}

/// The calls run one at a time, in order: the handler of the first call runs, and a call that has
/// no handler to run is settled with its error.
pub open spec fn serial(tools: Seq<ToolView>, s: SessionView, calls: Seq<ToolCallView>) -> StepView
    decreases calls.len(), 1int,
{
    if calls.len() == 0 {
        looped(s)
    } else {
        match tool::resolved(tools, calls[0]) {
            Ok((i, args)) => if tools[i].rewriting {
                StepView {
                    state: SessionView { phase: PhaseView::Rewrite(calls), ..s },
                    effects: Seq::empty(),
                    action: ActionView::RunRewrite(JobView { tool: i, args }, s.messages),
                }
            } else {
                StepView {
                    state: SessionView { phase: PhaseView::Tool(calls), ..s },
                    effects: Seq::empty(),
                    action: ActionView::RunTool(JobView { tool: i, args }),
                }
            },
            Err(e) => settle_and_go_on(
                tools,
                s,
                calls,
                tool::outcome_text(Err::<Seq<char>, ToolErrorView>(e)),
            ),
        }
    }
}

/// The first call is settled with `content`, and the others come after it.
pub open spec fn settle_and_go_on(
    tools: Seq<ToolView>,
    s: SessionView,
    calls: Seq<ToolCallView>,
    content: Seq<char>,
) -> StepView
    decreases calls.len(), 0int,
{
    if calls.len() == 0 {
        looped(s)
    } else {
        let rest = serial(tools, settled(s, calls[0].id, content), calls.drop_first());
        StepView { effects: settled_effects(s, calls[0].id, content) + rest.effects, ..rest }
    }
}

/// The outcome of a rewriting tool: its messages replace the history where the rules allow it, and
/// leave it as it is where they are the same or break a rule. Then the call is settled.
pub open spec fn rewritten(
    tools: Seq<ToolView>,
    s: SessionView,
    calls: Seq<ToolCallView>,
    outcome: RewriteOutcomeView,
) -> StepView {
    match outcome {
        RewriteOutcomeView::Failed(text) => settle_and_go_on(
            tools,
            s,
            calls,
            tool::outcome_text(Err::<Seq<char>, ToolErrorView>(ToolErrorView::Handler(text))),
        ),
        RewriteOutcomeView::Done(content, new_messages) => {
            match tool::rewrite_verdict(
                calls[0].function.name,
                calls[0].id,
                s.messages,
                new_messages,
            ) {
                Err(e) => settle_and_go_on(
                    tools,
                    s,
                    calls,
                    tool::outcome_text(Err::<Seq<char>, ToolErrorView>(e)),
                ),
                Ok(false) => settle_and_go_on(tools, s, calls, content),
                Ok(true) => {
                    let rest = settle_and_go_on(
                        tools,
                        SessionView { messages: new_messages, ..s },
                        calls,
                        content,
                    );
                    StepView {
                        effects: seq![EffectView::Replaced(s.messages, new_messages)]
                            + rest.effects,
                        ..rest
                    }
                },
            }
        },
    }
}

/// How a call of a concurrent batch is planned.
pub open spec fn planned(tools: Seq<ToolView>, call: ToolCallView) -> PlannedView {
    PlannedView {
        call_id: call.id,
        error: match tool::resolved_parallel(tools, call) {
            Ok(_) => None,
            Err(e) => Some(e),
        },
    }
}

/// The handler that runs for a call of a concurrent batch, if any.
pub open spec fn planned_job(tools: Seq<ToolView>, call: ToolCallView) -> Option<JobView> {
    match tool::resolved_parallel(tools, call) {
        Ok((i, args)) => Some(JobView { tool: i, args }),
        Err(_) => None,
    }
}

/// The batch runs concurrently.
pub open spec fn parallel(tools: Seq<ToolView>, s: SessionView, calls: Seq<ToolCallView>) -> StepView {
    StepView {
        state: SessionView {
            phase: PhaseView::Parallel(calls.map_values(|c: ToolCallView| planned(tools, c))),
            ..s
        },
        effects: Seq::empty(),
        action: ActionView::RunParallel(
            calls.map_values(|c: ToolCallView| planned_job(tools, c)),
        ),
    }
}

/// The result of a call of a concurrent batch.
pub open spec fn planned_result(
    p: PlannedView,
    outcome: Option<Result<Seq<char>, ToolErrorView>>,
) -> MessageView {
    tool_message(
        p.call_id,
        match p.error {
            Some(e) => tool::outcome_text(Err::<Seq<char>, ToolErrorView>(e)),
            None => tool::outcome_text(outcome->0),
        },
    )
}

/// The results of a concurrent batch, in the order of its calls.
pub open spec fn planned_results(
    batch: Seq<PlannedView>,
    outcomes: Seq<Option<Result<Seq<char>, ToolErrorView>>>,
) -> Seq<MessageView> {
    Seq::new(batch.len(), |k: int| planned_result(batch[k], outcomes[k]))
}

/// The assistant's turn is over: its tool calls run, or its text is handed to the message callback.
pub open spec fn turn_over(setup: SetupView, s: SessionView, turn: AssistantReplyView) -> StepView {
    match turn.tool_calls {
        Some(calls) if calls.len() > 0 => if setup.parallel_tools && !tool::has_rewriting_call(
            setup.tools,
            calls,
        ) {
            parallel(setup.tools, s, calls)
        } else {
            serial(setup.tools, s, calls)
        },
        _ => match turn.content {
            Some(text) => StepView {
                state: SessionView { phase: PhaseView::Say, ..s },
                effects: Seq::empty(),
                action: ActionView::Say(text),
            },
            None => looped(s),
        },
    }
}

/// What the host is told of the token usage of a turn.
pub open spec fn usage_effects(usage: Option<TokenUsage>) -> Seq<EffectView> {
    match usage {
        Some(u) => seq![EffectView::Usage(u)],
        None => Seq::empty(),
    }
}

/// A turn was answered: the usage is reported, the turn is appended and dealt with.
pub open spec fn replied(
    setup: SetupView,
    s: SessionView,
    turn: AssistantReplyView,
    usage: Option<TokenUsage>,
) -> StepView {
    let m = reply::reply_message(turn);
    let rest = turn_over(
        setup,
        SessionView {
            messages: s.messages.push(m),
            prev_call: turn.tool_calls is Some,
            ..s
        },
        turn,
    );
    StepView {
        effects: usage_effects(usage) + seq![EffectView::Pushed(m)] + rest.effects,
        ..rest
    }
}

/// A callback of the host has run.
pub open spec fn called_back(s: SessionView, error: Option<Seq<char>>, next: StepView) -> StepView {
    match error {
        Some(text) => finished(s, Some(RunErrorView::Callback(text))),
        None => next,
    }
}

/// The session waits for this event.
pub open spec fn fits(phase: PhaseView, event: EventView) -> bool {
    match (phase, event) {
        (PhaseView::CheckClosed, EventView::Closed(_)) => true,
        (PhaseView::Poll, EventView::Polled(_)) => true,
        (PhaseView::Receive, EventView::Received(_)) => true,
        (PhaseView::Idle, EventView::Idled(_)) => true,
        (PhaseView::Say, EventView::Said(_)) => true,
        (PhaseView::AskedCallback, EventView::CallbackReplied(_)) => true,
        (PhaseView::AskedCallback, EventView::CallbackFailed(_)) => true,
        (PhaseView::AskedModel, EventView::ModelReplied(_, _)) => true,
        (PhaseView::AskedModel, EventView::ModelFailed(_)) => true,
        (PhaseView::Parallel(batch), EventView::ParallelDone(outcomes)) => batch.len()
            == outcomes.len() && (forall|k: int|
            #![trigger batch[k]]
            #![trigger outcomes[k]]
            0 <= k < batch.len() && batch[k].error is None ==> outcomes[k] is Some),
        (PhaseView::Tool(calls), EventView::ToolDone(_)) => calls.len() > 0,
        (PhaseView::Rewrite(calls), EventView::Rewritten(_)) => calls.len() > 0,
        _ => false,
    }
}

/// What an event does to a session that waits for it, as [`fits`] says. (An event that it does not
/// wait for is not taken, whatever stands here.)
pub open spec fn transition(setup: SetupView, s: SessionView, event: EventView) -> StepView {
    match (s.phase, event) {
        (PhaseView::CheckClosed, EventView::Closed(closed)) => if closed {
            finished(s, None)
        } else {
            StepView {
                state: SessionView { phase: PhaseView::Poll, ..s },
                effects: Seq::empty(),
                action: ActionView::TryReceive,
            }
        },
        (PhaseView::Poll, EventView::Polled(request)) => match request {
            Some(r) => requested(s, r, PhaseView::Poll, ActionView::TryReceive),
            None => drained(setup, s),
        },
        (PhaseView::Receive, EventView::Received(request)) => match request {
            Some(r) => requested(s, r, PhaseView::CheckClosed, ActionView::CheckClosed),
            None => finished(s, None),
        },
        (PhaseView::Idle, EventView::Idled(error)) => called_back(
            s,
            error,
            StepView {
                state: SessionView { phase: PhaseView::Receive, ..s },
                effects: Seq::empty(),
                action: ActionView::Receive,
            },
        ),
        (PhaseView::Say, EventView::Said(error)) => called_back(s, error, looped(s)),
        (PhaseView::AskedCallback, EventView::CallbackReplied(turn)) => replied(
            setup,
            s,
            turn,
            None,
        ),
        (PhaseView::AskedCallback, EventView::CallbackFailed(text)) => finished(
            s,
            Some(RunErrorView::InferenceCallback(text)),
        ),
        (PhaseView::AskedModel, EventView::ModelReplied(turn, usage)) => replied(
            setup,
            s,
            turn,
            usage,
        ),
        (PhaseView::AskedModel, EventView::ModelFailed(text)) => finished(
            s,
            Some(RunErrorView::Model(text)),
        ),
        (PhaseView::Parallel(batch), EventView::ParallelDone(outcomes)) => {
            let results = planned_results(batch, outcomes);
            StepView {
                effects: pushes(results),
                ..looped(SessionView { messages: s.messages + results, ..s })
            }
        },
        (PhaseView::Tool(calls), EventView::ToolDone(outcome)) => settle_and_go_on(
            setup.tools,
            s,
            calls,
            tool::outcome_text(outcome),
        ),
        (PhaseView::Rewrite(calls), EventView::Rewritten(outcome)) => rewritten(
            setup.tools,
            s,
            calls,
            outcome,
        ),
        _ => looped(s),
    }
}

/// What the session waited for does not matter once it goes on with the calls.
proof fn lemma_serial_forgets_phase(
    tools: Seq<ToolView>,
    s: SessionView,
    phase: PhaseView,
    calls: Seq<ToolCallView>,
)
    ensures
        serial(tools, s, calls) == serial(tools, SessionView { phase, ..s }, calls),
        forall|content: Seq<char>|
            #![auto]
            settle_and_go_on(tools, s, calls, content) == settle_and_go_on(
                tools,
                SessionView { phase, ..s },
                calls,
                content,
            ),
    decreases calls.len(),
{
    if calls.len() > 0 {
        assert forall|content: Seq<char>|
            #![auto]
            settle_and_go_on(tools, s, calls, content) == settle_and_go_on(
                tools,
                SessionView { phase, ..s },
                calls,
                content,
            ) by {
            let next = settled(s, calls[0].id, content);
            lemma_serial_forgets_phase(tools, next, phase, calls.drop_first());
        }
        if let Err(e) = tool::resolved(tools, calls[0]) {
            let content = tool::outcome_text(Err::<Seq<char>, ToolErrorView>(e));
            let t = SessionView { phase, ..s };
            assert(serial(tools, s, calls) == settle_and_go_on(tools, s, calls, content));
            assert(serial(tools, t, calls) == settle_and_go_on(tools, t, calls, content));
        }
    }
}

/// What the session waited for does not matter once it goes on with a turn.
proof fn lemma_reply_forgets_phase(
    setup: SetupView,
    s: SessionView,
    phase: PhaseView,
    turn: AssistantReplyView,
    usage: Option<TokenUsage>,
)
    ensures
        replied(setup, s, turn, usage) == replied(setup, SessionView { phase, ..s }, turn, usage),
{
    let next = SessionView {
        messages: s.messages.push(reply::reply_message(turn)),
        prev_call: turn.tool_calls is Some,
        ..s
    };
    if let Some(calls) = turn.tool_calls {
        lemma_serial_forgets_phase(setup.tools, next, phase, calls);
    }
}

/// The descriptions of the tools.
fn descriptions_of<N, R>(tools: &Vec<Tool<N, R>>) -> (r: Vec<ToolDescription>)
    ensures
        r.deep_view() == descriptions(tools.deep_view()),
{
    let ghost all = descriptions(tools.deep_view());
    let mut out: Vec<ToolDescription> = Vec::new();
    assert(out.deep_view() =~= all.take(0));
    let mut i: usize = 0;
    while i < tools.len()
        invariant
            i <= tools@.len(),
            out.deep_view() == all.take(i as int),
            all == descriptions(tools.deep_view()),
        decreases tools@.len() - i,
    {
        assert(tools.deep_view()[i as int] == tools@[i as int].deep_view());
        let copy: ToolDescription = tools[i].description.duplicate();
        out.push(copy);
        assert(out.deep_view() =~= all.take(i as int).push(copy.deep_view()));
        assert(all.take(i + 1) =~= all.take(i as int).push(all[i as int]));
        i = i + 1;
    }
    assert(all.take(i as int) =~= all);
    out
}

/// The result of a call, as a message.
fn result_message(call_id: &str, content: String) -> (r: Message)
    ensures
        r.deep_view() == tool_message(call_id@, content@),
{
    Message::Tool(TextContent::Text(content), call_id.to_owned())
}

/// The error of a handler that failed, or its result.
fn outcome_result(outcome: Outcome) -> (r: Result<String, ToolError>)
    ensures
        tool::outcome_view(r) == outcome.deep_view(),
{
    match outcome {
        Outcome::Done(text) => Ok(text),
        Outcome::Failed(text) => Err(ToolError::Handler(text)),
    }
}

impl Session {
    /// Appends a message and reports it.
    fn push_message(&mut self, m: Message, effects: &mut Vec<Effect>)
        ensures
            final(self).deep_view() == (SessionView {
                messages: old(self).deep_view().messages.push(m.deep_view()),
                ..old(self).deep_view()
            }),
            final(self).client == old(self).client,
            final(effects).deep_view() == old(effects).deep_view().push(
                EffectView::Pushed(m.deep_view()),
            ),
    {
        let ghost messages = self.messages.deep_view();
        let ghost told = effects.deep_view();
        effects.push(Effect::Pushed(m.duplicate()));
        self.messages.push(m);
        assert(effects.deep_view() =~= told.push(EffectView::Pushed(m.deep_view())));
        assert(self.messages.deep_view() =~= messages.push(m.deep_view()));
    }

    /// Appends the result of a call and reports it.
    fn push_tool_result(&mut self, call_id: &str, content: String, effects: &mut Vec<Effect>)
        ensures
            final(self).deep_view() == (SessionView {
                messages: old(self).deep_view().messages.push(tool_message(call_id@, content@)),
                ..old(self).deep_view()
            }),
            final(self).client == old(self).client,
            final(effects).deep_view() == old(effects).deep_view().push(
                EffectView::Pushed(tool_message(call_id@, content@)),
            ),
    {
        self.push_message(result_message(call_id, content), effects);
    }

    /// Settles a call: appends its result, unless no assistant turn lists the call any more.
    fn settle(&mut self, call_id: &str, content: String, effects: &mut Vec<Effect>)
        ensures
            final(self).deep_view() == settled(old(self).deep_view(), call_id@, content@),
            final(self).client == old(self).client,
            final(effects).deep_view() == old(effects).deep_view() + settled_effects(
                old(self).deep_view(),
                call_id@,
                content@,
            ),
    {
        let ghost told = effects.deep_view();
        if history_has_tool_call_id(&self.messages, call_id) {
            self.push_tool_result(call_id, content, effects);
        }
        assert(effects.deep_view() =~= told + settled_effects(
            old(self).deep_view(),
            call_id@,
            content@,
        ));
    }

    /// Goes on at the top of the loop.
    fn go_on(&mut self, effects: Vec<Effect>) -> (step: Step)
        ensures
            final(self).deep_view() == looped(old(self).deep_view()).state,
            final(self).client == old(self).client,
            step.effects == effects,
            step.action.deep_view() == looped(old(self).deep_view()).action,
    {
        self.phase = Phase::CheckClosed;
        Step { effects, action: Action::CheckClosed }
    }

    /// Ends the run.
    fn finish(&mut self, error: Option<RunError>) -> (step: Step)
        ensures
            final(self).deep_view() == finished(old(self).deep_view(), error.deep_view()).state,
            final(self).client == old(self).client,
            step.effects.deep_view() == finished(
                old(self).deep_view(),
                error.deep_view(),
            ).effects,
            step.action.deep_view() == finished(old(self).deep_view(), error.deep_view()).action,
    {
        self.phase = Phase::Done;
        let effects: Vec<Effect> = Vec::new();
        assert(effects.deep_view() =~= Seq::<EffectView>::empty());
        Step { effects, action: Action::Finish(error) }
    }

    /// Runs the calls one at a time, in order, up to the first that has a handler to run.
    fn run_serial<H: Host>(
        &mut self,
        invocation: &AgentInvocation<H>,
        calls: Vec<ToolCall>,
        effects: Vec<Effect>,
    ) -> (step: Step)
        ensures
            final(self).deep_view() == serial(
                invocation.tools.deep_view(),
                old(self).deep_view(),
                calls.deep_view(),
            ).state,
            final(self).client == old(self).client,
            step.effects.deep_view() == effects.deep_view() + serial(
                invocation.tools.deep_view(),
                old(self).deep_view(),
                calls.deep_view(),
            ).effects,
            step.action.deep_view() == serial(
                invocation.tools.deep_view(),
                old(self).deep_view(),
                calls.deep_view(),
            ).action,
        decreases calls@.len(), 1int,
    {
        if calls.len() == 0 {
            assert(effects.deep_view() + Seq::<EffectView>::empty() =~= effects.deep_view());
            return self.go_on(effects);
        }
        assert(calls.deep_view()[0] == calls@[0].deep_view());
        match resolve_call(&invocation.tools, &calls[0]) {
            Ok(job) => {
                assert(effects.deep_view() + Seq::<EffectView>::empty() =~= effects.deep_view());
                assert(invocation.tools.deep_view()[job.tool as int]
                    == invocation.tools@[job.tool as int].deep_view());
                if invocation.tools[job.tool].is_rewriting() {
                    let snapshot: Vec<Message> = self.messages.duplicate();
                    self.phase = Phase::Rewrite(calls);
                    Step { effects, action: Action::RunRewrite(job, snapshot) }
                } else {
                    self.phase = Phase::Tool(calls);
                    Step { effects, action: Action::RunTool(job) }
                }
            },
            Err(e) => {
                let content: String = tool_content(Err(e));
                self.settle_first(invocation, calls, content, effects)
            },
        }
    }

    /// Settles the first call and goes on with the others.
    fn settle_first<H: Host>(
        &mut self,
        invocation: &AgentInvocation<H>,
        calls: Vec<ToolCall>,
        content: String,
        effects: Vec<Effect>,
    ) -> (step: Step)
        requires
            calls@.len() > 0,
        ensures
            final(self).deep_view() == settle_and_go_on(
                invocation.tools.deep_view(),
                old(self).deep_view(),
                calls.deep_view(),
                content@,
            ).state,
            final(self).client == old(self).client,
            step.effects.deep_view() == effects.deep_view() + settle_and_go_on(
                invocation.tools.deep_view(),
                old(self).deep_view(),
                calls.deep_view(),
                content@,
            ).effects,
            step.action.deep_view() == settle_and_go_on(
                invocation.tools.deep_view(),
                old(self).deep_view(),
                calls.deep_view(),
                content@,
            ).action,
        decreases calls@.len(), 0int,
    {
        let ghost all = calls.deep_view();
        let ghost told = effects.deep_view();
        let ghost before = self.deep_view();
        let mut rest: Vec<ToolCall> = calls;
        let mut effects: Vec<Effect> = effects;
        let first: ToolCall = rest.remove(0);
        assert(rest.deep_view() =~= all.drop_first());
        assert(all[0] == first.deep_view());
        self.settle(first.id.as_str(), content, &mut effects);
        let ghost tail = serial(invocation.tools.deep_view(), self.deep_view(), rest.deep_view());
        let step: Step = self.run_serial(invocation, rest, effects);
        assert(step.effects.deep_view() =~= told + (settled_effects(before, all[0].id, content@)
            + tail.effects));
        step
    }

    /// Deals with the outcome of the rewriting tool of the first call.
    fn execute_tool_serial<H: Host>(
        &mut self,
        invocation: &AgentInvocation<H>,
        calls: Vec<ToolCall>,
        outcome: RewriteOutcome,
    ) -> (step: Step)
        requires
            calls@.len() > 0,
        ensures
            final(self).deep_view() == rewritten(
                invocation.tools.deep_view(),
                old(self).deep_view(),
                calls.deep_view(),
                outcome.deep_view(),
            ).state,
            final(self).client == old(self).client,
            step.effects.deep_view() == rewritten(
                invocation.tools.deep_view(),
                old(self).deep_view(),
                calls.deep_view(),
                outcome.deep_view(),
            ).effects,
            step.action.deep_view() == rewritten(
                invocation.tools.deep_view(),
                old(self).deep_view(),
                calls.deep_view(),
                outcome.deep_view(),
            ).action,
    {
        let ghost tools = invocation.tools.deep_view();
        let ghost all = calls.deep_view();
        let ghost before = self.deep_view();
        assert(all[0] == calls@[0].deep_view());
        let mut effects: Vec<Effect> = Vec::new();
        let content: String = match outcome {
            RewriteOutcome::Failed(text) => tool_content(Err(ToolError::Handler(text))),
            RewriteOutcome::Done(content, new_messages) => {
                match judge_rewrite(&calls[0], &self.messages, &new_messages) {
                    Err(e) => tool_content(Err(e)),
                    Ok(replaces) => {
                        if replaces {
                            let copy: Vec<Message> = new_messages.duplicate();
                            let mut old_messages: Vec<Message> = new_messages;
                            std::mem::swap(&mut old_messages, &mut self.messages);
                            effects.push(Effect::Replaced(old_messages, copy));
                        }
                        content
                    },
                }
            },
        };
        let ghost told = effects.deep_view();
        let ghost rest = settle_and_go_on(tools, self.deep_view(), all, content@);
        let step: Step = self.settle_first(invocation, calls, content, effects);
        proof {
            if told.len() == 0 {
                assert(told + rest.effects =~= rest.effects);
            } else {
                assert(told =~= seq![told[0]]);
            }
        }
        step
    }

    /// Plans a batch that runs concurrently.
    fn run_parallel<H: Host>(
        &mut self,
        invocation: &AgentInvocation<H>,
        calls: Vec<ToolCall>,
        effects: Vec<Effect>,
    ) -> (step: Step)
        ensures
            final(self).deep_view() == parallel(
                invocation.tools.deep_view(),
                old(self).deep_view(),
                calls.deep_view(),
            ).state,
            final(self).client == old(self).client,
            step.effects == effects,
            step.action.deep_view() == parallel(
                invocation.tools.deep_view(),
                old(self).deep_view(),
                calls.deep_view(),
            ).action,
    {
        let ghost tools = invocation.tools.deep_view();
        let ghost all = calls.deep_view();
        let ghost plan = all.map_values(|c: ToolCallView| planned(tools, c));
        let ghost run = all.map_values(|c: ToolCallView| planned_job(tools, c));
        let mut batch: Vec<Planned> = Vec::new();
        let mut jobs: Vec<Option<Job>> = Vec::new();
        assert(batch.deep_view() =~= plan.take(0));
        assert(jobs.deep_view() =~= run.take(0));
        let mut k: usize = 0;
        while k < calls.len()
            invariant
                k <= calls@.len(),
                tools == invocation.tools.deep_view(),
                all == calls.deep_view(),
                plan == all.map_values(|c: ToolCallView| planned(tools, c)),
                run == all.map_values(|c: ToolCallView| planned_job(tools, c)),
                batch.deep_view() == plan.take(k as int),
                jobs.deep_view() == run.take(k as int),
            decreases calls@.len() - k,
        {
            assert(all[k as int] == calls@[k as int].deep_view());
            let (job, error): (Option<Job>, Option<ToolError>) = match execute_tool(
                &invocation.tools,
                &calls[k],
            ) {
                Ok(job) => (Some(job), None),
                Err(e) => (None, Some(e)),
            };
            let entry: Planned = Planned { call_id: calls[k].id.clone(), error };
            assert(plan[k as int] == entry.deep_view());
            assert(run[k as int] == job.deep_view());
            batch.push(entry);
            jobs.push(job);
            assert(batch.deep_view() =~= plan.take(k as int).push(plan[k as int]));
            assert(jobs.deep_view() =~= run.take(k as int).push(run[k as int]));
            assert(plan.take(k + 1) =~= plan.take(k as int).push(plan[k as int]));
            assert(run.take(k + 1) =~= run.take(k as int).push(run[k as int]));
            k = k + 1;
        }
        assert(plan.take(k as int) =~= plan);
        assert(run.take(k as int) =~= run);
        self.phase = Phase::Parallel(batch);
        Step { effects, action: Action::RunParallel(jobs) }
    }

    /// Appends the results of a concurrent batch.
    fn collect_parallel(&mut self, batch: Vec<Planned>, outcomes: Vec<Option<Outcome>>) -> (step:
        Step)
        requires
            fits(
                PhaseView::Parallel(batch.deep_view()),
                EventView::ParallelDone(outcomes.deep_view()),
            ),
        ensures
            final(self).deep_view() == looped(
                (SessionView {
                    messages: old(self).deep_view().messages + planned_results(
                        batch.deep_view(),
                        outcomes.deep_view(),
                    ),
                    ..old(self).deep_view()
                }),
            ).state,
            final(self).client == old(self).client,
            step.effects.deep_view() == pushes(
                planned_results(batch.deep_view(), outcomes.deep_view()),
            ),
            step.action is CheckClosed,
    {
        let ghost planned_batch = batch.deep_view();
        let ghost all = outcomes.deep_view();
        let ghost results = planned_results(planned_batch, all);
        let ghost before = self.deep_view();
        let mut batch: Vec<Planned> = batch;
        let mut outcomes: Vec<Option<Outcome>> = outcomes;
        let mut effects: Vec<Effect> = Vec::new();
        let ghost mut k: int = 0;
        assert(results.skip(0) =~= results);
        assert(before.messages + results.take(0) =~= before.messages);
        assert(effects.deep_view() =~= pushes(results.take(0)));
        while batch.len() > 0
            invariant
                0 <= k <= planned_batch.len() == all.len(),
                results == planned_results(planned_batch, all),
                fits(PhaseView::Parallel(planned_batch), EventView::ParallelDone(all)),
                batch.deep_view() == planned_batch.skip(k),
                outcomes.deep_view() == all.skip(k),
                self.deep_view() == (SessionView {
                    messages: before.messages + results.take(k),
                    ..before
                }),
                self.client == old(self).client,
                effects.deep_view() == pushes(results.take(k)),
            decreases batch@.len(),
        {
            assert(batch.deep_view().len() == planned_batch.len() - k);
            assert(outcomes.deep_view().len() == all.len() - k);
            assert(planned_batch[k] == batch.deep_view()[0]);
            assert(all[k] == outcomes.deep_view()[0]);
            assert(batch.deep_view()[0] == batch@[0].deep_view());
            assert(outcomes.deep_view()[0] == outcomes@[0].deep_view());
            let first: Planned = batch.remove(0);
            let outcome: Option<Outcome> = outcomes.remove(0);
            assert(batch.deep_view() =~= planned_batch.skip(k).drop_first());
            assert(outcomes.deep_view() =~= all.skip(k).drop_first());
            assert(planned_batch.skip(k).drop_first() =~= planned_batch.skip(k + 1));
            assert(all.skip(k).drop_first() =~= all.skip(k + 1));
            let content: String = match first.error {
                Some(e) => tool_content(Err(e)),
                None => {
                    assert(all[k] is Some);
                    match outcome {
                        Some(o) => tool_content(outcome_result(o)),
                        None => String::new(),
                    }
                },
            };
            assert(results[k] == tool_message(first.call_id@, content@));
            self.push_tool_result(first.call_id.as_str(), content, &mut effects);
            proof {
                assert(results.take(k + 1) =~= results.take(k).push(results[k]));
                assert(before.messages + results.take(k + 1) =~= (before.messages + results.take(
                    k,
                )).push(results[k]));
                assert(pushes(results.take(k + 1)) =~= pushes(results.take(k)).push(
                    EffectView::Pushed(results[k]),
                ));
                k = k + 1;
            }
        }
        assert(planned_batch.skip(k).len() == batch@.len());
        assert(results.take(k) =~= results);
        self.go_on(effects)
    }

    /// Takes in a user request.
    fn take_request(&mut self, request: UserRequest, next: Phase, action: Action) -> (step: Step)
        ensures
            final(self).deep_view() == requested(
                old(self).deep_view(),
                request.deep_view(),
                next.deep_view(),
                action.deep_view(),
            ).state,
            final(self).client == old(self).client,
            step.effects.deep_view() == requested(
                old(self).deep_view(),
                request.deep_view(),
                next.deep_view(),
                action.deep_view(),
            ).effects,
            step.action.deep_view() == requested(
                old(self).deep_view(),
                request.deep_view(),
                next.deep_view(),
                action.deep_view(),
            ).action,
    {
        let mut effects: Vec<Effect> = Vec::new();
        assert(effects.deep_view() =~= Seq::<EffectView>::empty());
        match request {
            UserRequest::Message(content) => {
                let m: Message = Message::User(content, None);
                self.push_message(m, &mut effects);
                assert(effects.deep_view() =~= seq![EffectView::Pushed(m.deep_view())]);
                self.pending = true;
                self.phase = next;
                Step { effects, action }
            },
            UserRequest::ChangeTemperature(temperature) => {
                self.temperature = temperature;
                self.phase = next;
                Step { effects, action }
            },
            UserRequest::Exit => self.finish(None),
        }
    }

    /// Asks for a turn, or lets the agent be idle.
    fn ask_or_idle<H: Host>(&mut self, invocation: &AgentInvocation<H>) -> (step: Step)
        ensures
            final(self).deep_view() == drained(
                setup_of(*invocation, old(self).client),
                old(self).deep_view(),
            ).state,
            final(self).client == old(self).client,
            step.effects.deep_view() == drained(
                setup_of(*invocation, old(self).client),
                old(self).deep_view(),
            ).effects,
            step.action.deep_view() == drained(
                setup_of(*invocation, old(self).client),
                old(self).deep_view(),
            ).action,
    {
        let effects: Vec<Effect> = Vec::new();
        assert(effects.deep_view() =~= Seq::<EffectView>::empty());
        if !self.prev_call && !self.pending {
            self.phase = Phase::Idle;
            return Step { effects, action: Action::Idle };
        }
        self.pending = false;
        if invocation.inference_callback.is_some() {
            self.phase = Phase::AskedCallback;
            return Step { effects, action: Action::AskCallback(self.messages.duplicate()) };
        }
        let action: Action = match &self.client {
            Some(c) => Action::AskModel(
                c.chat_with_tools(
                    self.messages.duplicate(),
                    descriptions_of(&invocation.tools),
                    invocation.parallel_tools,
                    self.temperature,
                ),
                invocation.retry_strategy.is_some(),
            ),
            None => return self.finish(Some(RunError::NoClient)),
        };
        self.phase = Phase::AskedModel;
        Step { effects, action }
    }

    /// Takes in the assistant's turn.
    fn take_reply<H: Host>(
        &mut self,
        invocation: &AgentInvocation<H>,
        turn: AssistantReply,
        usage: Option<TokenUsage>,
    ) -> (step: Step)
        ensures
            final(self).deep_view() == replied(
                setup_of(*invocation, old(self).client),
                old(self).deep_view(),
                turn.deep_view(),
                usage,
            ).state,
            final(self).client == old(self).client,
            step.effects.deep_view() == replied(
                setup_of(*invocation, old(self).client),
                old(self).deep_view(),
                turn.deep_view(),
                usage,
            ).effects,
            step.action.deep_view() == replied(
                setup_of(*invocation, old(self).client),
                old(self).deep_view(),
                turn.deep_view(),
                usage,
            ).action,
    {
        let ghost setup = setup_of(*invocation, self.client);
        let ghost reply_view = turn.deep_view();
        let ghost m = reply::reply_message(reply_view);
        let mut effects: Vec<Effect> = Vec::new();
        if let Some(u) = usage {
            effects.push(Effect::Usage(u));
        }
        assert(effects.deep_view() =~= usage_effects(usage));
        self.prev_call = turn.tool_calls.is_some();
        self.push_message(turn.to_message(), &mut effects);
        let ghost told = usage_effects(usage) + seq![EffectView::Pushed(m)];
        assert(effects.deep_view() =~= told);
        let ghost rest = turn_over(setup, self.deep_view(), reply_view);
        assert(told + Seq::<EffectView>::empty() =~= told);
        if let Some(calls) = turn.tool_calls {
            if calls.len() > 0 {
                if invocation.parallel_tools && !batch_has_rewrite(&invocation.tools, &calls) {
                    return self.run_parallel(invocation, calls, effects);
                }
                return self.run_serial(invocation, calls, effects);
            }
        }
        match turn.content {
            Some(text) => {
                self.phase = Phase::Say;
                Step { effects, action: Action::Say(text) }
            },
            None => self.go_on(effects),
        }
    }

    /// Whether the session waits for this event.
    fn waits_for(&self, event: &Event) -> (r: bool)
        ensures
            r == fits(self.deep_view().phase, event.deep_view()),
    {
        match (&self.phase, event) {
            (Phase::CheckClosed, Event::Closed(_)) => true,
            (Phase::Poll, Event::Polled(_)) => true,
            (Phase::Receive, Event::Received(_)) => true,
            (Phase::Idle, Event::Idled(_)) => true,
            (Phase::Say, Event::Said(_)) => true,
            (Phase::AskedCallback, Event::CallbackReplied(_)) => true,
            (Phase::AskedCallback, Event::CallbackFailed(_)) => true,
            (Phase::AskedModel, Event::ModelReplied(_, _)) => true,
            (Phase::AskedModel, Event::ModelFailed(_)) => true,
            (Phase::Parallel(batch), Event::ParallelDone(outcomes)) => covers(batch, outcomes),
            (Phase::Tool(calls), Event::ToolDone(_)) => calls.len() > 0,
            (Phase::Rewrite(calls), Event::Rewritten(_)) => calls.len() > 0,
            _ => false,
        }
    }

    /// Takes in an event and says what to do next. An event that the session does not wait for is
    /// not taken: there is no step then, and nothing changes.
    pub fn step<H: Host>(&mut self, invocation: &AgentInvocation<H>, event: Event) -> (r: Option<
        Step,
    >)
        ensures
            match r {
                Some(step) => {
                    let next = transition(
                        setup_of(*invocation, old(self).client),
                        old(self).deep_view(),
                        event.deep_view(),
                    );
                    &&& fits(old(self).deep_view().phase, event.deep_view())
                    &&& final(self).deep_view() == next.state
                    &&& step.effects.deep_view() == next.effects
                    &&& step.action.deep_view() == next.action
                },
                None => !fits(old(self).deep_view().phase, event.deep_view()) && *final(self)
                    == *old(self),
            },
            final(self).client == old(self).client,
    {
        if !self.waits_for(&event) {
            return None;
        }
        let ghost before = self.deep_view();
        let ghost tools = invocation.tools.deep_view();
        let mut phase: Phase = Phase::Done;
        std::mem::swap(&mut phase, &mut self.phase);
        let effects: Vec<Effect> = Vec::new();
        assert(effects.deep_view() =~= Seq::<EffectView>::empty());
        let step: Step = match (phase, event) {
            (Phase::CheckClosed, Event::Closed(closed)) => if closed {
                self.finish(None)
            } else {
                self.phase = Phase::Poll;
                Step { effects, action: Action::TryReceive }
            },
            (Phase::Poll, Event::Polled(request)) => match request {
                Some(r) => self.take_request(r, Phase::Poll, Action::TryReceive),
                None => self.ask_or_idle(invocation),
            },
            (Phase::Receive, Event::Received(request)) => match request {
                Some(r) => self.take_request(r, Phase::CheckClosed, Action::CheckClosed),
                None => self.finish(None),
            },
            (Phase::Idle, Event::Idled(error)) => match error {
                Some(text) => self.finish(Some(RunError::Callback(text))),
                None => {
                    self.phase = Phase::Receive;
                    Step { effects, action: Action::Receive }
                },
            },
            (Phase::Say, Event::Said(error)) => match error {
                Some(text) => self.finish(Some(RunError::Callback(text))),
                None => self.go_on(effects),
            },
            (Phase::AskedCallback, Event::CallbackReplied(turn)) => {
                proof {
                    lemma_reply_forgets_phase(
                        setup_of(*invocation, self.client),
                        before,
                        PhaseView::Done,
                        turn.deep_view(),
                        None,
                    );
                }
                self.take_reply(invocation, turn, None)
            },
            (Phase::AskedCallback, Event::CallbackFailed(text)) => {
                self.finish(Some(RunError::InferenceCallback(text)))
            },
            (Phase::AskedModel, Event::ModelReplied(turn, usage)) => {
                proof {
                    lemma_reply_forgets_phase(
                        setup_of(*invocation, self.client),
                        before,
                        PhaseView::Done,
                        turn.deep_view(),
                        usage,
                    );
                }
                self.take_reply(invocation, turn, usage)
            },
            (Phase::AskedModel, Event::ModelFailed(text)) => {
                self.finish(Some(RunError::Model(text)))
            },
            (Phase::Parallel(batch), Event::ParallelDone(outcomes)) => {
                self.collect_parallel(batch, outcomes)
            },
            (Phase::Tool(calls), Event::ToolDone(outcome)) => {
                let content: String = tool_content(outcome_result(outcome));
                let ghost rest = settle_and_go_on(tools, before, calls.deep_view(), content@);
                proof {
                    lemma_serial_forgets_phase(tools, before, PhaseView::Done, calls.deep_view());
                    assert(effects.deep_view() + rest.effects =~= rest.effects);
                }
                self.settle_first(invocation, calls, content, effects)
            },
            (Phase::Rewrite(calls), Event::Rewritten(outcome)) => {
                proof {
                    lemma_serial_forgets_phase(tools, before, PhaseView::Done, calls.deep_view());
                    if let RewriteOutcomeView::Done(_, new_messages) = outcome.deep_view() {
                        lemma_serial_forgets_phase(
                            tools,
                            SessionView { messages: new_messages, ..before },
                            PhaseView::Done,
                            calls.deep_view(),
                        );
                    }
                }
                self.execute_tool_serial(invocation, calls, outcome)
            },
            _ => {
                assert(false);
                return None;
            },
        };
        Some(step)
    }
}

/// Whether there is an outcome for each call of the batch whose handler ran.
fn covers(batch: &Vec<Planned>, outcomes: &Vec<Option<Outcome>>) -> (r: bool)
    ensures
        r == fits(
            PhaseView::Parallel(batch.deep_view()),
            EventView::ParallelDone(outcomes.deep_view()),
        ),
{
    if batch.len() != outcomes.len() {
        return false;
    }
    let mut k: usize = 0;
    while k < batch.len()
        invariant
            k <= batch@.len() == outcomes@.len(),
            forall|j: int|
                #![trigger batch.deep_view()[j]]
                #![trigger outcomes.deep_view()[j]]
                0 <= j < k && batch.deep_view()[j].error is None ==> outcomes.deep_view()[j] is Some,
        decreases batch@.len() - k,
    {
        assert(batch.deep_view()[k as int] == batch@[k as int].deep_view());
        assert(outcomes.deep_view()[k as int] == outcomes@[k as int].deep_view());
        if batch[k].error.is_none() && outcomes[k].is_none() {
            return false;
        }
        k = k + 1;
    }
    true
}

/// The session and its first step.
pub struct Begun {
    pub session: Session,
    pub step: Step,
}

impl<H: Host> AgentInvocation<H> {
    /// Starts the loop, with the given client if any. The seed messages move into the history.
    fn run_inner(&mut self, client: Option<OpenAIClient>) -> (r: Begun)
        ensures
            r.session.client == client,
            r.session.deep_view() == started(
                old(self).system_prompt@,
                old(self).seed_messages.deep_view(),
            ).state,
            r.step.effects.deep_view() == started(
                old(self).system_prompt@,
                old(self).seed_messages.deep_view(),
            ).effects,
            r.step.action.deep_view() == started(
                old(self).system_prompt@,
                old(self).seed_messages.deep_view(),
            ).action,
            *final(self) == (AgentInvocation::<H> {
                seed_messages: final(self).seed_messages,
                ..*old(self)
            }),
            final(self).seed_messages@.len() == 0,
    {
        let ghost seed = self.seed_messages.deep_view();
        let ghost system = client::system_text(self.system_prompt@);
        let mut rest: Vec<Message> = Vec::new();
        std::mem::swap(&mut rest, &mut self.seed_messages);
        let mut messages: Vec<Message> = Vec::new();
        messages.push(system_message(self.system_prompt.as_str()));
        let mut session: Session = Session {
            client,
            messages,
            prev_call: false,
            pending: false,
            temperature: Temperature { bits: INITIAL_TEMPERATURE_BITS },
            phase: Phase::CheckClosed,
        };
        let ghost fresh = started(self.system_prompt@, Seq::empty()).state;
        let mut effects: Vec<Effect> = Vec::new();
        let ghost mut k: int = 0;
        assert(session.messages.deep_view() =~= seq![system] + seed.take(0));
        assert(effects.deep_view() =~= pushes(seed.take(0)));
        assert(rest.deep_view() =~= seed.skip(0));
        while rest.len() > 0
            invariant
                0 <= k <= seed.len(),
                rest.deep_view() == seed.skip(k),
                session.client == client,
                session.deep_view() == (SessionView {
                    messages: seq![system] + seed.take(k),
                    ..fresh
                }),
                effects.deep_view() == pushes(seed.take(k)),
            decreases rest@.len(),
        {
            assert(rest.deep_view().len() == seed.len() - k);
            assert(rest.deep_view()[0] == rest@[0].deep_view());
            assert(seed[k] == rest.deep_view()[0]);
            let first: Message = rest.remove(0);
            assert(rest.deep_view() =~= seed.skip(k).drop_first());
            assert(seed.skip(k).drop_first() =~= seed.skip(k + 1));
            session.push_message(first, &mut effects);
            proof {
                assert(seed.take(k + 1) =~= seed.take(k).push(seed[k]));
                assert(seq![system] + seed.take(k + 1) =~= (seq![system] + seed.take(k)).push(
                    seed[k],
                ));
                assert(pushes(seed.take(k + 1)) =~= pushes(seed.take(k)).push(
                    EffectView::Pushed(seed[k]),
                ));
                k = k + 1;
            }
        }
        assert(seed.skip(k).len() == rest@.len());
        assert(seed.take(k) =~= seed);
        Begun { session, step: Step { effects, action: Action::CheckClosed } }
    }

    /// Starts the agent loop against a client.
    ///
    /// If `inference_callback` is set, that callback is used for each turn and the client is not
    /// contacted.
    pub fn run(&mut self, client: OpenAIClient) -> (r: Begun)
        ensures
            r.session.client == Some(client),
            r.session.deep_view() == started(
                old(self).system_prompt@,
                old(self).seed_messages.deep_view(),
            ).state,
            r.step.effects.deep_view() == started(
                old(self).system_prompt@,
                old(self).seed_messages.deep_view(),
            ).effects,
            r.step.action.deep_view() == started(
                old(self).system_prompt@,
                old(self).seed_messages.deep_view(),
            ).action,
            *final(self) == (AgentInvocation::<H> {
                seed_messages: final(self).seed_messages,
                ..*old(self)
            }),
            final(self).seed_messages@.len() == 0,
    {
        self.run_inner(Some(client))
    }

    /// Starts the agent loop without a client.
    ///
    /// Requires `inference_callback` to be set; each turn is answered by that callback.
    pub fn run_without_client(&mut self) -> (r: Result<Begun, RunError>)
        ensures
            match r {
                Ok(begun) => {
                    let start = started(
                        old(self).system_prompt@,
                        old(self).seed_messages.deep_view(),
                    );
                    &&& old(self).inference_callback is Some
                    &&& begun.session.client is None
                    &&& begun.session.deep_view() == start.state
                    &&& begun.step.effects.deep_view() == start.effects
                    &&& begun.step.action.deep_view() == start.action
                    &&& *final(self) == (AgentInvocation::<H> {
                        seed_messages: final(self).seed_messages,
                        ..*old(self)
                    })
                    &&& final(self).seed_messages@.len() == 0
                },
                Err(e) => old(self).inference_callback is None && e is NoInferenceCallback
                    && *final(self) == *old(self),
            },
    {
        if self.inference_callback.is_none() {
            return Err(RunError::NoInferenceCallback);
        }
        Ok(self.run_inner(None))
    }
}

} // verus!

//! What the loop makes of the user's requests, when it asks for a turn and what it asks with.

use vstd::prelude::*;

use crate::client::{OpenAIClient, Temperature};
use crate::multi_tool::event::{
    ActionView, EffectView, EventView, RunErrorView, UserRequestView,
};
use crate::multi_tool::invocation::{AgentInvocation, Host};
use crate::multi_tool::laws;
use crate::multi_tool::message::{MessageView, TextContentView, UserContentView};
use crate::multi_tool::reply;
use crate::multi_tool::reply::AssistantReplyView;
use crate::multi_tool::session;
use crate::multi_tool::session::{PhaseView, SessionView, SetupView};
use crate::multi_tool::tool;
use crate::usage::TokenUsage;

verus! {

/// A run begins with the system prompt and all the seed messages behind it, in their order. Each seed
/// message is reported, no turn is due, and the temperature is one half.
pub proof fn law_run_begins_with_prompt_and_seed(system_prompt: Seq<char>, seed: Seq<MessageView>)
    ensures
        ({
            let start = session::started(system_prompt, seed);
            &&& start.state.messages.len() == 1 + seed.len()
            &&& start.state.messages[0] == MessageView::System(
                TextContentView::Text(system_prompt),
                None,
            )
            &&& forall|k: int|
                0 <= k < seed.len() ==> start.state.messages[k + 1] == #[trigger] seed[k]
            &&& start.effects.len() == seed.len()
            &&& forall|k: int|
                0 <= k < seed.len() ==> start.effects[k] == EffectView::Pushed(#[trigger] seed[k])
            &&& !start.state.prev_call
            &&& !start.state.pending
            &&& start.state.temperature.bits == 0x3f00_0000
            &&& start.state.phase is CheckClosed
            &&& start.action is CheckClosed
        }),
{
}

/// What a run reads of an invocation: all its tools, whether calls may run concurrently, whether there
/// is an inference callback and a retry strategy, and the model of the client.
pub proof fn law_run_reads_the_invocation<H: Host>(
    invocation: AgentInvocation<H>,
    client: Option<OpenAIClient>,
)
    ensures
        ({
            let setup = session::setup_of(invocation, client);
            &&& setup.tools.len() == invocation.tools@.len()
            &&& forall|k: int|
                0 <= k < invocation.tools@.len() ==> {
                    let t = #[trigger] invocation.tools@[k];
                    &&& setup.tools[k].description.name == t.description.name@
                    &&& setup.tools[k].description.description == (
                    match t.description.description {
                        Some(text) => Some(text@),
                        None => None,
                    })
                    &&& setup.tools[k].description.parameters == t.description.parameters
                    &&& setup.tools[k].rewriting <==> t.body is Rewriting
                }
            &&& setup.parallel_tools == invocation.parallel_tools
            &&& setup.callback <==> invocation.inference_callback is Some
            &&& setup.retry <==> invocation.retry_strategy is Some
            &&& match client {
                Some(c) => setup.model == Some(c.model_name@),
                None => setup.model is None,
            }
        }),
{
}

/// The session waits for exactly these events.
pub proof fn law_session_waits_for(phase: PhaseView, event: EventView)
    ensures
        session::fits(phase, event) <==> match event {
            EventView::Closed(_) => phase is CheckClosed,
            EventView::Polled(_) => phase is Poll,
            EventView::Received(_) => phase is Receive,
            EventView::Idled(_) => phase is Idle,
            EventView::Said(_) => phase is Say,
            EventView::CallbackReplied(_) => phase is AskedCallback,
            EventView::CallbackFailed(_) => phase is AskedCallback,
            EventView::ModelReplied(_, _) => phase is AskedModel,
            EventView::ModelFailed(_) => phase is AskedModel,
            EventView::ParallelDone(outcomes) => phase matches PhaseView::Parallel(batch)
                && batch.len() == outcomes.len() && (forall|k: int|
                #![trigger batch[k]]
                0 <= k < batch.len() && batch[k].error is None ==> outcomes[k] is Some),
            EventView::ToolDone(_) => phase matches PhaseView::Tool(calls) && calls.len() > 0,
            EventView::Rewritten(_) => phase matches PhaseView::Rewrite(calls) && calls.len() > 0,
        },
{
    if let EventView::ParallelDone(outcomes) = event {
        if let PhaseView::Parallel(batch) = phase {
            if batch.len() == outcomes.len() && (forall|k: int|
                #![trigger batch[k]]
                0 <= k < batch.len() && batch[k].error is None ==> outcomes[k] is Some) {
                assert forall|k: int|
                    #![trigger batch[k]]
                    #![trigger outcomes[k]]
                    0 <= k < batch.len() && batch[k].error is None implies outcomes[k] is Some by {
                    assert(batch[k].error is None);
                }
                assert(session::fits(phase, event));
            }
        }
    }
}

/// A request of the user that the event brings, if it does.
pub open spec fn request_of(event: EventView) -> Option<UserRequestView> {
    match event {
        EventView::Polled(request) => request,
        EventView::Received(request) => request,
        _ => None,
    }
}

/// A message of the user is appended and reported as it is, in whatever state it comes, and awaits an
/// answer: also while the model is to see tool results, and whatever it holds. Nothing else changes,
/// and the loop looks for more.
pub proof fn law_user_message_is_taken(
    setup: SetupView,
    s: SessionView,
    event: EventView,
    content: UserContentView,
)
    requires
        session::fits(s.phase, event),
        request_of(event) == Some(UserRequestView::Message(content)),
    ensures
        ({
            let step = session::transition(setup, s, event);
            let m = MessageView::User(content, None);
            &&& step.state.messages.len() == s.messages.len() + 1
            &&& step.state.messages.drop_last() == s.messages
            &&& step.state.messages.last() == m
            &&& step.effects.len() == 1
            &&& step.effects[0] == EffectView::Pushed(m)
            &&& step.state.pending
            &&& step.state.prev_call == s.prev_call
            &&& step.state.temperature == s.temperature
            &&& event is Polled ==> step.action is TryReceive && step.state.phase is Poll
            &&& event is Received ==> step.action is CheckClosed && step.state.phase is CheckClosed
        }),
{
    let step = session::transition(setup, s, event);
    assert(step.state.messages.drop_last() =~= s.messages);
}

/// A new temperature is taken as it is, and nothing else changes. The loop looks for more requests.
pub proof fn law_temperature_is_taken(
    setup: SetupView,
    s: SessionView,
    event: EventView,
    temperature: Temperature,
)
    requires
        session::fits(s.phase, event),
        request_of(event) == Some(UserRequestView::ChangeTemperature(temperature)),
    ensures
        ({
            let step = session::transition(setup, s, event);
            &&& step.state.temperature == temperature
            &&& step.state.messages == s.messages
            &&& step.state.pending == s.pending
            &&& step.state.prev_call == s.prev_call
            &&& step.effects.len() == 0
            &&& event is Polled ==> step.action is TryReceive && step.state.phase is Poll
            &&& event is Received ==> step.action is CheckClosed && step.state.phase is CheckClosed
        }),
{
}

/// The loop goes round: it looks whether the channel is closed, takes in all the requests that wait,
/// asks for a turn or lets the agent be idle, and an idle agent waits for a request. None of this
/// changes the conversation.
pub proof fn law_loop_goes_round(setup: SetupView, s: SessionView, event: EventView)
    requires
        session::fits(s.phase, event),
        match event {
            EventView::Closed(false) => true,
            EventView::Polled(None) => true,
            EventView::Idled(None) => true,
            EventView::Said(None) => true,
            _ => false,
        },
    ensures
        ({
            let step = session::transition(setup, s, event);
            &&& step.effects.len() == 0
            &&& step.state.messages == s.messages
            &&& step.state.prev_call == s.prev_call
            &&& step.state.temperature == s.temperature
            &&& event is Closed ==> step.action is TryReceive && step.state.phase is Poll
                && step.state.pending == s.pending
            &&& event is Idled ==> step.action is Receive && step.state.phase is Receive
                && step.state.pending == s.pending
            &&& event is Said ==> step.action is CheckClosed && step.state.phase is CheckClosed
                && step.state.pending == s.pending
            &&& event is Polled && !s.prev_call && !s.pending ==> step.action is Idle
                && step.state.phase is Idle && !step.state.pending
        }),
{
}

/// A due turn is answered by the inference callback where there is one, which is handed the whole
/// history. Else the model of the client is asked with the whole history, the descriptions of all the
/// tools, and the temperature of the time, and with retries where there is a strategy. Without either
/// the run fails.
pub proof fn law_due_turn_is_asked(setup: SetupView, s: SessionView)
    requires
        s.phase is Poll,
        s.prev_call || s.pending,
    ensures
        ({
            let step = session::transition(setup, s, EventView::Polled(None));
            &&& !step.state.pending
            &&& step.state.messages == s.messages
            &&& step.effects.len() == 0
            &&& if setup.callback {
                step.action == ActionView::AskCallback(s.messages)
                    && step.state.phase is AskedCallback
            } else if setup.model is Some {
                &&& step.state.phase is AskedModel
                &&& step.action matches ActionView::AskModel(request, retry) && {
                    &&& retry == setup.retry
                    &&& request.model == setup.model->0
                    &&& request.messages == s.messages
                    &&& request.temperature == s.temperature
                    &&& request.parallel_tool_calls == Some(setup.parallel_tools)
                    &&& request.tools is Some
                    &&& request.tools->0.len() == setup.tools.len()
                    &&& forall|k: int|
                        0 <= k < setup.tools.len() ==> request.tools->0[k] == (
                        #[trigger] setup.tools[k]).description
                }
            } else {
                step.action == ActionView::Finish(Some(RunErrorView::NoClient))
            }
        }),
{
}

/// Exactly these events end a run, and so: the closed channel and the user without an error, and a
/// failed turn or callback with the text of the failure.
pub proof fn law_failures_end_the_run(setup: SetupView, s: SessionView, event: EventView)
    requires
        session::fits(s.phase, event),
    ensures
        ({
            let action = session::transition(setup, s, event).action;
            &&& event == EventView::Closed(true) ==> action == ActionView::Finish(None)
            &&& request_of(event) == Some(UserRequestView::Exit) ==> action == ActionView::Finish(
                None,
            )
            &&& event == EventView::Received(None) ==> action == ActionView::Finish(None)
            &&& event matches EventView::CallbackFailed(text) ==> action == ActionView::Finish(
                Some(RunErrorView::InferenceCallback(text)),
            )
            &&& event matches EventView::ModelFailed(text) ==> action == ActionView::Finish(
                Some(RunErrorView::Model(text)),
            )
            &&& event matches EventView::Idled(Some(text)) ==> action == ActionView::Finish(
                Some(RunErrorView::Callback(text)),
            )
            &&& event matches EventView::Said(Some(text)) ==> action == ActionView::Finish(
                Some(RunErrorView::Callback(text)),
            )
        }),
{
}

/// What is due: tool results exactly after a turn with a list of calls, and user messages from when
/// they come until a turn is due.
pub proof fn law_news_are_remembered(setup: SetupView, s: SessionView, event: EventView)
    requires
        session::fits(s.phase, event),
    ensures
        ({
            let state = session::transition(setup, s, event).state;
            &&& state.prev_call == (match event {
                EventView::CallbackReplied(turn) => turn.tool_calls is Some,
                EventView::ModelReplied(turn, _) => turn.tool_calls is Some,
                _ => s.prev_call,
            })
            &&& state.pending == (if request_of(event) matches Some(UserRequestView::Message(_)) {
                true
            } else if event == EventView::Polled(None) {
                false
            } else {
                s.pending
            })
        }),
{
    match (s.phase, event) {
        (PhaseView::Tool(calls), EventView::ToolDone(outcome)) => {
            laws::lemma_settle_and_go_on(setup.tools, s, calls, tool::outcome_text(outcome));
        },
        (PhaseView::Rewrite(calls), EventView::Rewritten(outcome)) => {
            laws::lemma_rewritten(setup.tools, s, calls, outcome);
        },
        (PhaseView::AskedCallback, EventView::CallbackReplied(turn)) => {
            lemma_turn_keeps(setup, s, turn, None);
        },
        (PhaseView::AskedModel, EventView::ModelReplied(turn, usage)) => {
            lemma_turn_keeps(setup, s, turn, usage);
        },
        _ => {},
    }
}

/// The messages of the user among these, in order.
pub open spec fn users_among(messages: Seq<MessageView>) -> Seq<MessageView>
    decreases messages.len(),
{
    if messages.len() == 0 {
        Seq::empty()
    } else if messages.last() is User {
        users_among(messages.drop_last()).push(messages.last())
    } else {
        users_among(messages.drop_last())
    }
}

/// The messages that the user sent, in order of their arrival.
pub open spec fn sent(events: Seq<EventView>) -> Seq<MessageView>
    decreases events.len(),
{
    if events.len() == 0 {
        Seq::empty()
    } else {
        let before = sent(events.drop_last());
        match request_of(events.last()) {
            Some(UserRequestView::Message(content)) => before.push(
                MessageView::User(content, None),
            ),
            _ => before,
        }
    }
}

/// No user message is among what these effects append.
pub open spec fn appends_no_user(effects: Seq<EffectView>) -> bool {
    forall|k: int|
        0 <= k < effects.len() ==> ((#[trigger] effects[k]) matches EffectView::Pushed(m) ==> !(m is
            User)) && !(effects[k] is Replaced)
}

/// Effects that append no user message leave those that were there.
proof fn lemma_users_stay(messages: Seq<MessageView>, effects: Seq<EffectView>)
    requires
        appends_no_user(effects),
    ensures
        users_among(laws::replay(messages, effects)) == users_among(messages),
    decreases effects.len(),
{
    if effects.len() > 0 {
        let less = effects.drop_last();
        assert forall|k: int| 0 <= k < less.len() implies ((#[trigger] less[k]) matches
            EffectView::Pushed(m) ==> !(m is User)) && !(less[k] is Replaced) by {
            assert(less[k] == effects[k]);
        }
        lemma_users_stay(messages, less);
        let before = laws::replay(messages, less);
        assert(effects.last() == effects[effects.len() - 1]);
        if let EffectView::Pushed(m) = effects.last() {
            assert(before.push(m).drop_last() =~= before);
            assert(before.push(m).last() == m);
        }
    }
}

/// What a turn leaves as it was, and that its step appends no user message.
proof fn lemma_turn_keeps(
    setup: SetupView,
    s: SessionView,
    turn: AssistantReplyView,
    usage: Option<TokenUsage>,
)
    ensures
        ({
            let step = session::replied(setup, s, turn, usage);
            &&& step.state.prev_call == (turn.tool_calls is Some)
            &&& step.state.pending == s.pending
            &&& appends_no_user(step.effects)
        }),
{
    let m = reply::reply_message(turn);
    let next = SessionView {
        messages: s.messages.push(m),
        prev_call: turn.tool_calls is Some,
        ..s
    };
    let rest = session::turn_over(setup, next, turn);
    if let Some(calls) = turn.tool_calls {
        laws::lemma_serial(setup.tools, next, calls);
    }
    let told = session::usage_effects(usage) + seq![EffectView::Pushed(m)];
    let step = session::replied(setup, s, turn, usage);
    assert(laws::only_results(rest.effects));
    assert forall|k: int| 0 <= k < step.effects.len() implies ((#[trigger] step.effects[k]) matches
        EffectView::Pushed(pushed) ==> !(pushed is User)) && !(step.effects[k] is Replaced) by {
        if k < told.len() {
            assert(step.effects[k] == told[k]);
        } else {
            assert(step.effects[k] == rest.effects[k - told.len()]);
            assert(laws::is_pushed_result(rest.effects[k - told.len()]));
        }
    }
}

/// The user messages of a history grow by what the user sends, and by nothing else.
proof fn lemma_step_users(setup: SetupView, s: SessionView, event: EventView)
    requires
        session::fits(s.phase, event),
        !laws::replaces(session::transition(setup, s, event).effects),
    ensures
        users_among(session::transition(setup, s, event).state.messages) == (match request_of(
            event,
        ) {
            Some(UserRequestView::Message(content)) => users_among(s.messages).push(
                MessageView::User(content, None),
            ),
            _ => users_among(s.messages),
        }),
{
    let step = session::transition(setup, s, event);
    laws::lemma_step(setup, s, event);
    match (s.phase, event) {
        (PhaseView::Tool(calls), EventView::ToolDone(outcome)) => {
            laws::lemma_settle_and_go_on(setup.tools, s, calls, tool::outcome_text(outcome));
            assert forall|k: int| 0 <= k < step.effects.len() implies laws::is_pushed_result(
                #[trigger] step.effects[k],
            ) by {}
            lemma_users_stay(s.messages, step.effects);
        },
        (PhaseView::Rewrite(calls), EventView::Rewritten(outcome)) => {
            laws::lemma_rewritten(setup.tools, s, calls, outcome);
            assert forall|k: int| 0 <= k < step.effects.len() implies ((
            #[trigger] step.effects[k]) matches EffectView::Pushed(m) ==> !(m is User)) && !(
            step.effects[k] is Replaced) by {}
            lemma_users_stay(s.messages, step.effects);
        },
        (PhaseView::AskedCallback, EventView::CallbackReplied(turn)) => {
            lemma_turn_keeps(setup, s, turn, None);
            lemma_users_stay(s.messages, step.effects);
        },
        (PhaseView::AskedModel, EventView::ModelReplied(turn, usage)) => {
            lemma_turn_keeps(setup, s, turn, usage);
            lemma_users_stay(s.messages, step.effects);
        },
        (PhaseView::Parallel(batch), EventView::ParallelDone(outcomes)) => {
            lemma_users_stay(s.messages, step.effects);
        },
        _ => {
            if let Some(UserRequestView::Message(content)) = request_of(event) {
                let m = MessageView::User(content, None);
                assert(s.messages.push(m).drop_last() =~= s.messages);
                assert(s.messages.push(m).last() == m);
            }
        },
    }
}

/// As long as no rewriting tool replaces the history, the user messages in it are those that were there
/// and, behind them, all that the user has sent since, in order of their arrival: none is lost, none
/// comes twice. Whenever a turn is asked for, this history is handed over.
pub proof fn law_user_messages_reach_the_model(
    setup: SetupView,
    s: SessionView,
    events: Seq<EventView>,
)
    requires
        laws::awaited(setup, s, events),
        !laws::replaces(laws::ran(setup, s, events).effects),
    ensures
        ({
            let run = laws::ran(setup, s, events);
            &&& users_among(run.state.messages) == users_among(s.messages) + sent(events)
            &&& events.len() > 0 ==> (run.actions.last() matches ActionView::AskCallback(seen)
                ==> seen == run.state.messages)
            &&& events.len() > 0 ==> (run.actions.last() matches ActionView::AskModel(request, _)
                ==> request.messages == run.state.messages)
        }),
    decreases events.len(),
{
    if events.len() == 0 {
        assert(users_among(s.messages) + sent(events) =~= users_among(s.messages));
    } else {
        let less = events.drop_last();
        let before = laws::ran(setup, s, less);
        let step = session::transition(setup, before.state, events.last());
        laws::lemma_replaces_concat(before.effects, step.effects);
        law_user_messages_reach_the_model(setup, s, less);
        lemma_step_users(setup, before.state, events.last());
        laws::lemma_step(setup, before.state, events.last());
        assert(users_among(laws::ran(setup, s, events).state.messages) =~= users_among(s.messages)
            + sent(events));
    }
}

/// Between a message of the user and the turn that answers it no tool runs and nothing is replaced:
/// the message stays the unanswered news of the session until a turn is due.
pub proof fn law_message_waits_for_its_turn(setup: SetupView, s: SessionView, event: EventView)
    requires
        session::fits(s.phase, event),
        s.pending,
        s.phase is Poll || s.phase is CheckClosed,
    ensures
        ({
            let step = session::transition(setup, s, event);
            &&& !laws::replaces(step.effects)
            &&& s.messages.is_prefix_of(step.state.messages)
            &&& !(step.action is Finish) ==> (step.state.pending && (step.state.phase is Poll
                || step.state.phase is CheckClosed)) || step.action is AskCallback
                || step.action is AskModel
        }),
{
}

} // verus!

//! What holds of every run of the multi-tool agent loop.

use vstd::prelude::*;

use crate::client;
use crate::client::Temperature;
use crate::multi_tool::event::{
    ActionView, EffectView, EventView, JobView, RewriteOutcomeView, RunErrorView, UserRequestView,
};
use crate::multi_tool::history;
use crate::multi_tool::message::{MessageView, ToolCallView};
use crate::multi_tool::reply;
use crate::multi_tool::reply::AssistantReplyView;
use crate::multi_tool::session;
use crate::multi_tool::session::{PhaseView, SessionView, SetupView, StepView};
use crate::multi_tool::tool;
use crate::multi_tool::tool::{ToolErrorView, ToolView};
use crate::usage::TokenUsage;

verus! {

/// What a mirror of the history that follows one effect becomes.
pub open spec fn mirrored(messages: Seq<MessageView>, effect: EffectView) -> Seq<MessageView> {
    match effect {
        EffectView::Pushed(m) => messages.push(m),
        EffectView::Replaced(_, new_messages) => new_messages,
        EffectView::Usage(_) => messages,
    }
}

/// What a mirror of the history that follows the effects, in order, becomes.
pub open spec fn replay(messages: Seq<MessageView>, effects: Seq<EffectView>) -> Seq<MessageView>
    decreases effects.len(),
{
    if effects.len() == 0 {
        messages
    } else {
        mirrored(replay(messages, effects.drop_last()), effects.last())
    }
}

/// Following effects one after the other is following them all.
pub proof fn lemma_replay_concat(messages: Seq<MessageView>, a: Seq<EffectView>, b: Seq<EffectView>)
    ensures
        replay(messages, a + b) == replay(replay(messages, a), b),
    decreases b.len(),
{
    if b.len() == 0 {
        assert(a + b =~= a);
    } else {
        lemma_replay_concat(messages, a, b.drop_last());
        assert((a + b).drop_last() =~= a + b.drop_last());
    }
}

/// Following one effect.
proof fn lemma_replay_one(messages: Seq<MessageView>, effect: EffectView)
    ensures
        replay(messages, seq![effect]) == mirrored(messages, effect),
{
    assert(seq![effect].drop_last() =~= Seq::<EffectView>::empty());
    assert(replay(messages, Seq::<EffectView>::empty()) == messages);
}

/// Following pushed messages appends them.
pub proof fn lemma_replay_pushes(messages: Seq<MessageView>, pushed: Seq<MessageView>)
    ensures
        replay(messages, session::pushes(pushed)) == messages + pushed,
    decreases pushed.len(),
{
    let effects = session::pushes(pushed);
    if pushed.len() == 0 {
        assert(messages + pushed =~= messages);
    } else {
        lemma_replay_pushes(messages, pushed.drop_last());
        assert(effects.drop_last() =~= session::pushes(pushed.drop_last()));
        assert(messages + pushed =~= (messages + pushed.drop_last()).push(pushed.last()));
    }
}

/// The effect is that of a tool result that was appended.
pub open spec fn is_pushed_result(effect: EffectView) -> bool {
    effect matches EffectView::Pushed(m) && m is Tool
}

/// All the effects are those of tool results that were appended.
pub open spec fn only_results(effects: Seq<EffectView>) -> bool {
    forall|k: int| 0 <= k < effects.len() ==> is_pushed_result(#[trigger] effects[k])
}

/// No effect is that of a system message that was appended.
pub open spec fn pushes_no_system(effects: Seq<EffectView>) -> bool {
    forall|k: int|
        0 <= k < effects.len() ==> ((#[trigger] effects[k]) matches EffectView::Pushed(m) ==> !(m is
            System))
}

/// The token usages that the effects report, in order.
pub open spec fn usages_told(effects: Seq<EffectView>) -> Seq<TokenUsage>
    decreases effects.len(),
{
    if effects.len() == 0 {
        Seq::empty()
    } else {
        let before = usages_told(effects.drop_last());
        match effects.last() {
            EffectView::Usage(u) => before.push(u),
            _ => before,
        }
    }
}

/// The usages of effects one after the other are those of all.
pub proof fn lemma_usages_concat(a: Seq<EffectView>, b: Seq<EffectView>)
    ensures
        usages_told(a + b) == usages_told(a) + usages_told(b),
    decreases b.len(),
{
    if b.len() == 0 {
        assert(a + b =~= a);
        assert(usages_told(a) + usages_told(b) =~= usages_told(a));
    } else {
        lemma_usages_concat(a, b.drop_last());
        assert((a + b).drop_last() =~= a + b.drop_last());
        assert(usages_told(a + b) =~= usages_told(a) + usages_told(b));
    }
}

/// Effects that report no usage.
pub proof fn lemma_no_usages(effects: Seq<EffectView>)
    requires
        forall|k: int| 0 <= k < effects.len() ==> !((#[trigger] effects[k]) is Usage),
    ensures
        usages_told(effects) == Seq::<TokenUsage>::empty(),
    decreases effects.len(),
{
    if effects.len() > 0 {
        assert(!(effects[effects.len() - 1] is Usage));
        assert forall|k: int| 0 <= k < effects.drop_last().len() implies !(
        (#[trigger] effects.drop_last()[k]) is Usage) by {
            assert(effects.drop_last()[k] == effects[k]);
        }
        lemma_no_usages(effects.drop_last());
    }
}

/// Some effect replaces the history.
pub open spec fn replaces(effects: Seq<EffectView>) -> bool {
    exists|k: int| 0 <= k < effects.len() && (#[trigger] effects[k]) is Replaced
}

/// The result of the call `id` can be appended to the messages, and will be: an assistant turn
/// lists the call, and nothing but tool results has come after the last assistant turn.
pub open spec fn takes_result(messages: Seq<MessageView>, id: Seq<char>) -> bool {
    history::has_call(messages, id) && history::is_prefix_for_result(messages, id)
}

/// The history takes the results of all the calls that the session has yet to settle.
pub open spec fn takes_results(s: SessionView) -> bool {
    match s.phase {
        PhaseView::Parallel(batch) => forall|k: int|
            0 <= k < batch.len() ==> takes_result(s.messages, (#[trigger] batch[k]).call_id),
        PhaseView::Tool(calls) => takes_all(s.messages, calls),
        PhaseView::Rewrite(calls) => takes_all(s.messages, calls),
        _ => true,
    }
}

/// The history takes the results of all the calls.
pub open spec fn takes_all(messages: Seq<MessageView>, calls: Seq<ToolCallView>) -> bool {
    forall|k: int| 0 <= k < calls.len() ==> takes_result(messages, (#[trigger] calls[k]).id)
}

/// A tool result leaves room for the results of its siblings.
pub proof fn law_sibling_result_leaves_room(
    messages: Seq<MessageView>,
    id: Seq<char>,
    result: MessageView,
)
    requires
        history::is_prefix_for_result(messages, id),
        result is Tool,
    ensures
        history::is_prefix_for_result(messages.push(result), id),
{
    let i = choose|i: int|
        #![trigger messages[i]]
        0 <= i < messages.len() && history::accepts_result(messages[i], id) && (forall|j: int|
            i < j < messages.len() ==> messages[j] is Tool);
    let more = messages.push(result);
    assert(more[i] == messages[i]);
    assert forall|j: int| i < j < more.len() implies more[j] is Tool by {
        if j < messages.len() {
            assert(more[j] == messages[j]);
        }
    }
}

/// A history that ends with anything but an assistant turn or a tool result takes no tool result.
pub proof fn law_other_tail_takes_no_result(messages: Seq<MessageView>, id: Seq<char>)
    requires
        messages.len() > 0 ==> !(messages.last() is Assistant) && !(messages.last() is Tool),
    ensures
        !history::is_prefix_for_result(messages, id),
{
    if history::is_prefix_for_result(messages, id) {
        let i = choose|i: int|
            #![trigger messages[i]]
            0 <= i < messages.len() && history::accepts_result(messages[i], id) && (forall|j: int|
                i < j < messages.len() ==> messages[j] is Tool);
        assert(messages[messages.len() - 1] == messages.last());
    }
}

/// Appending a message keeps the calls that are listed.
proof fn lemma_push_keeps_call(messages: Seq<MessageView>, id: Seq<char>, m: MessageView)
    requires
        history::has_call(messages, id),
    ensures
        history::has_call(messages.push(m), id),
{
    let i = choose|i: int|
        0 <= i < messages.len() && history::lists_call(#[trigger] messages[i], id);
    assert(messages.push(m)[i] == messages[i]);
}

/// Appending a tool result to a history that takes the results of the calls leaves one that does.
proof fn lemma_result_keeps_room(
    messages: Seq<MessageView>,
    calls: Seq<ToolCallView>,
    result: MessageView,
)
    requires
        takes_all(messages, calls),
        result is Tool,
    ensures
        takes_all(messages.push(result), calls),
{
    assert forall|k: int| 0 <= k < calls.len() implies takes_result(
        messages.push(result),
        (#[trigger] calls[k]).id,
    ) by {
        law_sibling_result_leaves_room(messages, calls[k].id, result);
        lemma_push_keeps_call(messages, calls[k].id, result);
    }
}

/// What holds of a step that goes on with the calls of a batch from the state `s`.
pub open spec fn goes_on(s: SessionView, step: StepView) -> bool {
    &&& replay(s.messages, step.effects) == step.state.messages
    &&& only_results(step.effects)
    &&& step.state.prev_call == s.prev_call
    &&& step.state.pending == s.pending
    &&& step.state.temperature == s.temperature
    &&& match step.action {
        ActionView::CheckClosed => step.state.phase is CheckClosed,
        ActionView::RunTool(_) => step.state.phase is Tool,
        ActionView::RunRewrite(_, snapshot) => step.state.phase is Rewrite && snapshot
            == step.state.messages,
        _ => false,
    }
}

/// Going on with calls only appends results.
pub proof fn lemma_serial(tools: Seq<ToolView>, s: SessionView, calls: Seq<ToolCallView>)
    ensures
        goes_on(s, session::serial(tools, s, calls)),
        takes_all(s.messages, calls) ==> takes_results(session::serial(tools, s, calls).state),
    decreases calls.len(), 1int,
{
    if calls.len() > 0 {
        if let Err(e) = tool::resolved(tools, calls[0]) {
            lemma_settle_and_go_on(
                tools,
                s,
                calls,
                tool::outcome_text(Err::<Seq<char>, ToolErrorView>(e)),
            );
        }
    }
}

/// Settling a call and going on with the others only appends results.
pub proof fn lemma_settle_and_go_on(
    tools: Seq<ToolView>,
    s: SessionView,
    calls: Seq<ToolCallView>,
    content: Seq<char>,
)
    requires
        calls.len() > 0,
    ensures
        goes_on(s, session::settle_and_go_on(tools, s, calls, content)),
        takes_all(s.messages, calls) ==> takes_results(
            session::settle_and_go_on(tools, s, calls, content).state,
        ),
    decreases calls.len(), 0int,
{
    let id = calls[0].id;
    let next = session::settled(s, id, content);
    let told = session::settled_effects(s, id, content);
    let rest = session::serial(tools, next, calls.drop_first());
    lemma_serial(tools, next, calls.drop_first());
    lemma_replay_concat(s.messages, told, rest.effects);
    if history::has_call(s.messages, id) {
        lemma_replay_one(s.messages, told[0]);
    }
    assert forall|k: int| 0 <= k < (told + rest.effects).len() implies is_pushed_result(
        #[trigger] (told + rest.effects)[k],
    ) by {
        if k >= told.len() {
            assert((told + rest.effects)[k] == rest.effects[k - told.len()]);
        }
    }
    if takes_all(s.messages, calls) {
        assert(takes_all(s.messages, calls.drop_first())) by {
            assert forall|k: int| 0 <= k < calls.drop_first().len() implies takes_result(
                s.messages,
                (#[trigger] calls.drop_first()[k]).id,
            ) by {
                assert(calls.drop_first()[k] == calls[k + 1]);
            }
        }
        if history::has_call(s.messages, id) {
            lemma_result_keeps_room(
                s.messages,
                calls.drop_first(),
                session::tool_message(id, content),
            );
        }
    }
}

/// Every replacement is reported with the history as the effects before it left it.
pub open spec fn replaces_faithfully(messages: Seq<MessageView>, effects: Seq<EffectView>) -> bool {
    forall|k: int|
        0 <= k < effects.len() ==> ((#[trigger] effects[k]) matches EffectView::Replaced(
            old_messages,
            _,
        ) ==> old_messages == replay(messages, effects.take(k)))
}

/// What holds of the outcome of a rewriting tool.
pub proof fn lemma_rewritten(
    tools: Seq<ToolView>,
    s: SessionView,
    calls: Seq<ToolCallView>,
    outcome: RewriteOutcomeView,
)
    requires
        calls.len() > 0,
    ensures
        ({
            let step = session::rewritten(tools, s, calls, outcome);
            &&& replay(s.messages, step.effects) == step.state.messages
            &&& replaces_faithfully(s.messages, step.effects)
            &&& !replaces(step.effects) && takes_all(s.messages, calls) ==> takes_results(
                step.state,
            )
            &&& step.state.prev_call == s.prev_call
            &&& step.state.pending == s.pending
            &&& step.state.temperature == s.temperature
            &&& match step.action {
                ActionView::CheckClosed => step.state.phase is CheckClosed,
                ActionView::RunTool(_) => step.state.phase is Tool,
                ActionView::RunRewrite(_, snapshot) => step.state.phase is Rewrite && snapshot
                    == step.state.messages,
                _ => false,
            }
            &&& forall|k: int|
                0 <= k < step.effects.len() ==> (#[trigger] step.effects[k]) is Replaced
                    || is_pushed_result(step.effects[k])
        }),
{
    let content = match outcome {
        RewriteOutcomeView::Failed(text) => tool::outcome_text(
            Err::<Seq<char>, ToolErrorView>(ToolErrorView::Handler(text)),
        ),
        RewriteOutcomeView::Done(text, new_messages) => match tool::rewrite_verdict(
            calls[0].function.name,
            calls[0].id,
            s.messages,
            new_messages,
        ) {
            Err(e) => tool::outcome_text(Err::<Seq<char>, ToolErrorView>(e)),
            Ok(_) => text,
        },
    };
    lemma_settle_and_go_on(tools, s, calls, content);
    if let RewriteOutcomeView::Done(text, new_messages) = outcome {
        let t = SessionView { messages: new_messages, ..s };
        lemma_settle_and_go_on(tools, t, calls, text);
        let rest = session::settle_and_go_on(tools, t, calls, text);
        let told = seq![EffectView::Replaced(s.messages, new_messages)];
        lemma_replay_concat(s.messages, told, rest.effects);
        lemma_replay_one(s.messages, told[0]);
        assert((told + rest.effects).take(0) =~= Seq::<EffectView>::empty());
        assert((told + rest.effects)[0] is Replaced);
        assert forall|k: int| 1 <= k < (told + rest.effects).len() implies is_pushed_result(
            #[trigger] (told + rest.effects)[k],
        ) by {
            assert((told + rest.effects)[k] == rest.effects[k - 1]);
        }
    }
}

/// The history that a turn leaves takes the results of the calls of the turn.
proof fn lemma_turn_takes_results(messages: Seq<MessageView>, turn: AssistantReplyView)
    ensures
        turn.tool_calls matches Some(calls) ==> takes_all(
            messages.push(reply::reply_message(turn)),
            calls,
        ),
{
    if let Some(calls) = turn.tool_calls {
        let more = messages.push(reply::reply_message(turn));
        let last = messages.len() as int;
        assert forall|k: int| 0 <= k < calls.len() implies takes_result(
            more,
            (#[trigger] calls[k]).id,
        ) by {
            assert(history::calls_have_id(calls, calls[k].id));
            assert(history::lists_call(more[last], calls[k].id));
            assert(history::accepts_result(more[last], calls[k].id));
        }
    }
}

/// What holds of a step that takes in a turn.
proof fn lemma_replied(
    setup: SetupView,
    s: SessionView,
    turn: AssistantReplyView,
    usage: Option<TokenUsage>,
)
    ensures
        ({
            let step = session::replied(setup, s, turn, usage);
            &&& replay(s.messages, step.effects) == step.state.messages
            &&& replaces_faithfully(s.messages, step.effects)
            &&& !replaces(step.effects)
            &&& takes_results(step.state)
            &&& step.state.prev_call == (turn.tool_calls is Some)
            &&& step.state.pending == s.pending
            &&& step.state.temperature == s.temperature
            &&& usages_told(step.effects) == match usage {
                Some(u) => seq![u],
                None => Seq::empty(),
            }
            &&& pushes_no_system(step.effects)
            &&& match step.action {
                ActionView::CheckClosed => step.state.phase is CheckClosed,
                ActionView::Say(_) => step.state.phase is Say,
                ActionView::RunParallel(_) => step.state.phase is Parallel,
                ActionView::RunTool(_) => step.state.phase is Tool,
                ActionView::RunRewrite(_, snapshot) => step.state.phase is Rewrite && snapshot
                    == step.state.messages,
                _ => false,
            }
        }),
{
    let m = reply::reply_message(turn);
    let next = SessionView {
        messages: s.messages.push(m),
        prev_call: turn.tool_calls is Some,
        ..s
    };
    let rest = session::turn_over(setup, next, turn);
    let step = session::replied(setup, s, turn, usage);
    let used = session::usage_effects(usage);
    let told = used + seq![EffectView::Pushed(m)];
    lemma_turn_takes_results(s.messages, turn);
    if let Some(calls) = turn.tool_calls {
        lemma_serial(setup.tools, next, calls);
        if calls.len() > 0 && setup.parallel_tools && !tool::has_rewriting_call(
            setup.tools,
            calls,
        ) {
            let batch = calls.map_values(|c: ToolCallView| session::planned(setup.tools, c));
            assert forall|k: int| 0 <= k < batch.len() implies takes_result(
                next.messages,
                (#[trigger] batch[k]).call_id,
            ) by {
                assert(batch[k].call_id == calls[k].id);
            }
        }
    }
    assert(replay(s.messages, told) == next.messages) by {
        lemma_replay_concat(s.messages, used, seq![EffectView::Pushed(m)]);
        if let Some(u) = usage {
            lemma_replay_one(s.messages, EffectView::Usage(u));
        }
        lemma_replay_one(s.messages, EffectView::Pushed(m));
    }
    lemma_replay_concat(s.messages, told, rest.effects);
    assert(goes_on(next, rest) || (rest.effects.len() == 0 && rest.state.messages
        == next.messages));
    assert forall|k: int| 0 <= k < step.effects.len() implies !((#[trigger] step.effects[k]) is
        Replaced) by {
        if k >= told.len() {
            assert(step.effects[k] == rest.effects[k - told.len()]);
        } else {
            assert(step.effects[k] == told[k]);
        }
    }
    assert forall|k: int| 0 <= k < step.effects.len() implies ((#[trigger] step.effects[k]) matches
        EffectView::Pushed(pushed) ==> !(pushed is System)) by {
        if k >= told.len() {
            assert(step.effects[k] == rest.effects[k - told.len()]);
        } else {
            assert(step.effects[k] == told[k]);
        }
    }
    assert(usages_told(told) =~= match usage {
        Some(u) => seq![u],
        None => Seq::<TokenUsage>::empty(),
    }) by {
        assert(told.drop_last() =~= used);
        assert(told.last() == EffectView::Pushed(m));
        assert(usages_told(told) == usages_told(used));
        if let Some(u) = usage {
            assert(used.last() == EffectView::Usage(u));
            assert(used.drop_last() =~= Seq::<EffectView>::empty());
            assert(usages_told(Seq::<EffectView>::empty()) =~= Seq::<TokenUsage>::empty());
            assert(usages_told(used) =~= seq![u]);
        }
    }
    lemma_usages_concat(told, rest.effects);
    lemma_no_usages(rest.effects);
    assert(usages_told(told) + Seq::<TokenUsage>::empty() =~= usages_told(told));
}

/// The temperature after an event.
pub open spec fn temperature_after(temperature: Temperature, event: EventView) -> Temperature {
    match event {
        EventView::Polled(Some(UserRequestView::ChangeTemperature(t))) => t,
        EventView::Received(Some(UserRequestView::ChangeTemperature(t))) => t,
        _ => temperature,
    }
}

/// The usage that an event brings, if any.
pub open spec fn brought_usages(event: EventView) -> Seq<TokenUsage> {
    match event {
        EventView::ModelReplied(_, Some(u)) => seq![u],
        _ => Seq::empty(),
    }
}

/// The session waits for what the action does, and the action is handed the history as it is.
pub open spec fn waits_for_action(step: StepView) -> bool {
    match step.action {
        ActionView::CheckClosed => step.state.phase is CheckClosed,
        ActionView::TryReceive => step.state.phase is Poll,
        ActionView::Receive => step.state.phase is Receive,
        ActionView::Idle => step.state.phase is Idle,
        ActionView::Say(_) => step.state.phase is Say,
        ActionView::AskCallback(seen) => step.state.phase is AskedCallback && seen
            == step.state.messages,
        ActionView::AskModel(request, _) => step.state.phase is AskedModel && request.messages
            == step.state.messages,
        ActionView::RunParallel(_) => step.state.phase is Parallel,
        ActionView::RunTool(_) => step.state.phase is Tool,
        ActionView::RunRewrite(_, snapshot) => step.state.phase is Rewrite && snapshot
            == step.state.messages,
        ActionView::Finish(_) => step.state.phase is Done,
    }
}

/// The action is one that may follow in this phase where turns and tools are dealt with.
pub open spec fn may_follow(phase: PhaseView, action: ActionView) -> bool {
    match phase {
        PhaseView::AskedCallback => action is CheckClosed || action is Say || action is RunParallel
            || action is RunTool || action is RunRewrite || action is Finish,
        PhaseView::AskedModel => action is CheckClosed || action is Say || action is RunParallel
            || action is RunTool || action is RunRewrite || action is Finish,
        PhaseView::Tool(_) => action is CheckClosed || action is RunTool || action is RunRewrite,
        PhaseView::Rewrite(_) => action is CheckClosed || action is RunTool || action is RunRewrite,
        _ => true,
    }
}

/// What holds of every step.
pub proof fn lemma_step(setup: SetupView, s: SessionView, event: EventView)
    requires
        session::fits(s.phase, event),
    ensures
        ({
            let step = session::transition(setup, s, event);
            &&& replay(s.messages, step.effects) == step.state.messages
            &&& replaces_faithfully(s.messages, step.effects)
            &&& pushes_no_system(step.effects)
            &&& usages_told(step.effects) == brought_usages(event)
            &&& step.state.temperature == temperature_after(s.temperature, event)
            &&& takes_results(s) && !replaces(step.effects) ==> takes_results(step.state)
            &&& waits_for_action(step)
            &&& may_follow(s.phase, step.action)
            &&& brought_turn(event) is Some ==> !(step.action is Finish)
        }),
{
    let step = session::transition(setup, s, event);
    match (s.phase, event) {
        (PhaseView::AskedCallback, EventView::CallbackReplied(turn)) => {
            lemma_replied(setup, s, turn, None);
        },
        (PhaseView::AskedModel, EventView::ModelReplied(turn, usage)) => {
            lemma_replied(setup, s, turn, usage);
        },
        (PhaseView::Parallel(batch), EventView::ParallelDone(outcomes)) => {
            lemma_replay_pushes(s.messages, session::planned_results(batch, outcomes));
            lemma_no_usages(step.effects);
        },
        (PhaseView::Tool(calls), EventView::ToolDone(outcome)) => {
            lemma_settle_and_go_on(setup.tools, s, calls, tool::outcome_text(outcome));
            lemma_no_usages(step.effects);
        },
        (PhaseView::Rewrite(calls), EventView::Rewritten(outcome)) => {
            lemma_rewritten(setup.tools, s, calls, outcome);
            lemma_no_usages(step.effects);
        },
        (PhaseView::Poll, EventView::Polled(Some(UserRequestView::Message(content)))) => {
            lemma_replay_one(s.messages, EffectView::Pushed(MessageView::User(content, None)));
            lemma_no_usages(step.effects);
        },
        (PhaseView::Receive, EventView::Received(Some(UserRequestView::Message(content)))) => {
            lemma_replay_one(s.messages, EffectView::Pushed(MessageView::User(content, None)));
            lemma_no_usages(step.effects);
        },
        _ => {
            lemma_no_usages(step.effects);
        },
    }
}

/// Whoever follows the effects of a step holds the history that the step leaves, and every
/// replacement is reported with the history that it replaces.
pub proof fn law_step_mirrors_history(setup: SetupView, s: SessionView, event: EventView)
    requires
        session::fits(s.phase, event),
    ensures
        replay(s.messages, session::transition(setup, s, event).effects) == session::transition(
            setup,
            s,
            event,
        ).state.messages,
        replaces_faithfully(s.messages, session::transition(setup, s, event).effects),
{
    lemma_step(setup, s, event);
}

/// The state after a run, and all that the host was told and asked to do during it.
pub struct RunView {
    pub state: SessionView,
    pub effects: Seq<EffectView>,
    pub actions: Seq<ActionView>,
}

/// A run that takes in the events, in order.
pub open spec fn ran(setup: SetupView, s: SessionView, events: Seq<EventView>) -> RunView
    decreases events.len(),
{
    if events.len() == 0 {
        RunView { state: s, effects: Seq::empty(), actions: Seq::empty() }
    } else {
        let before = ran(setup, s, events.drop_last());
        let step = session::transition(setup, before.state, events.last());
        RunView {
            state: step.state,
            effects: before.effects + step.effects,
            actions: before.actions.push(step.action),
        }
    }
}

/// Each of the events comes when the session waits for it.
pub open spec fn awaited(setup: SetupView, s: SessionView, events: Seq<EventView>) -> bool
    decreases events.len(),
{
    events.len() > 0 ==> {
        &&& awaited(setup, s, events.drop_last())
        &&& session::fits(ran(setup, s, events.drop_last()).state.phase, events.last())
    }
}

/// Whoever follows the effects of a run holds its history at every point of it, and every
/// replacement is reported with the history that it replaces.
pub proof fn law_run_mirrors_history(setup: SetupView, s: SessionView, events: Seq<EventView>)
    requires
        awaited(setup, s, events),
    ensures
        replay(s.messages, ran(setup, s, events).effects) == ran(setup, s, events).state.messages,
        replaces_faithfully(s.messages, ran(setup, s, events).effects),
    decreases events.len(),
{
    if events.len() > 0 {
        let before = ran(setup, s, events.drop_last());
        let step = session::transition(setup, before.state, events.last());
        let all = before.effects + step.effects;
        let n = before.effects.len() as int;
        law_run_mirrors_history(setup, s, events.drop_last());
        law_step_mirrors_history(setup, before.state, events.last());
        lemma_replay_concat(s.messages, before.effects, step.effects);
        assert forall|k: int| 0 <= k < all.len() implies ((#[trigger] all[k]) matches
            EffectView::Replaced(old_messages, _) ==> old_messages == replay(
            s.messages,
            all.take(k),
        )) by {
            if k < n {
                assert(all[k] == before.effects[k]);
                assert(all.take(k) =~= before.effects.take(k));
            } else {
                assert(all[k] == step.effects[k - n]);
                assert(all.take(k) =~= before.effects + step.effects.take(k - n));
                lemma_replay_concat(s.messages, before.effects, step.effects.take(k - n));
            }
        }
    }
}

/// A host that stores the system prompt and then follows every effect of an invocation, from its
/// start, holds the history of the invocation at every point.
pub proof fn law_invocation_mirrors_history(
    setup: SetupView,
    system_prompt: Seq<char>,
    seed: Seq<MessageView>,
    events: Seq<EventView>,
)
    requires
        awaited(setup, session::started(system_prompt, seed).state, events),
    ensures
        ({
            let start = session::started(system_prompt, seed);
            let run = ran(setup, start.state, events);
            replay(seq![client::system_text(system_prompt)], start.effects + run.effects)
                == run.state.messages
        }),
{
    let start = session::started(system_prompt, seed);
    let run = ran(setup, start.state, events);
    let system = seq![client::system_text(system_prompt)];
    lemma_replay_pushes(system, seed);
    lemma_replay_concat(system, start.effects, run.effects);
    law_run_mirrors_history(setup, start.state, events);
}

/// Without a replacement a history only grows.
proof fn lemma_replay_grows(messages: Seq<MessageView>, effects: Seq<EffectView>)
    requires
        !replaces(effects),
    ensures
        messages.is_prefix_of(replay(messages, effects)),
    decreases effects.len(),
{
    if effects.len() > 0 {
        assert(!(effects[effects.len() - 1] is Replaced));
        assert forall|k: int| 0 <= k < effects.drop_last().len() implies !(
        (#[trigger] effects.drop_last()[k]) is Replaced) by {
            assert(effects.drop_last()[k] == effects[k]);
        }
        lemma_replay_grows(messages, effects.drop_last());
    }
}

/// As long as no rewriting tool replaces it, the history of a run only grows: what it held stays in
/// place, the system prompt first of all.
pub proof fn law_history_only_grows(setup: SetupView, s: SessionView, events: Seq<EventView>)
    requires
        awaited(setup, s, events),
        !replaces(ran(setup, s, events).effects),
    ensures
        s.messages.is_prefix_of(ran(setup, s, events).state.messages),
{
    law_run_mirrors_history(setup, s, events);
    lemma_replay_grows(s.messages, ran(setup, s, events).effects);
}

/// The event carries a user message.
pub open spec fn brings_message(event: EventView) -> bool {
    match event {
        EventView::Polled(Some(UserRequestView::Message(_))) => true,
        EventView::Received(Some(UserRequestView::Message(_))) => true,
        _ => false,
    }
}

/// The action asks for a turn.
pub open spec fn asks_for_turn(action: ActionView) -> bool {
    action is AskCallback || action is AskModel
}

/// No turn is due and none is under way.
pub open spec fn is_quiet(s: SessionView) -> bool {
    &&& !s.prev_call
    &&& !s.pending
    &&& match s.phase {
        PhaseView::CheckClosed => true,
        PhaseView::Poll => true,
        PhaseView::Idle => true,
        PhaseView::Receive => true,
        PhaseView::Done => true,
        _ => false,
    }
}

/// Seed messages alone do not ask for a turn: until a user message comes, a run asks for none.
pub proof fn law_seed_asks_for_no_turn(
    setup: SetupView,
    system_prompt: Seq<char>,
    seed: Seq<MessageView>,
    events: Seq<EventView>,
)
    requires
        awaited(setup, session::started(system_prompt, seed).state, events),
        forall|k: int| 0 <= k < events.len() ==> !brings_message(#[trigger] events[k]),
    ensures
        is_quiet(ran(setup, session::started(system_prompt, seed).state, events).state),
        forall|k: int|
            0 <= k < events.len() ==> !asks_for_turn(
                #[trigger] ran(
                    setup,
                    session::started(system_prompt, seed).state,
                    events,
                ).actions[k],
            ),
    decreases events.len(),
{
    let start = session::started(system_prompt, seed).state;
    if events.len() > 0 {
        let less = events.drop_last();
        assert forall|k: int| 0 <= k < less.len() implies !brings_message(#[trigger] less[k]) by {
            assert(less[k] == events[k]);
        }
        law_seed_asks_for_no_turn(setup, system_prompt, seed, less);
        lemma_actions_count(setup, start, less);
        let before = ran(setup, start, less);
        assert(!brings_message(events[events.len() - 1]));
        let all = ran(setup, start, events).actions;
        assert forall|k: int| 0 <= k < events.len() implies !asks_for_turn(#[trigger] all[k]) by {
            if k < less.len() {
                assert(all[k] == before.actions[k]);
            }
        }
    }
}

/// Each event is answered with one action.
proof fn lemma_actions_count(setup: SetupView, s: SessionView, events: Seq<EventView>)
    ensures
        ran(setup, s, events).actions.len() == events.len(),
    decreases events.len(),
{
    if events.len() > 0 {
        lemma_actions_count(setup, s, events.drop_last());
    }
}

/// A turn is asked for exactly when no request is waiting any more and there are user messages or
/// tool results that the model has not seen. It sees the whole history, and the user messages then
/// count as seen.
pub proof fn law_turn_answers_news(setup: SetupView, s: SessionView, event: EventView)
    requires
        session::fits(s.phase, event),
    ensures
        ({
            let step = session::transition(setup, s, event);
            &&& asks_for_turn(step.action) <==> s.phase is Poll && event
                == EventView::Polled(None) && (s.prev_call || s.pending) && (setup.callback
                || setup.model is Some)
            &&& asks_for_turn(step.action) ==> !step.state.pending && step.state.messages
                == s.messages
            &&& step.action matches ActionView::AskCallback(seen) ==> seen == s.messages
            &&& step.action matches ActionView::AskModel(request, retry) ==> retry == setup.retry
                && request.messages == s.messages && request.tools == Some(session::descriptions(setup.tools))
                && request.parallel_tool_calls == Some(setup.parallel_tools) && setup.model
                == Some(request.model)
        }),
{
    lemma_step(setup, s, event);
}

/// The inference callback answers every turn where there is one: no request is sent then.
pub proof fn law_callback_wins(setup: SetupView, s: SessionView, event: EventView)
    requires
        session::fits(s.phase, event),
        setup.callback,
    ensures
        !(session::transition(setup, s, event).action is AskModel),
{
    lemma_step(setup, s, event);
}

/// The temperature of a run changes when the user changes it, and at no other time; every request
/// carries the temperature of its time. Changing it appends no message and asks for no turn.
pub proof fn law_temperature_is_the_users(setup: SetupView, s: SessionView, event: EventView)
    requires
        session::fits(s.phase, event),
    ensures
        ({
            let step = session::transition(setup, s, event);
            &&& step.state.temperature == temperature_after(s.temperature, event)
            &&& step.action matches ActionView::AskModel(request, _) ==> request.temperature
                == s.temperature
            &&& changes_temperature(event) ==> step.effects.len() == 0 && step.state.messages
                == s.messages && step.state.prev_call == s.prev_call && step.state.pending
                == s.pending && (step.action is TryReceive || step.action is CheckClosed)
        }),
{
    lemma_step(setup, s, event);
}

/// The event carries a temperature.
pub open spec fn changes_temperature(event: EventView) -> bool {
    match event {
        EventView::Polled(Some(UserRequestView::ChangeTemperature(_))) => true,
        EventView::Received(Some(UserRequestView::ChangeTemperature(_))) => true,
        _ => false,
    }
}

/// Token usage is reported exactly when the model's answer came with it, and once: never for the
/// inference callback or a turn that failed, and never where the server omits it.
pub proof fn law_usage_is_the_models(setup: SetupView, s: SessionView, event: EventView)
    requires
        session::fits(s.phase, event),
    ensures
        usages_told(session::transition(setup, s, event).effects) == brought_usages(event),
{
    lemma_step(setup, s, event);
}

/// The turn that an event brings, if any.
pub open spec fn brought_turn(event: EventView) -> Option<AssistantReplyView> {
    match event {
        EventView::CallbackReplied(turn) => Some(turn),
        EventView::ModelReplied(turn, _) => Some(turn),
        _ => None,
    }
}

/// The turn has tool calls.
pub open spec fn has_tool_calls(turn: AssistantReplyView) -> bool {
    turn.tool_calls matches Some(calls) && calls.len() > 0
}

/// The message callback is called exactly for a turn with a text and without tool calls, with that
/// text.
pub proof fn law_text_without_calls_is_said(
    setup: SetupView,
    s: SessionView,
    event: EventView,
    text: Seq<char>,
)
    requires
        session::fits(s.phase, event),
    ensures
        session::transition(setup, s, event).action == ActionView::Say(text) <==> (brought_turn(
            event,
        ) matches Some(turn) && turn.content == Some(text) && !has_tool_calls(turn)),
{
    lemma_step(setup, s, event);
    if let Some(turn) = brought_turn(event) {
        if let Some(calls) = turn.tool_calls {
            let next = SessionView {
                messages: s.messages.push(reply::reply_message(turn)),
                prev_call: true,
                ..s
            };
            lemma_serial(setup.tools, next, calls);
        }
    }
}

/// The idle callback is called exactly when no request is waiting, no user message is unanswered
/// and the last turn had no tool calls.
pub proof fn law_idle_without_work(setup: SetupView, s: SessionView, event: EventView)
    requires
        session::fits(s.phase, event),
    ensures
        session::transition(setup, s, event).action is Idle <==> s.phase is Poll && event
            == EventView::Polled(None) && !s.prev_call && !s.pending,
{
    lemma_step(setup, s, event);
}

/// How an event ends a run, if it does: without an error when the channel is closed or the user asks
/// for it, and with one when a turn or a callback fails or a due turn has nobody to answer it.
pub open spec fn ended_by(setup: SetupView, s: SessionView, event: EventView) -> Option<
    Option<RunErrorView>,
> {
    match event {
        EventView::Closed(true) => Some(None),
        EventView::Polled(Some(UserRequestView::Exit)) => Some(None),
        EventView::Received(Some(UserRequestView::Exit)) => Some(None),
        EventView::Received(None) => Some(None),
        EventView::CallbackFailed(text) => Some(Some(RunErrorView::InferenceCallback(text))),
        EventView::ModelFailed(text) => Some(Some(RunErrorView::Model(text))),
        EventView::Idled(Some(text)) => Some(Some(RunErrorView::Callback(text))),
        EventView::Said(Some(text)) => Some(Some(RunErrorView::Callback(text))),
        EventView::Polled(None) => if (s.prev_call || s.pending) && !setup.callback && setup.model is
            None {
            Some(Some(RunErrorView::NoClient))
        } else {
            None
        },
        _ => None,
    }
}

/// A run ends without an error exactly when the channel is closed or the user asks for it, and with
/// one exactly when a turn or a callback fails or a due turn has nobody to answer it. An ended run
/// keeps its history and takes no event.
pub proof fn law_runs_end(setup: SetupView, s: SessionView, event: EventView)
    requires
        session::fits(s.phase, event),
    ensures
        ({
            let step = session::transition(setup, s, event);
            &&& match ended_by(setup, s, event) {
                Some(error) => step.action == ActionView::Finish(error),
                None => !(step.action is Finish),
            }
            &&& step.action is Finish <==> step.state.phase is Done
            &&& step.state.phase is Done ==> (forall|later: EventView|
                !session::fits(step.state.phase, later)) && step.state.messages == s.messages
                && step.effects.len() == 0
        }),
{
    lemma_step(setup, s, event);
}

/// A batch runs concurrently exactly when the invocation allows it and none of its calls names a
/// rewriting tool.
pub proof fn law_rewriting_batch_is_serial(setup: SetupView, s: SessionView, event: EventView)
    requires
        session::fits(s.phase, event),
    ensures
        session::transition(setup, s, event).action is RunParallel <==> (brought_turn(
            event,
        ) matches Some(turn) && has_tool_calls(turn) && setup.parallel_tools
            && !tool::has_rewriting_call(setup.tools, turn.tool_calls->0)),
{
    lemma_step(setup, s, event);
    if let Some(turn) = brought_turn(event) {
        if let Some(calls) = turn.tool_calls {
            let next = SessionView {
                messages: s.messages.push(reply::reply_message(turn)),
                prev_call: true,
                ..s
            };
            lemma_serial(setup.tools, next, calls);
        }
    }
}

/// In a batch that runs concurrently no rewriting tool is met.
pub proof fn law_concurrent_batch_has_no_rewrite(
    tools: Seq<ToolView>,
    calls: Seq<ToolCallView>,
    k: int,
)
    requires
        !tool::has_rewriting_call(tools, calls),
        0 <= k < calls.len(),
    ensures
        tool::resolved_parallel(tools, calls[k]) == tool::resolved(tools, calls[k]),
{
    assert(!tool::calls_rewriting_tool(tools, calls[k]));
}

/// A concurrent batch appends one result for each call, in the order of the calls.
pub proof fn law_concurrent_results_in_order(
    setup: SetupView,
    s: SessionView,
    calls: Seq<ToolCallView>,
    event: EventView,
)
    requires
        s.phase == PhaseView::Parallel(
            calls.map_values(|c: ToolCallView| session::planned(setup.tools, c)),
        ),
        session::fits(s.phase, event),
    ensures
        ({
            let messages = session::transition(setup, s, event).state.messages;
            &&& messages.len() == s.messages.len() + calls.len()
            &&& s.messages.is_prefix_of(messages)
            &&& forall|k: int|
                0 <= k < calls.len() ==> history::is_result_of(
                    #[trigger] messages[s.messages.len() + k],
                    calls[k].id,
                )
        }),
{
}

/// The outcome of a tool is appended as the result of its call before the next call runs.
pub proof fn law_tool_outcome_is_appended(
    setup: SetupView,
    s: SessionView,
    calls: Seq<ToolCallView>,
    outcome: Result<Seq<char>, ToolErrorView>,
)
    requires
        s.phase == PhaseView::Tool(calls),
        calls.len() > 0,
        history::has_call(s.messages, calls[0].id),
    ensures
        ({
            let step = session::transition(setup, s, EventView::ToolDone(outcome));
            let result = session::tool_message(calls[0].id, tool::outcome_text(outcome));
            &&& step.effects.len() > 0
            &&& step.effects[0] == EffectView::Pushed(result)
            &&& s.messages.push(result).is_prefix_of(step.state.messages)
        }),
{
    lemma_settled_first(setup.tools, s, calls, tool::outcome_text(outcome));
}

/// An error of a tool is relayed to the model: the result of its call is the text of the error.
pub proof fn law_tool_error_is_relayed(
    setup: SetupView,
    s: SessionView,
    calls: Seq<ToolCallView>,
    error: ToolErrorView,
)
    requires
        s.phase == PhaseView::Tool(calls),
        calls.len() > 0,
        history::has_call(s.messages, calls[0].id),
    ensures
        ({
            let step = session::transition(
                setup,
                s,
                EventView::ToolDone(Err::<Seq<char>, ToolErrorView>(error)),
            );
            let result = session::tool_message(calls[0].id, "Error: "@ + tool::error_text(error));
            &&& step.effects.len() > 0
            &&& step.effects[0] == EffectView::Pushed(result)
            &&& s.messages.push(result).is_prefix_of(step.state.messages)
        }),
{
    let content = "Error: "@ + tool::error_text(error);
    lemma_settled_first(setup.tools, s, calls, content);
}

/// A settled call comes first in the effects and behind the history as it was.
proof fn lemma_settled_first(
    tools: Seq<ToolView>,
    s: SessionView,
    calls: Seq<ToolCallView>,
    content: Seq<char>,
)
    requires
        calls.len() > 0,
        history::has_call(s.messages, calls[0].id),
    ensures
        ({
            let step = session::settle_and_go_on(tools, s, calls, content);
            let result = session::tool_message(calls[0].id, content);
            &&& step.effects.len() > 0
            &&& step.effects[0] == EffectView::Pushed(result)
            &&& s.messages.push(result).is_prefix_of(step.state.messages)
        }),
{
    let next = session::settled(s, calls[0].id, content);
    let rest = session::serial(tools, next, calls.drop_first());
    lemma_serial(tools, next, calls.drop_first());
    lemma_replay_grows(next.messages, rest.effects);
}

/// A rewriting tool that returns the history as it was only has its result appended: nothing is
/// replaced.
pub proof fn law_identity_rewrite_replaces_nothing(
    setup: SetupView,
    s: SessionView,
    calls: Seq<ToolCallView>,
    content: Seq<char>,
)
    requires
        s.phase == PhaseView::Rewrite(calls),
        calls.len() > 0,
        s.messages.len() > 0,
    ensures
        ({
            let step = session::transition(
                setup,
                s,
                EventView::Rewritten(RewriteOutcomeView::Done(content, s.messages)),
            );
            &&& !replaces(step.effects)
            &&& step == session::settle_and_go_on(setup.tools, s, calls, content)
        }),
{
    lemma_settle_and_go_on(setup.tools, s, calls, content);
}

/// A rewriting tool that breaks a rule leaves the history as it was, and its call is answered with
/// the error.
pub proof fn law_rejected_rewrite_replaces_nothing(
    setup: SetupView,
    s: SessionView,
    calls: Seq<ToolCallView>,
    content: Seq<char>,
    new_messages: Seq<MessageView>,
)
    requires
        s.phase == PhaseView::Rewrite(calls),
        calls.len() > 0,
        tool::rewrite_verdict(
            calls[0].function.name,
            calls[0].id,
            s.messages,
            new_messages,
        ) is Err,
    ensures
        ({
            let step = session::transition(
                setup,
                s,
                EventView::Rewritten(RewriteOutcomeView::Done(content, new_messages)),
            );
            let error = tool::rewrite_verdict(
                calls[0].function.name,
                calls[0].id,
                s.messages,
                new_messages,
            )->Err_0;
            &&& !replaces(step.effects)
            &&& s.messages.is_prefix_of(step.state.messages)
            &&& step == session::settle_and_go_on(
                setup.tools,
                s,
                calls,
                "Error: "@ + tool::error_text(error),
            )
        }),
{
    let error = tool::rewrite_verdict(
        calls[0].function.name,
        calls[0].id,
        s.messages,
        new_messages,
    )->Err_0;
    let content = "Error: "@ + tool::error_text(error);
    let step = session::settle_and_go_on(setup.tools, s, calls, content);
    lemma_settle_and_go_on(setup.tools, s, calls, content);
    lemma_replay_grows(s.messages, step.effects);
}

/// A rewriting tool may consume its call: where its messages list the call no more and hold no
/// result for it, they replace the history and no result is appended for the call.
pub proof fn law_consumed_call_has_no_result(
    setup: SetupView,
    s: SessionView,
    calls: Seq<ToolCallView>,
    content: Seq<char>,
    new_messages: Seq<MessageView>,
)
    requires
        s.phase == PhaseView::Rewrite(calls),
        calls.len() > 0,
        new_messages.len() > 0,
        new_messages != s.messages,
        !history::has_call(new_messages, calls[0].id),
        !history::has_result(new_messages, calls[0].id),
    ensures
        ({
            let step = session::transition(
                setup,
                s,
                EventView::Rewritten(RewriteOutcomeView::Done(content, new_messages)),
            );
            let rest = session::serial(
                setup.tools,
                SessionView { messages: new_messages, ..s },
                calls.drop_first(),
            );
            &&& step.effects == seq![EffectView::Replaced(s.messages, new_messages)] + rest.effects
            &&& step.state == rest.state
            &&& step.action == rest.action
            &&& calls.len() == 1 ==> step.state.messages == new_messages
        }),
{
    let t = SessionView { messages: new_messages, ..s };
    let rest = session::serial(setup.tools, t, calls.drop_first());
    assert(Seq::<EffectView>::empty() + rest.effects =~= rest.effects);
}

/// A rewriting tool may keep its call: where its messages can take the result and do not hold it yet,
/// they replace the history and the result is appended behind them.
pub proof fn law_kept_call_has_its_result(
    setup: SetupView,
    s: SessionView,
    calls: Seq<ToolCallView>,
    content: Seq<char>,
    new_messages: Seq<MessageView>,
)
    requires
        s.phase == PhaseView::Rewrite(calls),
        calls.len() > 0,
        new_messages != s.messages,
        takes_result(new_messages, calls[0].id),
        !history::is_answered(new_messages, calls[0].id),
    ensures
        ({
            let step = session::transition(
                setup,
                s,
                EventView::Rewritten(RewriteOutcomeView::Done(content, new_messages)),
            );
            let result = session::tool_message(calls[0].id, content);
            &&& step.effects.len() > 1
            &&& step.effects[0] == EffectView::Replaced(s.messages, new_messages)
            &&& step.effects[1] == EffectView::Pushed(result)
            &&& new_messages.push(result).is_prefix_of(step.state.messages)
        }),
{
    let t = SessionView { messages: new_messages, ..s };
    lemma_settled_first(setup.tools, t, calls, content);
}

/// As long as no rewriting tool replaces the history, it takes the results of all the calls that
/// are yet to be settled: each result comes behind the turn that lists its call, with nothing but
/// results of the same batch between.
pub proof fn law_results_follow_their_turn(setup: SetupView, s: SessionView, event: EventView)
    requires
        session::fits(s.phase, event),
        takes_results(s),
        !replaces(session::transition(setup, s, event).effects),
    ensures
        takes_results(session::transition(setup, s, event).state),
{
    lemma_step(setup, s, event);
}

/// Where none of all the effects replaces the history, none of a part of them does.
pub proof fn lemma_replaces_concat(a: Seq<EffectView>, b: Seq<EffectView>)
    requires
        !replaces(a + b),
    ensures
        !replaces(a),
        !replaces(b),
{
    assert forall|k: int| 0 <= k < a.len() implies !((#[trigger] a[k]) is Replaced) by {
        assert((a + b)[k] == a[k]);
    }
    assert forall|k: int| 0 <= k < b.len() implies !((#[trigger] b[k]) is Replaced) by {
        assert((a + b)[a.len() + k] == b[k]);
    }
}

/// In a run of an invocation whose history no rewriting tool has replaced, the history takes the
/// results of all the calls that are yet to be settled.
pub proof fn law_run_results_follow_their_turn(
    setup: SetupView,
    system_prompt: Seq<char>,
    seed: Seq<MessageView>,
    events: Seq<EventView>,
)
    requires
        awaited(setup, session::started(system_prompt, seed).state, events),
        !replaces(ran(setup, session::started(system_prompt, seed).state, events).effects),
    ensures
        takes_results(ran(setup, session::started(system_prompt, seed).state, events).state),
    decreases events.len(),
{
    if events.len() > 0 {
        let start = session::started(system_prompt, seed).state;
        let before = ran(setup, start, events.drop_last());
        let step = session::transition(setup, before.state, events.last());
        lemma_replaces_concat(before.effects, step.effects);
        law_run_results_follow_their_turn(setup, system_prompt, seed, events.drop_last());
        law_results_follow_their_turn(setup, before.state, events.last());
    }
}

/// A rewriting tool is given the history as it is when its handler runs: the turn that called it
/// and the results of the calls before it.
pub proof fn law_rewrite_sees_the_history(setup: SetupView, s: SessionView, event: EventView)
    requires
        session::fits(s.phase, event),
    ensures
        session::transition(setup, s, event).action matches ActionView::RunRewrite(_, snapshot)
            ==> snapshot == session::transition(setup, s, event).state.messages,
{
    lemma_step(setup, s, event);
}

/// The job is that of a tool of the invocation, which rewrites the history or not as `rewriting`
/// says.
pub open spec fn fits_tool(tools: Seq<ToolView>, job: JobView, rewriting: bool) -> bool {
    0 <= job.tool < tools.len() && tools[job.tool].rewriting == rewriting
}

/// All the handlers that the action runs are there, and are of the kind that the action runs.
pub open spec fn runs_fitting_tools(tools: Seq<ToolView>, action: ActionView) -> bool {
    match action {
        ActionView::RunTool(job) => fits_tool(tools, job, false),
        ActionView::RunRewrite(job, _) => fits_tool(tools, job, true),
        ActionView::RunParallel(jobs) => forall|k: int|
            0 <= k < jobs.len() ==> ((#[trigger] jobs[k]) matches Some(job) ==> fits_tool(
                tools,
                job,
                false,
            )),
        _ => true,
    }
}

/// Going on with calls runs fitting handlers.
proof fn lemma_serial_runs_fitting_tools(
    tools: Seq<ToolView>,
    s: SessionView,
    calls: Seq<ToolCallView>,
)
    ensures
        runs_fitting_tools(tools, session::serial(tools, s, calls).action),
    decreases calls.len(), 1int,
{
    if calls.len() > 0 {
        tool::lemma_tool_named_from(tools, calls[0].function.name, 0);
        if let Err(e) = tool::resolved(tools, calls[0]) {
            lemma_settling_runs_fitting_tools(
                tools,
                s,
                calls,
                tool::outcome_text(Err::<Seq<char>, ToolErrorView>(e)),
            );
        }
    }
}

/// Settling a call and going on with the others runs fitting handlers.
proof fn lemma_settling_runs_fitting_tools(
    tools: Seq<ToolView>,
    s: SessionView,
    calls: Seq<ToolCallView>,
    content: Seq<char>,
)
    requires
        calls.len() > 0,
    ensures
        runs_fitting_tools(tools, session::settle_and_go_on(tools, s, calls, content).action),
    decreases calls.len(), 0int,
{
    lemma_serial_runs_fitting_tools(
        tools,
        session::settled(s, calls[0].id, content),
        calls.drop_first(),
    );
}

/// Every handler that is run is that of a tool of the invocation: of a normal tool where only a
/// result is asked for, and of a rewriting tool where the history is handed over.
pub proof fn law_handlers_fit_their_calls(setup: SetupView, s: SessionView, event: EventView)
    requires
        session::fits(s.phase, event),
    ensures
        runs_fitting_tools(setup.tools, session::transition(setup, s, event).action),
{
    match (s.phase, event) {
        (PhaseView::Tool(calls), EventView::ToolDone(outcome)) => {
            lemma_settling_runs_fitting_tools(setup.tools, s, calls, tool::outcome_text(outcome));
        },
        (PhaseView::Rewrite(calls), EventView::Rewritten(outcome)) => {
            let t = match outcome {
                RewriteOutcomeView::Done(_, new_messages) => SessionView {
                    messages: new_messages,
                    ..s
                },
                RewriteOutcomeView::Failed(_) => s,
            };
            assert forall|content: Seq<char>| runs_fitting_tools(
                setup.tools,
                (#[trigger] session::settle_and_go_on(setup.tools, s, calls, content)).action,
            ) by {
                lemma_settling_runs_fitting_tools(setup.tools, s, calls, content);
            }
            assert forall|content: Seq<char>| runs_fitting_tools(
                setup.tools,
                (#[trigger] session::settle_and_go_on(setup.tools, t, calls, content)).action,
            ) by {
                lemma_settling_runs_fitting_tools(setup.tools, t, calls, content);
            }
        },
        _ => {
            if let Some(turn) = brought_turn(event) {
                if let Some(calls) = turn.tool_calls {
                    let next = SessionView {
                        messages: s.messages.push(reply::reply_message(turn)),
                        prev_call: true,
                        ..s
                    };
                    lemma_serial_runs_fitting_tools(setup.tools, next, calls);
                    let jobs = calls.map_values(
                        |c: ToolCallView| session::planned_job(setup.tools, c),
                    );
                    assert forall|k: int| 0 <= k < jobs.len() implies ((#[trigger] jobs[k]) matches
                        Some(job) ==> fits_tool(setup.tools, job, false)) by {
                        tool::lemma_tool_named_from(setup.tools, calls[k].function.name, 0);
                    }
                }
            }
        },
    }
}

/// The calls that a batch which runs serially has yet to settle, the one that is running first.
pub open spec fn unsettled(s: SessionView) -> Seq<ToolCallView> {
    match s.phase {
        PhaseView::Tool(calls) => calls,
        PhaseView::Rewrite(calls) => calls,
        _ => Seq::empty(),
    }
}

/// `rest` is what is left of the calls when some of the first are taken away.
pub open spec fn is_rest_of(rest: Seq<ToolCallView>, calls: Seq<ToolCallView>) -> bool {
    exists|k: int| 0 <= k <= calls.len() && rest == #[trigger] calls.skip(k)
}

/// What is left of the calls behind the first is left of all of them.
proof fn lemma_rest_of_tail(rest: Seq<ToolCallView>, calls: Seq<ToolCallView>)
    requires
        calls.len() > 0,
        is_rest_of(rest, calls.drop_first()),
    ensures
        is_rest_of(rest, calls),
{
    let k = choose|k: int|
        0 <= k <= calls.drop_first().len() && rest == #[trigger] calls.drop_first().skip(k);
    assert(calls.drop_first().skip(k) =~= calls.skip(k + 1));
}

/// Going on with calls takes them in order.
proof fn lemma_serial_takes_in_order(
    tools: Seq<ToolView>,
    s: SessionView,
    calls: Seq<ToolCallView>,
)
    ensures
        is_rest_of(unsettled(session::serial(tools, s, calls).state), calls),
    decreases calls.len(), 1int,
{
    if calls.len() == 0 {
        assert(unsettled(session::serial(tools, s, calls).state) =~= calls.skip(0));
    } else {
        match tool::resolved(tools, calls[0]) {
            Ok(_) => {
                assert(calls.skip(0) =~= calls);
            },
            Err(e) => {
                let content = tool::outcome_text(Err::<Seq<char>, ToolErrorView>(e));
                lemma_settling_takes_in_order(tools, s, calls, content);
                lemma_rest_of_tail(
                    unsettled(session::settle_and_go_on(tools, s, calls, content).state),
                    calls,
                );
            },
        }
    }
}

/// Settling a call goes on with the others in order.
proof fn lemma_settling_takes_in_order(
    tools: Seq<ToolView>,
    s: SessionView,
    calls: Seq<ToolCallView>,
    content: Seq<char>,
)
    requires
        calls.len() > 0,
    ensures
        is_rest_of(
            unsettled(session::settle_and_go_on(tools, s, calls, content).state),
            calls.drop_first(),
        ),
    decreases calls.len(), 0int,
{
    lemma_serial_takes_in_order(
        tools,
        session::settled(s, calls[0].id, content),
        calls.drop_first(),
    );
}

/// The calls of a batch that runs serially are taken in the order of the model, each once: after a
/// turn the batch is what is left of its calls, and once a handler has run, what is left of the calls
/// behind its own.
pub proof fn law_calls_run_in_order(setup: SetupView, s: SessionView, event: EventView)
    requires
        session::fits(s.phase, event),
    ensures
        ({
            let rest = unsettled(session::transition(setup, s, event).state);
            &&& event is ToolDone || event is Rewritten ==> is_rest_of(
                rest,
                unsettled(s).drop_first(),
            )
            &&& brought_turn(event) matches Some(turn) ==> (match turn.tool_calls {
                Some(calls) => is_rest_of(rest, calls),
                None => rest.len() == 0,
            })
        }),
{
    match (s.phase, event) {
        (PhaseView::Tool(calls), EventView::ToolDone(outcome)) => {
            lemma_settling_takes_in_order(setup.tools, s, calls, tool::outcome_text(outcome));
        },
        (PhaseView::Rewrite(calls), EventView::Rewritten(outcome)) => {
            let t = match outcome {
                RewriteOutcomeView::Done(_, new_messages) => SessionView {
                    messages: new_messages,
                    ..s
                },
                RewriteOutcomeView::Failed(_) => s,
            };
            assert forall|content: Seq<char>| is_rest_of(
                unsettled(
                    (#[trigger] session::settle_and_go_on(setup.tools, s, calls, content)).state,
                ),
                calls.drop_first(),
            ) by {
                lemma_settling_takes_in_order(setup.tools, s, calls, content);
            }
            assert forall|content: Seq<char>| is_rest_of(
                unsettled(
                    (#[trigger] session::settle_and_go_on(setup.tools, t, calls, content)).state,
                ),
                calls.drop_first(),
            ) by {
                lemma_settling_takes_in_order(setup.tools, t, calls, content);
            }
        },
        _ => {
            if let Some(turn) = brought_turn(event) {
                if let Some(calls) = turn.tool_calls {
                    let next = SessionView {
                        messages: s.messages.push(reply::reply_message(turn)),
                        prev_call: true,
                        ..s
                    };
                    lemma_serial_takes_in_order(setup.tools, next, calls);
                    assert(calls.skip(calls.len() as int) =~= Seq::<ToolCallView>::empty());
                }
            }
        },
    }
}

} // verus!

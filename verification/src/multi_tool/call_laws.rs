//! What becomes of the tool calls of a turn: which handler runs for which call, and which result the
//! model is shown for it.

use vstd::prelude::*;

use crate::json;
use crate::multi_tool::event::{
    ActionView, EffectView, EventView, JobView, RewriteOutcomeView,
};
use crate::multi_tool::history;
use crate::multi_tool::message::{
    AssistantContentView, AssistantMessageView, MessageView, TextContentView, ToolCallView,
};
use crate::multi_tool::reply::AssistantReplyView;
use crate::multi_tool::session;
use crate::multi_tool::session::{PhaseView, PlannedView, SessionView, SetupView};
use crate::multi_tool::tool;
use crate::multi_tool::tool::{ToolErrorView, ToolView};
use crate::usage::TokenUsage;

verus! {

/// The message that shows the model this text as the result of the call `id`.
pub open spec fn shown(id: Seq<char>, content: Seq<char>) -> MessageView {
    MessageView::Tool(TextContentView::Text(content), id)
}

/// `tools[i]` has the name, and no tool before it has.
pub open spec fn named_first(tools: Seq<ToolView>, name: Seq<char>, i: int) -> bool {
    &&& 0 <= i < tools.len()
    &&& tools[i].description.name == name
    &&& forall|j: int| 0 <= j < i ==> (#[trigger] tools[j]).description.name != name
}

/// Some tool has the name.
pub open spec fn is_named(tools: Seq<ToolView>, name: Seq<char>) -> bool {
    exists|i: int| 0 <= i < tools.len() && (#[trigger] tools[i]).description.name == name
}

/// Some assistant turn among the messages lists a call with the identifier `id`.
pub open spec fn is_listed(messages: Seq<MessageView>, id: Seq<char>) -> bool {
    exists|i: int, k: int|
        #![trigger messages[i]->Assistant_0.tool_calls->0[k]]
        0 <= i < messages.len() && messages[i] is Assistant
            && messages[i]->Assistant_0.tool_calls is Some && 0 <= k
            < messages[i]->Assistant_0.tool_calls->0.len()
            && messages[i]->Assistant_0.tool_calls->0[k].id == id
}

/// The text that the model is shown for a call for which no handler can run: nobody has the name of
/// its tool, or its arguments are no JSON. `None` where a handler can run.
pub open spec fn refusal(tools: Seq<ToolView>, call: ToolCallView) -> Option<Seq<char>> {
    if !is_named(tools, call.function.name) {
        Some("Error: unknown tool: "@ + call.function.name)
    } else if json::json_parsed(call.function.arguments) is None {
        Some("Error: failed to parse tool arguments"@)
    } else {
        None
    }
}

/// The results of those of the first `n` calls that the messages list, when no handler can run for
/// any of them.
pub open spec fn refused(
    tools: Seq<ToolView>,
    messages: Seq<MessageView>,
    calls: Seq<ToolCallView>,
    n: int,
) -> Seq<MessageView>
    decreases n,
{
    if n <= 0 {
        Seq::empty()
    } else {
        let before = refused(tools, messages, calls, n - 1);
        if is_listed(messages, calls[n - 1].id) {
            before.push(shown(calls[n - 1].id, refusal(tools, calls[n - 1])->0))
        } else {
            before
        }
    }
}

/// The handler of the tool that the call names runs, on the arguments of the call; a rewriting tool
/// is handed the messages.
pub open spec fn runs_call(
    tools: Seq<ToolView>,
    call: ToolCallView,
    messages: Seq<MessageView>,
    i: int,
    action: ActionView,
) -> bool {
    &&& named_first(tools, call.function.name, i)
    &&& json::json_parsed(call.function.arguments) matches Some(args) && action == (
    if tools[i].rewriting {
        ActionView::RunRewrite(JobView { tool: i, args }, messages)
    } else {
        ActionView::RunTool(JobView { tool: i, args })
    })
}

/// Going on with calls refuses the first `n`, for which no handler can run, and runs the handler of
/// the next one. Where none is left, the loop goes on.
pub open spec fn goes_on_with(
    tools: Seq<ToolView>,
    messages: Seq<MessageView>,
    calls: Seq<ToolCallView>,
    pushed: Seq<MessageView>,
    state: SessionView,
    action: ActionView,
    n: int,
) -> bool {
    &&& 0 <= n <= calls.len()
    &&& forall|k: int| 0 <= k < n ==> refusal(tools, #[trigger] calls[k]) is Some
    &&& pushed == refused(tools, messages, calls, n)
    &&& state.messages == messages + pushed
    &&& if n == calls.len() {
        action is CheckClosed && state.phase is CheckClosed
    } else {
        &&& refusal(tools, calls[n]) is None
        &&& exists|i: int| #[trigger]
            runs_call(tools, calls[n], state.messages, i, action) && state.phase == (
            if tools[i].rewriting {
                PhaseView::Rewrite(calls.skip(n))
            } else {
                PhaseView::Tool(calls.skip(n))
            })
    }
}

/// Each of the messages was appended and reported, in order.
pub open spec fn reports(effects: Seq<EffectView>, messages: Seq<MessageView>) -> bool {
    &&& effects.len() == messages.len()
    &&& forall|k: int|
        #![trigger effects[k]]
        0 <= k < effects.len() ==> effects[k] == EffectView::Pushed(messages[k])
}

/// The result of the call with this content, if the messages list the call.
pub open spec fn answer_to(
    messages: Seq<MessageView>,
    id: Seq<char>,
    content: Seq<char>,
) -> Seq<MessageView> {
    if is_listed(messages, id) {
        seq![shown(id, content)]
    } else {
        Seq::empty()
    }
}

/// The first of the calls is answered with `content`, if the messages list it, and the others come
/// after it.
pub open spec fn answers_first(
    tools: Seq<ToolView>,
    messages: Seq<MessageView>,
    calls: Seq<ToolCallView>,
    content: Seq<char>,
    effects: Seq<EffectView>,
    state: SessionView,
    action: ActionView,
) -> bool {
    let answer = answer_to(messages, calls[0].id, content);
    exists|n: int, rest: Seq<MessageView>| #[trigger]
        goes_on_with(
            tools,
            messages + answer,
            calls.drop_first(),
            rest,
            state,
            action,
            n,
        ) && reports(effects, answer + rest)
}

/// The tool that a call names is the first of that name.
pub proof fn law_first_tool_of_the_name_is_called(tools: Seq<ToolView>, name: Seq<char>)
    ensures
        match tool::tool_named(tools, name) {
            Some(i) => named_first(tools, name, i),
            None => !is_named(tools, name),
        },
        is_named(tools, name) <==> tool::tool_named(tools, name) is Some,
{
    tool::lemma_tool_named_from(tools, name, 0);
}

/// A call is listed exactly when some assistant turn has it among its calls, wherever it stands among
/// them.
pub proof fn law_call_is_listed_by_a_turn(messages: Seq<MessageView>, id: Seq<char>)
    ensures
        history::has_call(messages, id) <==> is_listed(messages, id),
{
    if history::has_call(messages, id) {
        let i = choose|i: int|
            0 <= i < messages.len() && history::lists_call(#[trigger] messages[i], id);
        let calls = messages[i]->Assistant_0.tool_calls->0;
        let k = choose|k: int| 0 <= k < calls.len() && (#[trigger] calls[k]).id == id;
        assert(messages[i]->Assistant_0.tool_calls->0[k].id == id);
    }
    if is_listed(messages, id) {
        let (i, k) = choose|i: int, k: int|
            #![trigger messages[i]->Assistant_0.tool_calls->0[k]]
            0 <= i < messages.len() && messages[i] is Assistant
                && messages[i]->Assistant_0.tool_calls is Some && 0 <= k
                < messages[i]->Assistant_0.tool_calls->0.len()
                && messages[i]->Assistant_0.tool_calls->0[k].id == id;
        let calls = messages[i]->Assistant_0.tool_calls->0;
        assert(calls[k].id == id);
        assert(history::calls_have_id(calls, id));
        assert(history::lists_call(messages[i], id));
    }
}

/// A tool result lists no call.
proof fn lemma_result_lists_nothing(messages: Seq<MessageView>, m: MessageView, id: Seq<char>)
    requires
        m is Tool,
    ensures
        is_listed(messages.push(m), id) <==> is_listed(messages, id),
{
    let more = messages.push(m);
    if is_listed(messages, id) {
        let (i, k) = choose|i: int, k: int|
            #![trigger messages[i]->Assistant_0.tool_calls->0[k]]
            0 <= i < messages.len() && messages[i] is Assistant
                && messages[i]->Assistant_0.tool_calls is Some && 0 <= k
                < messages[i]->Assistant_0.tool_calls->0.len()
                && messages[i]->Assistant_0.tool_calls->0[k].id == id;
        assert(more[i]->Assistant_0.tool_calls->0[k].id == id);
    }
    if is_listed(more, id) {
        let (i, k) = choose|i: int, k: int|
            #![trigger more[i]->Assistant_0.tool_calls->0[k]]
            0 <= i < more.len() && more[i] is Assistant && more[i]->Assistant_0.tool_calls is Some
                && 0 <= k < more[i]->Assistant_0.tool_calls->0.len()
                && more[i]->Assistant_0.tool_calls->0[k].id == id;
        assert(messages[i]->Assistant_0.tool_calls->0[k].id == id);
    }
}

/// Refused calls, the first of them taken apart.
proof fn lemma_refused_first(
    tools: Seq<ToolView>,
    messages: Seq<MessageView>,
    later: Seq<MessageView>,
    calls: Seq<ToolCallView>,
    n: int,
)
    requires
        0 < n <= calls.len(),
        forall|id: Seq<char>| is_listed(later, id) <==> is_listed(messages, id),
    ensures
        refused(tools, messages, calls, n) == refused(tools, messages, calls, 1) + refused(
            tools,
            later,
            calls.drop_first(),
            n - 1,
        ),
    decreases n,
{
    let one = refused(tools, messages, calls, 1);
    if n == 1 {
        assert(refused(tools, later, calls.drop_first(), 0) =~= Seq::<MessageView>::empty());
        assert(one + Seq::<MessageView>::empty() =~= one);
    } else {
        lemma_refused_first(tools, messages, later, calls, n - 1);
        let rest = refused(tools, later, calls.drop_first(), n - 2);
        assert(calls.drop_first()[n - 2] == calls[n - 1]);
        assert(is_listed(later, calls[n - 1].id) <==> is_listed(messages, calls[n - 1].id));
        let last = shown(calls[n - 1].id, refusal(tools, calls[n - 1])->0);
        assert((one + rest).push(last) =~= one + rest.push(last));
    }
}

/// Why a call has no handler to run, as the model is told.
proof fn lemma_refusal(tools: Seq<ToolView>, call: ToolCallView)
    ensures
        match tool::resolved(tools, call) {
            Ok((i, args)) => refusal(tools, call) is None && named_first(
                tools,
                call.function.name,
                i,
            ) && json::json_parsed(call.function.arguments) == Some(args),
            Err(e) => refusal(tools, call) == Some(
                tool::outcome_text(Err::<Seq<char>, ToolErrorView>(e)),
            ),
        },
{
    law_first_tool_of_the_name_is_called(tools, call.function.name);
    reveal_strlit("Error: ");
    reveal_strlit("unknown tool: ");
    reveal_strlit("Error: unknown tool: ");
    reveal_strlit("failed to parse tool arguments");
    reveal_strlit("Error: failed to parse tool arguments");
    assert("Error: "@ + ("unknown tool: "@ + call.function.name) =~= "Error: unknown tool: "@
        + call.function.name);
    assert("Error: "@ + "failed to parse tool arguments"@
        =~= "Error: failed to parse tool arguments"@);
}

/// What going on with calls does.
proof fn lemma_goes_on(tools: Seq<ToolView>, s: SessionView, calls: Seq<ToolCallView>) -> (r: (
    int,
    Seq<MessageView>,
))
    ensures
        ({
            let step = session::serial(tools, s, calls);
            &&& goes_on_with(tools, s.messages, calls, r.1, step.state, step.action, r.0)
            &&& reports(step.effects, r.1)
        }),
    decreases calls.len(),
{
    let step = session::serial(tools, s, calls);
    let none = Seq::<MessageView>::empty();
    assert(s.messages + none =~= s.messages);
    if calls.len() == 0 {
        assert(refused(tools, s.messages, calls, 0) =~= none);
        (0, none)
    } else {
        lemma_refusal(tools, calls[0]);
        match tool::resolved(tools, calls[0]) {
            Ok((i, args)) => {
                assert(calls.skip(0) =~= calls);
                assert(runs_call(tools, calls[0], s.messages, i, step.action));
                assert(refused(tools, s.messages, calls, 0) =~= none);
                (0, none)
            },
            Err(e) => {
                let content = tool::outcome_text(Err::<Seq<char>, ToolErrorView>(e));
                let id = calls[0].id;
                law_call_is_listed_by_a_turn(s.messages, id);
                let next = session::settled(s, id, content);
                let (n, rest) = lemma_goes_on(tools, next, calls.drop_first());
                let answer = if is_listed(s.messages, id) {
                    seq![shown(id, content)]
                } else {
                    none
                };
                let one = refused(tools, s.messages, calls, 1);
                assert(refused(tools, s.messages, calls, 0) =~= none);
                assert(one =~= answer);
                assert forall|other: Seq<char>| is_listed(next.messages, other) <==> is_listed(
                    s.messages,
                    other,
                ) by {
                    lemma_result_lists_nothing(s.messages, shown(id, content), other);
                }
                lemma_refused_first(tools, s.messages, next.messages, calls, n + 1);
                let pushed = answer + rest;
                assert(next.messages =~= s.messages + answer);
                assert(s.messages + answer + rest =~= s.messages + pushed);
                assert(calls.drop_first().skip(n) =~= calls.skip(n + 1));
                assert forall|k: int| 0 <= k < n + 1 implies refusal(
                    tools,
                    #[trigger] calls[k],
                ) is Some by {
                    if k > 0 {
                        assert(calls.drop_first()[k - 1] == calls[k]);
                    }
                }
                if n + 1 < calls.len() {
                    assert(calls.drop_first()[n] == calls[n + 1]);
                    let i = choose|i: int| #[trigger]
                        runs_call(
                            tools,
                            calls.drop_first()[n],
                            step.state.messages,
                            i,
                            step.action,
                        );
                    assert(runs_call(tools, calls[n + 1], step.state.messages, i, step.action));
                }
                (n + 1, pushed)
            },
        }
    }
}

/// What answering the first call and going on with the others does.
proof fn lemma_answers_first(
    tools: Seq<ToolView>,
    s: SessionView,
    calls: Seq<ToolCallView>,
    content: Seq<char>,
)
    requires
        calls.len() > 0,
    ensures
        ({
            let step = session::settle_and_go_on(tools, s, calls, content);
            answers_first(
                tools,
                s.messages,
                calls,
                content,
                step.effects,
                step.state,
                step.action,
            )
        }),
{
    let id = calls[0].id;
    law_call_is_listed_by_a_turn(s.messages, id);
    let next = session::settled(s, id, content);
    let (n, rest) = lemma_goes_on(tools, next, calls.drop_first());
    let answer = answer_to(s.messages, id, content);
    assert(next.messages =~= s.messages + answer);
    assert(reports(
        session::settle_and_go_on(tools, s, calls, content).effects,
        answer + rest,
    ));
}

/// The content of the result of a handler, as the model is shown it: what it returned, or the text of
/// its error.
pub open spec fn told(outcome: Result<Seq<char>, Seq<char>>) -> Seq<char> {
    match outcome {
        Ok(text) => text,
        Err(text) => "Error: "@ + text,
    }
}

/// The outcome of a handler that returned a text or failed with one.
pub open spec fn outcome_event(outcome: Result<Seq<char>, Seq<char>>) -> Result<
    Seq<char>,
    ToolErrorView,
> {
    match outcome {
        Ok(text) => Ok(text),
        Err(text) => Err(ToolErrorView::Handler(text)),
    }
}

/// What a handler returned is what the model is shown as the result of its call, character by
/// character, and the error of a handler that failed is shown as a text. The calls behind it come
/// next, in their order.
pub proof fn law_handler_result_is_shown(
    setup: SetupView,
    s: SessionView,
    calls: Seq<ToolCallView>,
    outcome: Result<Seq<char>, Seq<char>>,
)
    requires
        s.phase == PhaseView::Tool(calls),
        calls.len() > 0,
    ensures
        ({
            let step = session::transition(
                setup,
                s,
                EventView::ToolDone(outcome_event(outcome)),
            );
            &&& answers_first(
                setup.tools,
                s.messages,
                calls,
                told(outcome),
                step.effects,
                step.state,
                step.action,
            )
            &&& is_listed(s.messages, calls[0].id) ==> step.effects.len() > 0 && step.effects[0]
                == EffectView::Pushed(
                MessageView::Tool(TextContentView::Text(told(outcome)), calls[0].id),
            )
        }),
{
    lemma_answers_first(setup.tools, s, calls, told(outcome));
}

/// The results of a batch that ran concurrently are appended in the order of its calls, one for each:
/// what the handler returned, character by character, or the text of the error.
pub proof fn law_concurrent_results_are_shown(
    setup: SetupView,
    s: SessionView,
    batch: Seq<PlannedView>,
    outcomes: Seq<Option<Result<Seq<char>, ToolErrorView>>>,
)
    requires
        s.phase == PhaseView::Parallel(batch),
        session::fits(s.phase, EventView::ParallelDone(outcomes)),
    ensures
        ({
            let step = session::transition(setup, s, EventView::ParallelDone(outcomes));
            let n = s.messages.len() as int;
            &&& step.state.messages.len() == n + batch.len()
            &&& step.state.messages.take(n) == s.messages
            &&& reports(step.effects, step.state.messages.skip(n))
            &&& step.action is CheckClosed
            &&& step.state.phase is CheckClosed
            &&& forall|k: int|
                #![trigger batch[k]]
                #![trigger outcomes[k]]
                0 <= k < batch.len() ==> {
                    let m = step.state.messages[n + k];
                    let id = batch[k].call_id;
                    &&& m matches MessageView::Tool(TextContentView::Text(_), call_id) && call_id
                        == id
                    &&& batch[k].error is None ==> (outcomes[k]->0 matches Ok(text) ==> m == shown(
                        id,
                        text,
                    ))
                    &&& batch[k].error is None ==> (outcomes[k]->0 matches Err(
                        ToolErrorView::Handler(text),
                    ) ==> m == shown(id, "Error: "@ + text))
                    &&& batch[k].error matches Some(ToolErrorView::UnknownTool(name)) ==> m
                        == shown(id, "Error: unknown tool: "@ + name)
                    &&& batch[k].error == Some(ToolErrorView::BadArguments) ==> m == shown(
                        id,
                        "Error: failed to parse tool arguments"@,
                    )
                }
        }),
{
    let step = session::transition(setup, s, EventView::ParallelDone(outcomes));
    let n = s.messages.len() as int;
    reveal_strlit("Error: ");
    reveal_strlit("unknown tool: ");
    reveal_strlit("Error: unknown tool: ");
    reveal_strlit("failed to parse tool arguments");
    reveal_strlit("Error: failed to parse tool arguments");
    assert("Error: "@ + "failed to parse tool arguments"@
        =~= "Error: failed to parse tool arguments"@);
    assert(step.state.messages.take(n) =~= s.messages);
    assert forall|k: int| 0 <= k < batch.len() implies (
    #[trigger] batch[k]).error matches Some(ToolErrorView::UnknownTool(name))
        ==> step.state.messages[n + k] == shown(
        batch[k].call_id,
        "Error: unknown tool: "@ + name,
    ) by {
        if let Some(ToolErrorView::UnknownTool(name)) = batch[k].error {
            assert("Error: "@ + ("unknown tool: "@ + name) =~= "Error: unknown tool: "@ + name);
        }
    }
}

/// One of the calls names a rewriting tool.
pub open spec fn calls_rewriting(tools: Seq<ToolView>, calls: Seq<ToolCallView>) -> bool {
    exists|k: int, i: int|
        #![trigger calls[k], tools[i]]
        0 <= k < calls.len() && named_first(tools, calls[k].function.name, i) && tools[i].rewriting
}

/// A batch has a rewriting call exactly when one of its calls names a tool that may rewrite the
/// history.
pub proof fn law_rewriting_call_is_found(tools: Seq<ToolView>, calls: Seq<ToolCallView>)
    ensures
        tool::has_rewriting_call(tools, calls) <==> calls_rewriting(tools, calls),
{
    if tool::has_rewriting_call(tools, calls) {
        let k = choose|k: int|
            0 <= k < calls.len() && tool::calls_rewriting_tool(tools, #[trigger] calls[k]);
        law_first_tool_of_the_name_is_called(tools, calls[k].function.name);
        let i = tool::tool_named(tools, calls[k].function.name)->0;
        assert(tools[i].rewriting);
    }
    if calls_rewriting(tools, calls) {
        let (k, i) = choose|k: int, i: int|
            #![trigger calls[k], tools[i]]
            0 <= k < calls.len() && named_first(tools, calls[k].function.name, i)
                && tools[i].rewriting;
        law_first_tool_of_the_name_is_called(tools, calls[k].function.name);
        let j = tool::tool_named(tools, calls[k].function.name)->0;
        assert(tools[j].description.name == calls[k].function.name);
        assert(i == j);
        assert(tool::calls_rewriting_tool(tools, calls[k]));
    }
}

/// The message that records a turn: its text, its refusal and its calls, and nothing else.
pub open spec fn recorded(turn: AssistantReplyView) -> MessageView {
    MessageView::Assistant(
        AssistantMessageView {
            content: match turn.content {
                Some(text) => Some(AssistantContentView::Text(text)),
                None => None,
            },
            refusal: turn.refusal,
            name: None,
            audio: None,
            tool_calls: turn.tool_calls,
            function_call: None,
        },
    )
}

/// The turn and the usage that an event brings, if it does.
pub open spec fn answer_of(event: EventView) -> Option<(AssistantReplyView, Option<TokenUsage>)> {
    match event {
        EventView::CallbackReplied(turn) => Some((turn, None)),
        EventView::ModelReplied(turn, usage) => Some((turn, usage)),
        _ => None,
    }
}

/// The usage is reported first, where there is one, and then the turn, which stands behind the
/// history as it was.
pub open spec fn records_turn(
    s: SessionView,
    turn: AssistantReplyView,
    usage: Option<TokenUsage>,
    effects: Seq<EffectView>,
    state: SessionView,
    u: int,
) -> bool {
    &&& u == if usage is Some {
        1int
    } else {
        0int
    }
    &&& effects.len() > u
    &&& usage matches Some(counts) ==> effects[0] == EffectView::Usage(counts)
    &&& effects[u] == EffectView::Pushed(recorded(turn))
    &&& s.messages.push(recorded(turn)).is_prefix_of(state.messages)
    &&& state.prev_call == (turn.tool_calls is Some)
    &&& state.pending == s.pending
    &&& state.temperature == s.temperature
}

/// What a step consists of that takes in a turn.
proof fn lemma_reply_effects(
    setup: SetupView,
    s: SessionView,
    turn: AssistantReplyView,
    usage: Option<TokenUsage>,
) -> (u: int)
    ensures
        ({
            let step = session::replied(setup, s, turn, usage);
            let next = SessionView {
                messages: s.messages.push(recorded(turn)),
                prev_call: turn.tool_calls is Some,
                ..s
            };
            let rest = session::turn_over(setup, next, turn);
            &&& u == if usage is Some {
                1int
            } else {
                0int
            }
            &&& step.effects.skip(u + 1) == rest.effects
            &&& step.effects.len() == u + 1 + rest.effects.len()
            &&& usage matches Some(counts) ==> step.effects[0] == EffectView::Usage(counts)
            &&& step.effects[u] == EffectView::Pushed(recorded(turn))
            &&& step.state == rest.state
            &&& step.action == rest.action
        }),
{
    let u: int = if usage is Some {
        1int
    } else {
        0int
    };
    let step = session::replied(setup, s, turn, usage);
    let next = SessionView {
        messages: s.messages.push(recorded(turn)),
        prev_call: turn.tool_calls is Some,
        ..s
    };
    let rest = session::turn_over(setup, next, turn);
    assert(step.effects.skip(u + 1) =~= rest.effects);
    u
}

/// A turn without tool calls is recorded, and its text is handed to the message callback where it has
/// one; else the loop goes on.
pub proof fn law_turn_without_calls_is_recorded(
    setup: SetupView,
    s: SessionView,
    event: EventView,
    turn: AssistantReplyView,
    usage: Option<TokenUsage>,
)
    requires
        session::fits(s.phase, event),
        answer_of(event) == Some((turn, usage)),
        turn.tool_calls matches Some(calls) ==> calls.len() == 0,
    ensures
        ({
            let step = session::transition(setup, s, event);
            let u: int = if usage is Some {
                1int
            } else {
                0int
            };
            &&& records_turn(s, turn, usage, step.effects, step.state, u)
            &&& step.effects.len() == u + 1
            &&& step.state.messages == s.messages.push(recorded(turn))
            &&& match turn.content {
                Some(text) => step.action == ActionView::Say(text) && step.state.phase is Say,
                None => step.action is CheckClosed && step.state.phase is CheckClosed,
            }
        }),
{
    let u = lemma_reply_effects(setup, s, turn, usage);
}

/// A turn with tool calls that run one after the other is recorded, and its calls are gone through in
/// their order up to the first for which a handler can run.
pub proof fn law_serial_batch_goes_to_first_handler(
    setup: SetupView,
    s: SessionView,
    event: EventView,
    turn: AssistantReplyView,
    usage: Option<TokenUsage>,
    calls: Seq<ToolCallView>,
)
    requires
        session::fits(s.phase, event),
        answer_of(event) == Some((turn, usage)),
        turn.tool_calls == Some(calls),
        calls.len() > 0,
        !setup.parallel_tools || calls_rewriting(setup.tools, calls),
    ensures
        ({
            let step = session::transition(setup, s, event);
            let u: int = if usage is Some {
                1int
            } else {
                0int
            };
            &&& records_turn(s, turn, usage, step.effects, step.state, u)
            &&& exists|n: int, pushed: Seq<MessageView>| #[trigger]
                goes_on_with(
                    setup.tools,
                    s.messages.push(recorded(turn)),
                    calls,
                    pushed,
                    step.state,
                    step.action,
                    n,
                ) && reports(step.effects.skip(u + 1), pushed)
        }),
{
    law_rewriting_call_is_found(setup.tools, calls);
    let step = session::transition(setup, s, event);
    let u = lemma_reply_effects(setup, s, turn, usage);
    let next = SessionView {
        messages: s.messages.push(recorded(turn)),
        prev_call: true,
        ..s
    };
    let (n, pushed) = lemma_goes_on(setup.tools, next, calls);
    lemma_serial_keeps(setup.tools, next, calls);
    assert(next.messages + pushed =~= step.state.messages);
    assert(next.messages =~= step.state.messages.take(next.messages.len() as int));
}

/// Going on with calls leaves what does not belong to them.
proof fn lemma_serial_keeps(tools: Seq<ToolView>, s: SessionView, calls: Seq<ToolCallView>)
    ensures
        ({
            let state = session::serial(tools, s, calls).state;
            &&& state.prev_call == s.prev_call
            &&& state.pending == s.pending
            &&& state.temperature == s.temperature
        }),
    decreases calls.len(),
{
    if calls.len() > 0 {
        if let Err(e) = tool::resolved(tools, calls[0]) {
            let content = tool::outcome_text(Err::<Seq<char>, ToolErrorView>(e));
            lemma_serial_keeps(
                tools,
                session::settled(s, calls[0].id, content),
                calls.drop_first(),
            );
        }
    }
}

/// A turn with tool calls that run concurrently is recorded, and for each of its calls the handler of
/// the tool that it names runs, on its arguments. A call for which none can run is planned to be
/// answered with the reason.
pub proof fn law_concurrent_batch_runs_all_handlers(
    setup: SetupView,
    s: SessionView,
    event: EventView,
    turn: AssistantReplyView,
    usage: Option<TokenUsage>,
    calls: Seq<ToolCallView>,
)
    requires
        session::fits(s.phase, event),
        answer_of(event) == Some((turn, usage)),
        turn.tool_calls == Some(calls),
        calls.len() > 0,
        setup.parallel_tools,
        !calls_rewriting(setup.tools, calls),
    ensures
        ({
            let step = session::transition(setup, s, event);
            let u: int = if usage is Some {
                1int
            } else {
                0int
            };
            &&& records_turn(s, turn, usage, step.effects, step.state, u)
            &&& step.effects.len() == u + 1
            &&& step.state.messages == s.messages.push(recorded(turn))
            &&& step.state.phase matches PhaseView::Parallel(batch) && step.action matches
                ActionView::RunParallel(jobs) && batch.len() == calls.len() && jobs.len()
                == calls.len() && forall|k: int|
                #![trigger calls[k]]
                #![trigger jobs[k]]
                0 <= k < calls.len() ==> {
                    let call = calls[k];
                    &&& batch[k].call_id == call.id
                    &&& if !is_named(setup.tools, call.function.name) {
                        jobs[k] is None && batch[k].error == Some(
                            ToolErrorView::UnknownTool(call.function.name),
                        )
                    } else if json::json_parsed(call.function.arguments) is None {
                        jobs[k] is None && batch[k].error == Some(ToolErrorView::BadArguments)
                    } else {
                        batch[k].error is None && jobs[k] is Some && named_first(
                            setup.tools,
                            call.function.name,
                            jobs[k]->0.tool,
                        ) && json::json_parsed(call.function.arguments) == Some(jobs[k]->0.args)
                    }
                }
        }),
{
    law_rewriting_call_is_found(setup.tools, calls);
    let u = lemma_reply_effects(setup, s, turn, usage);
    let step = session::transition(setup, s, event);
    assert forall|k: int| 0 <= k < calls.len() implies tool::resolved_parallel(
        setup.tools,
        #[trigger] calls[k],
    ) == tool::resolved(setup.tools, calls[k]) by {
        assert(!tool::calls_rewriting_tool(setup.tools, calls[k]));
    }
    assert forall|k: int| 0 <= k < calls.len() implies match tool::tool_named(
        setup.tools,
        (#[trigger] calls[k]).function.name,
    ) {
        Some(i) => named_first(setup.tools, calls[k].function.name, i),
        None => !is_named(setup.tools, calls[k].function.name),
    } && (is_named(setup.tools, calls[k].function.name) <==> tool::tool_named(
        setup.tools,
        calls[k].function.name,
    ) is Some) by {
        law_first_tool_of_the_name_is_called(setup.tools, calls[k].function.name);
    }
}

/// The messages end with an assistant turn, behind which only tool results come, and that turn lists
/// the call `id` or has no list of calls.
pub open spec fn may_take_result(messages: Seq<MessageView>, id: Seq<char>) -> bool {
    exists|i: int|
        #![trigger messages[i]]
        0 <= i < messages.len() && messages[i] is Assistant && (forall|j: int|
            i < j < messages.len() ==> messages[j] is Tool) && (
        messages[i]->Assistant_0.tool_calls is None || exists|k: int|
            0 <= k < messages[i]->Assistant_0.tool_calls->0.len() && (
            #[trigger] messages[i]->Assistant_0.tool_calls->0[k]).id == id)
}

/// A result of the call `id` stands among the messages.
pub open spec fn holds_result(messages: Seq<MessageView>, id: Seq<char>) -> bool {
    exists|i: int|
        #![trigger messages[i]]
        0 <= i < messages.len() && messages[i] is Tool && messages[i]->Tool_1 == id
}

/// A result of the call `id` stands behind the last turn that lists the call.
pub open spec fn holds_answer(messages: Seq<MessageView>, id: Seq<char>) -> bool {
    exists|i: int|
        #![trigger messages[i]]
        0 <= i < messages.len() && messages[i] is Tool && messages[i]->Tool_1 == id
            && !is_listed(messages.skip(i + 1), id)
}

/// The rule that the messages of a rewriting tool break, as the model is told; `None` where they break
/// none.
pub open spec fn broken_rule(
    call: ToolCallView,
    messages: Seq<MessageView>,
    new_messages: Seq<MessageView>,
) -> Option<Seq<char>> {
    let tool = "Error: rewriting tool '"@ + call.function.name;
    if new_messages.len() == 0 {
        Some(tool + "' returned an empty message list"@)
    } else if new_messages == messages {
        None
    } else if is_listed(new_messages, call.id) && !may_take_result(new_messages, call.id) {
        Some(
            tool
                + "' must return a legal prefix for appending this tool result (assistant tool_calls turn, optionally followed by sibling role=tool messages)"@,
        )
    } else if is_listed(new_messages, call.id) && holds_answer(new_messages, call.id) {
        Some(
            tool + "' kept its tool_call but already included the role=tool result for "@ + call.id,
        )
    } else if !is_listed(new_messages, call.id) && holds_result(new_messages, call.id) {
        Some(tool + "' removed its tool_call but left a role=tool result for "@ + call.id)
    } else {
        None
    }
}

/// A result can come exactly where an assistant turn takes it, behind which only results have come;
/// and a result is there exactly where a tool message is that of the call.
pub proof fn law_result_comes_behind_its_turn(messages: Seq<MessageView>, id: Seq<char>)
    ensures
        history::is_prefix_for_result(messages, id) <==> may_take_result(messages, id),
        history::has_result(messages, id) <==> holds_result(messages, id),
{
    assert forall|i: int| 0 <= i < messages.len() implies (history::accepts_result(
        #[trigger] messages[i],
        id,
    ) <==> messages[i] is Assistant && (messages[i]->Assistant_0.tool_calls is None || exists|
        k: int,
    |
        0 <= k < messages[i]->Assistant_0.tool_calls->0.len() && (
        #[trigger] messages[i]->Assistant_0.tool_calls->0[k]).id == id)) by {
        let calls = messages[i]->Assistant_0.tool_calls->0;
        assert(history::calls_have_id(calls, id) <==> exists|k: int|
            0 <= k < calls.len() && (#[trigger] calls[k]).id == id);
    }
    if history::is_prefix_for_result(messages, id) {
        let i = choose|i: int|
            #![trigger messages[i]]
            0 <= i < messages.len() && history::accepts_result(messages[i], id) && (forall|j: int|
                i < j < messages.len() ==> messages[j] is Tool);
        assert(history::accepts_result(messages[i], id));
        assert(may_take_result(messages, id));
    }
    if may_take_result(messages, id) {
        let i = choose|i: int|
            #![trigger messages[i]]
            0 <= i < messages.len() && messages[i] is Assistant && (forall|j: int|
                i < j < messages.len() ==> messages[j] is Tool) && (
            messages[i]->Assistant_0.tool_calls is None || exists|k: int|
                0 <= k < messages[i]->Assistant_0.tool_calls->0.len() && (
                #[trigger] messages[i]->Assistant_0.tool_calls->0[k]).id == id);
        assert(history::accepts_result(messages[i], id));
    }
    if history::has_result(messages, id) {
        let i = choose|i: int|
            0 <= i < messages.len() && history::is_result_of(#[trigger] messages[i], id);
        assert(messages[i] is Tool);
    }
    if holds_result(messages, id) {
        let i = choose|i: int|
            #![trigger messages[i]]
            0 <= i < messages.len() && messages[i] is Tool && messages[i]->Tool_1 == id;
        assert(history::is_result_of(messages[i], id));
    }
}

/// A call is answered exactly where its result stands behind the last turn that lists it.
pub proof fn law_answer_stands_behind_its_call(messages: Seq<MessageView>, id: Seq<char>)
    ensures
        history::is_answered(messages, id) <==> holds_answer(messages, id),
{
    if history::is_answered(messages, id) {
        let i = choose|i: int|
            #![trigger messages[i]]
            0 <= i < messages.len() && history::is_result_of(messages[i], id) && (forall|j: int|
                i < j < messages.len() ==> !history::lists_call(messages[j], id));
        let rest = messages.skip(i + 1);
        law_call_is_listed_by_a_turn(rest, id);
        if history::has_call(rest, id) {
            let j = choose|j: int|
                0 <= j < rest.len() && history::lists_call(#[trigger] rest[j], id);
            assert(rest[j] == messages[i + 1 + j]);
        }
        assert(messages[i] is Tool && messages[i]->Tool_1 == id);
    }
    if holds_answer(messages, id) {
        let i = choose|i: int|
            #![trigger messages[i]]
            0 <= i < messages.len() && messages[i] is Tool && messages[i]->Tool_1 == id
                && !is_listed(messages.skip(i + 1), id);
        let rest = messages.skip(i + 1);
        law_call_is_listed_by_a_turn(rest, id);
        assert forall|j: int| i < j < messages.len() implies !history::lists_call(
            messages[j],
            id,
        ) by {
            assert(rest[j - i - 1] == messages[j]);
        }
        assert(history::is_result_of(messages[i], id));
    }
}

/// What the model is told of a broken rule is what the rule says.
proof fn lemma_broken_rule(
    call: ToolCallView,
    messages: Seq<MessageView>,
    new_messages: Seq<MessageView>,
)
    ensures
        match tool::rewrite_verdict(call.function.name, call.id, messages, new_messages) {
            Err(e) => broken_rule(call, messages, new_messages) == Some(
                tool::outcome_text(Err::<Seq<char>, ToolErrorView>(e)),
            ),
            Ok(replaced) => broken_rule(call, messages, new_messages) is None && replaced == (
            new_messages != messages),
        },
{
    law_call_is_listed_by_a_turn(new_messages, call.id);
    law_result_comes_behind_its_turn(new_messages, call.id);
    law_answer_stands_behind_its_call(new_messages, call.id);
    reveal_strlit("Error: ");
    reveal_strlit("rewriting tool '");
    reveal_strlit("Error: rewriting tool '");
    let name = call.function.name;
    let tool = "Error: rewriting tool '"@ + name;
    assert("Error: "@ + "rewriting tool '"@ =~= "Error: rewriting tool '"@);
    assert("Error: "@ + ("rewriting tool '"@ + name + "' returned an empty message list"@) =~= tool
        + "' returned an empty message list"@);
    assert("Error: "@ + ("rewriting tool '"@ + name
        + "' must return a legal prefix for appending this tool result (assistant tool_calls turn, optionally followed by sibling role=tool messages)"@)
        =~= tool
        + "' must return a legal prefix for appending this tool result (assistant tool_calls turn, optionally followed by sibling role=tool messages)"@);
    assert("Error: "@ + ("rewriting tool '"@ + name
        + "' kept its tool_call but already included the role=tool result for "@ + call.id) =~= tool
        + "' kept its tool_call but already included the role=tool result for "@ + call.id);
    assert("Error: "@ + ("rewriting tool '"@ + name
        + "' removed its tool_call but left a role=tool result for "@ + call.id) =~= tool
        + "' removed its tool_call but left a role=tool result for "@ + call.id);
}

/// The messages of a rewriting tool replace the history where they break no rule and differ from it:
/// the replacement is reported first, with the old and the new messages, and the result of the tool is
/// shown behind the new ones. Where they are the history as it was, only the result is shown. Where
/// they break a rule, the history stays and the model is told the rule; and so it is where the handler
/// failed.
pub proof fn law_rewrite_is_judged(
    setup: SetupView,
    s: SessionView,
    calls: Seq<ToolCallView>,
    outcome: RewriteOutcomeView,
)
    requires
        s.phase == PhaseView::Rewrite(calls),
        calls.len() > 0,
    ensures
        ({
            let step = session::transition(setup, s, EventView::Rewritten(outcome));
            match outcome {
                RewriteOutcomeView::Failed(text) => answers_first(
                    setup.tools,
                    s.messages,
                    calls,
                    "Error: "@ + text,
                    step.effects,
                    step.state,
                    step.action,
                ),
                RewriteOutcomeView::Done(text, new_messages) => match broken_rule(
                    calls[0],
                    s.messages,
                    new_messages,
                ) {
                    Some(rule) => answers_first(
                        setup.tools,
                        s.messages,
                        calls,
                        rule,
                        step.effects,
                        step.state,
                        step.action,
                    ),
                    None => if new_messages == s.messages {
                        answers_first(
                            setup.tools,
                            s.messages,
                            calls,
                            text,
                            step.effects,
                            step.state,
                            step.action,
                        )
                    } else {
                        &&& step.effects.len() > 0
                        &&& step.effects[0] == EffectView::Replaced(s.messages, new_messages)
                        &&& answers_first(
                            setup.tools,
                            new_messages,
                            calls,
                            text,
                            step.effects.drop_first(),
                            step.state,
                            step.action,
                        )
                    },
                },
            }
        }),
{
    let step = session::transition(setup, s, EventView::Rewritten(outcome));
    match outcome {
        RewriteOutcomeView::Failed(text) => {
            lemma_answers_first(setup.tools, s, calls, "Error: "@ + text);
        },
        RewriteOutcomeView::Done(text, new_messages) => {
            lemma_broken_rule(calls[0], s.messages, new_messages);
            match broken_rule(calls[0], s.messages, new_messages) {
                Some(rule) => {
                    lemma_answers_first(setup.tools, s, calls, rule);
                },
                None => if new_messages == s.messages {
                    lemma_answers_first(setup.tools, s, calls, text);
                } else {
                    let t = SessionView { messages: new_messages, ..s };
                    lemma_answers_first(setup.tools, t, calls, text);
                    let rest = session::settle_and_go_on(setup.tools, t, calls, text);
                    assert(step.effects.drop_first() =~= rest.effects);
                },
            }
        },
    }
}

} // verus!

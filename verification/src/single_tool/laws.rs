//! What holds of every run of the typed loop.

use vstd::prelude::*;

use crate::client;
use crate::client::OpenAIClient;
use crate::single_tool::agent_loop;
use crate::single_tool::agent_loop::{
    Briefing, Budget, LoopActionView, LoopControl, LoopErrorView, LoopEvent, LoopPhase, LoopView,
    RestoreState, SavePoint,
};
use crate::single_tool::compaction;
use crate::single_tool::config::LoopConfig;
use crate::single_tool::prompt;
use crate::single_tool::prompt::{Encoded, PromptView, Turn};
use crate::usage::TokenUsage;

verus! {

/// The state after a run, and all that the host was asked to do during it.
pub struct LoopRunView<Q, R, O> {
    pub state: LoopView<Q, R, O>,
    pub actions: Seq<LoopActionView<O>>,
}

/// A run that takes in the events, in order.
pub open spec fn loop_ran<Q, R, O>(
    s: LoopView<Q, R, O>,
    events: Seq<LoopEvent<Q, R, O>>,
) -> LoopRunView<Q, R, O>
    decreases events.len(),
{
    if events.len() == 0 {
        LoopRunView { state: s, actions: Seq::empty() }
    } else {
        let before = loop_ran(s, events.drop_last());
        let step = agent_loop::loop_transition(before.state, events.last());
        LoopRunView { state: step.state, actions: before.actions.push(step.action) }
    }
}

/// Each of the events comes when the loop waits for it.
pub open spec fn loop_awaited<Q, R, O>(
    s: LoopView<Q, R, O>,
    events: Seq<LoopEvent<Q, R, O>>,
) -> bool
    decreases events.len(),
{
    events.len() > 0 ==> {
        &&& loop_awaited(s, events.drop_last())
        &&& agent_loop::loop_fits(loop_ran(s, events.drop_last()).state.phase, events.last())
    }
}

/// How often the model was asked.
pub open spec fn asked<O>(actions: Seq<LoopActionView<O>>) -> nat
    decreases actions.len(),
{
    if actions.len() == 0 {
        0
    } else {
        asked(actions.drop_last()) + if actions.last() is Ask {
            1nat
        } else {
            0nat
        }
    }
}

/// A turn has begun in which the model is yet to be asked.
pub open spec fn turn_open<Q, R, O>(s: LoopView<Q, R, O>) -> nat {
    match s.phase {
        LoopPhase::Save(_) => 1,
        LoopPhase::Describe(_) => 1,
        _ => 0,
    }
}

/// The turns that have begun and those that are left make up the limit, which stays the same.
proof fn lemma_budget<Q, R, O>(s: LoopView<Q, R, O>, events: Seq<LoopEvent<Q, R, O>>)
    requires
        loop_awaited(s, events),
        turn_open(s) == 0,
    ensures
        ({
            let run = loop_ran(s, events);
            match s.budget {
                Some(b) => run.state.budget matches Some(c) && c.max == b.max && asked(run.actions)
                    + turn_open(run.state) + c.left == b.left,
                None => run.state.budget is None,
            }
        }),
    decreases events.len(),
{
    if events.len() > 0 {
        lemma_budget(s, events.drop_last());
        let before = loop_ran(s, events.drop_last());
        let step = agent_loop::loop_transition(before.state, events.last());
        let all = before.actions.push(step.action);
        assert(all.drop_last() =~= before.actions);
        assert(all.last() == step.action);
    }
}

/// A loop with a limit asks the model in at most that many turns, and fails for too many turns only
/// when it has taken them all. A summary counts as no turn.
pub proof fn law_turns_are_limited<Q, R, O>(
    config: LoopConfig,
    client: OpenAIClient,
    max: usize,
    events: Seq<LoopEvent<Q, R, O>>,
)
    requires
        config.max_iterations == Some(max),
        loop_awaited(agent_loop::loop_started::<Q, R, O>(config, client).state, events),
    ensures
        ({
            let run = loop_ran(agent_loop::loop_started::<Q, R, O>(config, client).state, events);
            &&& asked(run.actions) <= max
            &&& events.len() > 0 ==> (run.actions.last() matches LoopActionView::Fail(
                LoopErrorView::TooManyIterations(n),
            ) ==> n == max && asked(run.actions) == max)
        }),
{
    let start = agent_loop::loop_started::<Q, R, O>(config, client).state;
    lemma_budget(start, events);
    if events.len() > 0 {
        lemma_budget(start, events.drop_last());
        let before = loop_ran(start, events.drop_last());
        let step = agent_loop::loop_transition(before.state, events.last());
        assert(before.actions.push(step.action).drop_last() =~= before.actions);
        assert(before.actions.push(step.action).last() == step.action);
    }
}

/// A loop without a limit never fails for too many turns.
pub proof fn law_no_limit_no_end<Q, R, O>(
    config: LoopConfig,
    client: OpenAIClient,
    events: Seq<LoopEvent<Q, R, O>>,
    max: usize,
)
    requires
        config.max_iterations is None,
        loop_awaited(agent_loop::loop_started::<Q, R, O>(config, client).state, events),
        events.len() > 0,
    ensures
        loop_ran(
            agent_loop::loop_started::<Q, R, O>(config, client).state,
            events,
        ).actions.last() != LoopActionView::<O>::Fail(LoopErrorView::TooManyIterations(max)),
{
    let start = agent_loop::loop_started::<Q, R, O>(config, client).state;
    lemma_budget(start, events.drop_last());
}

/// A summary is asked for exactly when the prompt of the turn that was just answered fills at least
/// three quarters of the window, as far as both are known.
pub proof fn law_summary_when_window_fills<Q, R, O>(
    s: LoopView<Q, R, O>,
    event: LoopEvent<Q, R, O>,
)
    requires
        agent_loop::loop_fits(s.phase, event),
    ensures
        agent_loop::loop_transition(s, event).action is Summarize <==> (event is Parsed && (s.phase
            matches LoopPhase::Parse(_, _, Some(usage)) && s.window matches Some(window) && 4
            * usage.prompt_tokens >= 3 * window)),
{
}

/// Without a window there is no compaction: where the policy forbids it, no summary is ever asked
/// for.
pub proof fn law_no_compact_no_summary<Q, R, O>(
    config: LoopConfig,
    client: OpenAIClient,
    events: Seq<LoopEvent<Q, R, O>>,
)
    requires
        config.compact_policy is NoCompact,
        loop_awaited(agent_loop::loop_started::<Q, R, O>(config, client).state, events),
    ensures
        ({
            let run = loop_ran(agent_loop::loop_started::<Q, R, O>(config, client).state, events);
            &&& run.state.window is None
            &&& !(run.state.phase is Discover)
            &&& forall|k: int|
                0 <= k < run.actions.len() ==> !((#[trigger] run.actions[k]) is Summarize) && !(
                run.actions[k] is Discover)
        }),
    decreases events.len(),
{
    if events.len() > 0 {
        law_no_compact_no_summary(config, client, events.drop_last());
    }
}

/// A summary takes the place of the older turns: the latest turns stay as they are, and no more than
/// a few of them. Nothing else of the loop changes, its limit among it.
pub proof fn law_compaction_keeps_latest_turns<Q, R, O>(s: LoopView<Q, R, O>, text: String)
    requires
        s.phase is Summarize,
    ensures
        ({
            let next = agent_loop::loop_transition(
                s,
                LoopEvent::<Q, R, O>::Summarized(text),
            ).state;
            &&& next.summary == Some(text)
            &&& next.history.len() <= compaction::KEPT_TURNS
            &&& next.history.len() == s.history.len() || next.history.len()
                == compaction::KEPT_TURNS
            &&& next.history.is_suffix_of(s.history)
            &&& next.budget == s.budget
            &&& next.window == s.window
            &&& next.phase is Iterate
        }),
{
}

/// A summary that fails changes nothing: the loop goes on with the history as it is.
pub proof fn law_failed_summary_changes_nothing<Q, R, O>(s: LoopView<Q, R, O>)
    requires
        s.phase is Summarize,
    ensures
        ({
            let step = agent_loop::loop_transition(s, LoopEvent::<Q, R, O>::SummaryFailed);
            &&& step.state == (LoopView { phase: LoopPhase::Iterate, ..s })
            &&& step.action is Iterate
        }),
{
}

/// A parsed response is recorded with its request, behind the turns before it.
pub proof fn law_turn_is_recorded<Q, R, O>(
    s: LoopView<Q, R, O>,
    request: Encoded<Q>,
    text: String,
    usage: Option<TokenUsage>,
    response: Encoded<R>,
)
    requires
        s.phase == LoopPhase::<Q, O>::Parse(request, text, usage),
    ensures
        agent_loop::loop_transition(s, LoopEvent::<Q, R, O>::Parsed(response)).state.history
            == s.history.push(Turn { request, response }),
{
}

/// The turns and the summary change only when a saved state is taken over, a turn is recorded or a
/// summary is made.
pub proof fn law_history_changes_by_turns<Q, R, O>(
    s: LoopView<Q, R, O>,
    event: LoopEvent<Q, R, O>,
)
    requires
        agent_loop::loop_fits(s.phase, event),
        !(event is Restored),
        !(event is Parsed),
        !(event is Summarized),
    ensures
        agent_loop::loop_transition(s, event).state.history == s.history,
        agent_loop::loop_transition(s, event).state.summary == s.summary,
{
}

/// The state is saved before every turn that follows a `Continue`, with the request of that turn and
/// the history up to it, and once more before the loop ends with an output.
pub proof fn law_saved_before_turns_and_end<Q, R, O>(
    s: LoopView<Q, R, O>,
    control: LoopControl<Q, O>,
)
    requires
        s.phase is Iterate,
        !s.fresh,
    ensures
        ({
            let step = agent_loop::loop_transition(s, LoopEvent::<Q, R, O>::Iterated(control));
            &&& step.state.history == s.history
            &&& step.state.summary == s.summary
            &&& match control {
                LoopControl::Continue(request) => match s.budget {
                    Some(Budget { left: 0, max }) => step.action == LoopActionView::<O>::Fail(
                        LoopErrorView::TooManyIterations(max),
                    ),
                    _ => {
                        &&& step.action == LoopActionView::<O>::Save(SavePoint::Continue)
                        &&& agent_loop::request_of(step.state) == Some(request)
                        &&& agent_loop::loop_transition(
                            step.state,
                            LoopEvent::<Q, R, O>::Saved,
                        ).action is Describe
                    },
                },
                LoopControl::Stop(output) => {
                    &&& step.action == LoopActionView::<O>::Save(SavePoint::Final)
                    &&& s.history.len() > 0 ==> agent_loop::request_of(step.state) == Some(
                        s.history.last().request,
                    )
                    &&& agent_loop::loop_transition(
                        step.state,
                        LoopEvent::<Q, R, O>::Saved,
                    ).action == LoopActionView::<O>::Stop(output)
                },
            }
        }),
{
}

/// A loop ends with an output exactly when the state was saved for the last time, and it is the
/// output that the controller gave.
pub proof fn law_output_is_the_controllers<Q, R, O>(
    s: LoopView<Q, R, O>,
    event: LoopEvent<Q, R, O>,
    output: O,
)
    requires
        agent_loop::loop_fits(s.phase, event),
    ensures
        agent_loop::loop_transition(s, event).action == LoopActionView::<O>::Stop(output)
            <==> s.phase == LoopPhase::<Q, O>::FinalSave(output),
{
}

/// A loop takes over its saved state: the history, the summary and the request, which the first turn
/// asks without saving again.
pub proof fn law_restored_state_is_taken_over<Q, R, O>(
    s: LoopView<Q, R, O>,
    saved: RestoreState<Q, R>,
    initial: Encoded<Q>,
)
    requires
        s.phase is Restore,
        s.fresh,
        s.budget matches Some(b) ==> b.left > 0,
    ensures
        ({
            let step = agent_loop::loop_transition(
                s,
                LoopEvent::<Q, R, O>::Restored(Some(saved), initial),
            );
            &&& step.state.history == saved.history@
            &&& step.state.summary == saved.previous_summary
            &&& step.state.phase == LoopPhase::<Q, O>::Describe(saved.current_request)
            &&& step.action is Describe
        }),
{
}

/// The prompt of a turn shows the whole history and the current request, and the summary where there
/// is one.
pub proof fn law_prompt_shows_the_session<Q, R, O>(
    s: LoopView<Q, R, O>,
    request: Encoded<Q>,
    briefing: Briefing<Q, R>,
)
    requires
        s.phase == LoopPhase::<Q, O>::Describe(request),
    ensures
        ({
            let step = agent_loop::loop_transition(
                s,
                LoopEvent::<Q, R, O>::Described(briefing),
            );
            let p = PromptView {
                user_prompt: briefing.user_prompt@,
                schema: briefing.schema.deep_view(),
                examples: prompt::texts_of(briefing.examples@),
                summary: s.summary.deep_view(),
                history: prompt::texts_of(s.history),
                extension: briefing.extension.deep_view(),
                current: request.json@,
            };
            step.action matches LoopActionView::Ask(asked) && asked.messages == seq![
                client::system_text(briefing.system_prompt@),
                client::user_text(prompt::prompt_text(p)),
            ]
        }),
{
}

/// An ended loop takes no event.
pub proof fn law_loops_end<Q, R, O>(s: LoopView<Q, R, O>, event: LoopEvent<Q, R, O>)
    requires
        agent_loop::loop_fits(s.phase, event),
    ensures
        ({
            let step = agent_loop::loop_transition(s, event);
            &&& (step.action is Stop || step.action is Fail) <==> step.state.phase is Done
            &&& step.state.phase is Done ==> forall|later: LoopEvent<Q, R, O>|
                !agent_loop::loop_fits(step.state.phase, later)
        }),
{
}

/// What holds of a loop at every point: a turn has begun once a request was taken up, and one was
/// recorded once the controller has a response to deal with.
pub open spec fn is_consistent<Q, R, O>(s: LoopView<Q, R, O>) -> bool {
    match s.phase {
        LoopPhase::Discover => s.fresh,
        LoopPhase::Restore => s.fresh,
        LoopPhase::Summarize => !s.fresh && s.history.len() > 0,
        LoopPhase::Iterate => !s.fresh && s.history.len() > 0,
        LoopPhase::FinalSave(_) => !s.fresh && s.history.len() > 0,
        LoopPhase::Done => true,
        _ => !s.fresh,
    }
}

/// In every run the controller has the response of a turn to deal with, and there is a request to
/// save.
pub proof fn law_controller_sees_a_turn<Q, R, O>(
    config: LoopConfig,
    client: OpenAIClient,
    events: Seq<LoopEvent<Q, R, O>>,
)
    requires
        loop_awaited(agent_loop::loop_started::<Q, R, O>(config, client).state, events),
    ensures
        ({
            let run = loop_ran(agent_loop::loop_started::<Q, R, O>(config, client).state, events);
            &&& is_consistent(run.state)
            &&& events.len() > 0 ==> (run.actions.last() is Save ==> agent_loop::request_of(
                run.state,
            ) is Some)
            &&& events.len() > 0 ==> (run.actions.last() is Iterate ==> run.state.history.len() > 0)
        }),
    decreases events.len(),
{
    if events.len() > 0 {
        law_controller_sees_a_turn(config, client, events.drop_last());
    }
}

/// An answer that stands for no response ends the loop with an error that holds the whole answer, and
/// not only the part in which the response was looked for.
pub proof fn law_error_holds_the_answer<Q, R, O>(
    s: LoopView<Q, R, O>,
    request: Encoded<Q>,
    text: String,
    usage: Option<TokenUsage>,
)
    requires
        s.phase == LoopPhase::<Q, O>::Ask(request),
    ensures
        ({
            let next = agent_loop::loop_transition(
                s,
                LoopEvent::<Q, R, O>::Replied(text, usage),
            ).state;
            agent_loop::loop_transition(next, LoopEvent::<Q, R, O>::ParseFailed).action
                == LoopActionView::<O>::Fail(LoopErrorView::Deserialize(text@))
        }),
{
}

} // verus!

//! What holds of whole runs of the typed loop: each turn is asked with all the turns before it, and
//! the controller sees them all.

use vstd::prelude::*;

use crate::client;
use crate::client::{ChatRequestView, OpenAIClient};
use crate::single_tool::agent_loop;
use crate::single_tool::agent_loop::{
    Briefing, LoopActionView, LoopControl, LoopEvent, LoopPhase, LoopView,
};
use crate::single_tool::config::LoopConfig;
use crate::single_tool::laws;
use crate::single_tool::prompt;
use crate::single_tool::prompt::{Encoded, PromptView, Turn};

verus! {

/// The requests of a run, in order: the one that it begins with, and each that the controller goes on
/// with.
pub open spec fn requests_of<Q, R, O>(events: Seq<LoopEvent<Q, R, O>>) -> Seq<Encoded<Q>>
    decreases events.len(),
{
    if events.len() == 0 {
        Seq::empty()
    } else {
        let before = requests_of(events.drop_last());
        match events.last() {
            LoopEvent::Restored(Some(state), _) => before.push(state.current_request),
            LoopEvent::Restored(None, initial) => before.push(initial),
            LoopEvent::Iterated(LoopControl::Continue(request)) => before.push(request),
            _ => before,
        }
    }
}

/// The responses of a run, in order.
pub open spec fn responses_of<Q, R, O>(events: Seq<LoopEvent<Q, R, O>>) -> Seq<Encoded<R>>
    decreases events.len(),
{
    if events.len() == 0 {
        Seq::empty()
    } else {
        let before = responses_of(events.drop_last());
        match events.last() {
            LoopEvent::Parsed(response) => before.push(response),
            _ => before,
        }
    }
}

/// The turns that a run takes over from a saved state.
pub open spec fn saved_turns<Q, R, O>(events: Seq<LoopEvent<Q, R, O>>) -> Seq<Turn<Q, R>>
    decreases events.len(),
{
    if events.len() == 0 {
        Seq::empty()
    } else {
        match events.last() {
            LoopEvent::Restored(Some(state), _) => state.history@,
            _ => saved_turns(events.drop_last()),
        }
    }
}

/// The summary that a run takes over from a saved state.
pub open spec fn saved_summary<Q, R, O>(events: Seq<LoopEvent<Q, R, O>>) -> Option<String>
    decreases events.len(),
{
    if events.len() == 0 {
        None
    } else {
        match events.last() {
            LoopEvent::Restored(Some(state), _) => state.previous_summary,
            _ => saved_summary(events.drop_last()),
        }
    }
}

/// Each response with the request that it answers.
pub open spec fn answered<Q, R>(requests: Seq<Encoded<Q>>, responses: Seq<Encoded<R>>) -> Seq<
    Turn<Q, R>,
> {
    Seq::new(responses.len(), |i: int| Turn { request: requests[i], response: responses[i] })
}

/// The turns of a run: those that it takes over, and each response with the request that it answers.
pub open spec fn turns_of<Q, R, O>(events: Seq<LoopEvent<Q, R, O>>) -> Seq<Turn<Q, R>> {
    saved_turns(events) + answered(requests_of(events), responses_of(events))
}

/// No summary was made.
pub open spec fn unsummarized<Q, R, O>(events: Seq<LoopEvent<Q, R, O>>) -> bool {
    forall|k: int| 0 <= k < events.len() ==> !((#[trigger] events[k]) is Summarized)
}

/// A state whose requests and responses are these: one request is unanswered during a turn, and none
/// once its response was recorded.
pub open spec fn is_in_turn<Q, R, O>(
    phase: LoopPhase<Q, O>,
    requests: Seq<Encoded<Q>>,
    responses: Seq<Encoded<R>>,
) -> bool {
    match phase {
        LoopPhase::Discover => requests.len() == 0 && responses.len() == 0,
        LoopPhase::Restore => requests.len() == 0 && responses.len() == 0,
        LoopPhase::Save(request) => requests.len() == responses.len() + 1 && requests.last()
            == request,
        LoopPhase::Describe(request) => requests.len() == responses.len() + 1 && requests.last()
            == request,
        LoopPhase::Ask(request) => requests.len() == responses.len() + 1 && requests.last()
            == request,
        LoopPhase::Parse(request, _, _) => requests.len() == responses.len() + 1
            && requests.last() == request,
        LoopPhase::Done => requests.len() >= responses.len(),
        _ => requests.len() == responses.len() && responses.len() > 0,
    }
}

/// Without a summary, the history of a run holds all its turns.
proof fn lemma_run_turns<Q, R, O>(
    config: LoopConfig,
    client: OpenAIClient,
    events: Seq<LoopEvent<Q, R, O>>,
)
    requires
        laws::loop_awaited(agent_loop::loop_started::<Q, R, O>(config, client).state, events),
        unsummarized(events),
    ensures
        ({
            let state = laws::loop_ran(
                agent_loop::loop_started::<Q, R, O>(config, client).state,
                events,
            ).state;
            &&& state.model == client.model_name@
            &&& state.history == turns_of(events)
            &&& state.summary == saved_summary(events)
            &&& is_in_turn(state.phase, requests_of(events), responses_of(events))
            &&& state.phase is Discover || state.phase is Restore ==> saved_turns(events).len() == 0
        }),
    decreases events.len(),
{
    let start = agent_loop::loop_started::<Q, R, O>(config, client).state;
    if events.len() == 0 {
        assert(turns_of(events) =~= Seq::<Turn<Q, R>>::empty());
    } else {
        let less = events.drop_last();
        let last = events.last();
        assert(last == events[events.len() - 1]);
        assert forall|k: int| 0 <= k < less.len() implies !((#[trigger] less[k]) is Summarized) by {
            assert(less[k] == events[k]);
        }
        lemma_run_turns(config, client, less);
        let before = laws::loop_ran(start, less).state;
        let after = agent_loop::loop_transition(before, last).state;
        match last {
            LoopEvent::Restored(saved, initial) => {
                assert(turns_of(events) =~= after.history);
            },
            LoopEvent::Parsed(response) => {
                assert(turns_of(events) =~= after.history);
            },
            LoopEvent::Iterated(LoopControl::Continue(request)) => {
                assert(turns_of(events) =~= turns_of(less));
            },
            _ => {
                assert(turns_of(events) =~= turns_of(less));
            },
        }
    }
}

/// What a run does with the event at position `k` is what it does with it after the events before.
proof fn lemma_loop_at<Q, R, O>(
    s: LoopView<Q, R, O>,
    events: Seq<LoopEvent<Q, R, O>>,
    k: int,
)
    requires
        laws::loop_awaited(s, events),
        0 <= k < events.len(),
    ensures
        ({
            let run = laws::loop_ran(s, events);
            let before = laws::loop_ran(s, events.take(k));
            let step = agent_loop::loop_transition(before.state, events[k]);
            &&& laws::loop_awaited(s, events.take(k))
            &&& laws::loop_awaited(s, events.take(k + 1))
            &&& agent_loop::loop_fits(before.state.phase, events[k])
            &&& run.actions.len() == events.len()
            &&& run.actions[k] == step.action
            &&& laws::loop_ran(s, events.take(k + 1)).state == step.state
        }),
    decreases events.len(),
{
    let less = events.drop_last();
    let n = less.len() as int;
    assert(events.take(k + 1).drop_last() =~= events.take(k));
    assert(events.take(k + 1).last() == events[k]);
    if n > 0 {
        lemma_loop_at(s, less, n - 1);
    }
    if k == n {
        assert(events.take(k) =~= less);
        assert(events.take(k + 1) =~= events);
    } else {
        lemma_loop_at(s, less, k);
        assert(less.take(k) =~= events.take(k));
        assert(less.take(k + 1) =~= events.take(k + 1));
        assert(laws::loop_ran(s, events).actions[k] == laws::loop_ran(s, less).actions[k]);
    }
}

/// The request of a turn that is asked with these turns before it.
pub open spec fn asked_with<Q, R>(
    model: Seq<char>,
    briefing: Briefing<Q, R>,
    summary: Option<String>,
    turns: Seq<Turn<Q, R>>,
    request: Encoded<Q>,
) -> ChatRequestView {
    let p = PromptView {
        user_prompt: briefing.user_prompt@,
        schema: briefing.schema.deep_view(),
        examples: prompt::texts_of(briefing.examples@),
        summary: summary.deep_view(),
        history: prompt::texts_of(turns),
        extension: briefing.extension.deep_view(),
        current: request.json@,
    };
    client::plain_request(
        model,
        seq![
            client::system_text(briefing.system_prompt@),
            client::user_text(prompt::prompt_text(p)),
        ],
        agent_loop::turn_temperature(),
    )
}

/// As long as no summary is made, every turn of a run is asked with its request and all the turns
/// before it, and the controller deals with its response when that turn too is in the history: the
/// `k`-th request is asked with the `k - 1` answered ones, and the `k`-th response is seen with all
/// `k` of them, each behind the turns of a saved state where there was one.
pub proof fn law_turns_are_asked_with_full_history<Q, R, O>(
    config: LoopConfig,
    client: OpenAIClient,
    events: Seq<LoopEvent<Q, R, O>>,
    k: int,
)
    requires
        laws::loop_awaited(agent_loop::loop_started::<Q, R, O>(config, client).state, events),
        unsummarized(events),
        0 <= k < events.len(),
    ensures
        ({
            let start = agent_loop::loop_started::<Q, R, O>(config, client).state;
            let run = laws::loop_ran(start, events);
            let so_far = events.take(k);
            let by_then = events.take(k + 1);
            &&& run.actions.len() == events.len()
            &&& run.actions[k] matches LoopActionView::Ask(asked) ==> {
                &&& events[k] is Described
                &&& requests_of(so_far).len() == responses_of(so_far).len() + 1
                &&& asked == asked_with(
                    client.model_name@,
                    events[k]->Described_0,
                    saved_summary(so_far),
                    turns_of(so_far),
                    requests_of(so_far).last(),
                )
            }
            &&& run.actions[k] is Iterate ==> {
                let seen = laws::loop_ran(start, by_then).state.history;
                &&& seen == turns_of(by_then)
                &&& requests_of(by_then).len() == responses_of(by_then).len()
                &&& seen.last().request == requests_of(by_then).last()
                &&& seen.last().response == responses_of(by_then).last()
            }
        }),
{
    let start = agent_loop::loop_started::<Q, R, O>(config, client).state;
    let so_far = events.take(k);
    let by_then = events.take(k + 1);
    lemma_loop_at(start, events, k);
    assert forall|j: int| 0 <= j < so_far.len() implies !((#[trigger] so_far[j]) is Summarized) by {
        assert(so_far[j] == events[j]);
    }
    assert forall|j: int| 0 <= j < by_then.len() implies !(
    (#[trigger] by_then[j]) is Summarized) by {
        assert(by_then[j] == events[j]);
    }
    lemma_run_turns(config, client, so_far);
    lemma_run_turns(config, client, by_then);
}

} // verus!

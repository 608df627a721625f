//! What holds of whole runs of the multi-tool agent loop: what the model is shown, at which
//! temperature, and which token usage is reported.

use vstd::prelude::*;

use crate::client;
use crate::client::Temperature;
use crate::multi_tool::event::{ActionView, EffectView, EventView};
use crate::multi_tool::laws;
use crate::multi_tool::message::MessageView;
use crate::multi_tool::session;
use crate::multi_tool::session::{SessionView, SetupView};
use crate::usage::TokenUsage;

verus! {

/// What a run does with the event at position `k` is what it does with it after the events before.
proof fn lemma_run_at(setup: SetupView, s: SessionView, events: Seq<EventView>, k: int)
    requires
        laws::awaited(setup, s, events),
        0 <= k < events.len(),
    ensures
        ({
            let run = laws::ran(setup, s, events);
            let before = laws::ran(setup, s, events.take(k));
            let after = laws::ran(setup, s, events.take(k + 1));
            let step = session::transition(setup, before.state, events[k]);
            &&& laws::awaited(setup, s, events.take(k))
            &&& laws::awaited(setup, s, events.take(k + 1))
            &&& session::fits(before.state.phase, events[k])
            &&& run.actions.len() == events.len()
            &&& run.actions[k] == step.action
            &&& after.state == step.state
            &&& after.effects == before.effects + step.effects
            &&& after.effects.is_prefix_of(run.effects)
        }),
    decreases events.len(),
{
    let less = events.drop_last();
    let n = less.len() as int;
    let run = laws::ran(setup, s, events);
    assert(events.take(k + 1).drop_last() =~= events.take(k));
    assert(events.take(k + 1).last() == events[k]);
    if n > 0 {
        lemma_run_at(setup, s, less, n - 1);
    }
    if k == n {
        assert(events.take(k) =~= less);
        assert(events.take(k + 1) =~= events);
    } else {
        lemma_run_at(setup, s, less, k);
        assert(less.take(k) =~= events.take(k));
        assert(less.take(k + 1) =~= events.take(k + 1));
        let before = laws::ran(setup, s, less);
        assert(run.actions[k] == before.actions[k]);
        let part = laws::ran(setup, s, events.take(k + 1)).effects;
        assert(part.is_prefix_of(before.effects));
        assert(part =~= run.effects.take(part.len() as int));
    }
}

/// The messages that an action hands over, if it does.
pub open spec fn handed_over(action: ActionView) -> Option<Seq<MessageView>> {
    match action {
        ActionView::AskCallback(seen) => Some(seen),
        ActionView::AskModel(request, _) => Some(request.messages),
        ActionView::RunRewrite(_, snapshot) => Some(snapshot),
        _ => None,
    }
}

/// What a host holds that stores the system prompt and follows every effect of an invocation, from
/// its start to the end of these events.
pub open spec fn mirror(
    setup: SetupView,
    system_prompt: Seq<char>,
    seed: Seq<MessageView>,
    events: Seq<EventView>,
) -> Seq<MessageView> {
    let start = session::started(system_prompt, seed);
    laws::replay(
        seq![client::system_text(system_prompt)],
        start.effects + laws::ran(setup, start.state, events).effects,
    )
}

/// Whenever a run asks for a turn or runs a rewriting tool, it hands over what a host that follows the
/// effects holds at that point. Every replacement is reported with what such a host holds, and the
/// system prompt is never reported as appended.
pub proof fn law_model_sees_the_mirror(
    setup: SetupView,
    system_prompt: Seq<char>,
    seed: Seq<MessageView>,
    events: Seq<EventView>,
)
    requires
        laws::awaited(setup, session::started(system_prompt, seed).state, events),
    ensures
        ({
            let start = session::started(system_prompt, seed);
            let run = laws::ran(setup, start.state, events);
            &&& forall|k: int|
                0 <= k < events.len() ==> (handed_over(#[trigger] run.actions[k]) matches Some(seen)
                    ==> seen == mirror(setup, system_prompt, seed, events.take(k + 1)))
            &&& run.state.messages == mirror(setup, system_prompt, seed, events)
            &&& laws::replaces_faithfully(
                seq![client::system_text(system_prompt)],
                start.effects + run.effects,
            )
            &&& start.effects == session::pushes(seed)
            &&& laws::pushes_no_system(run.effects)
        }),
{
    let start = session::started(system_prompt, seed);
    let run = laws::ran(setup, start.state, events);
    let system = seq![client::system_text(system_prompt)];
    laws::law_invocation_mirrors_history(setup, system_prompt, seed, events);
    laws::law_run_mirrors_history(setup, start.state, events);
    assert forall|k: int| 0 <= k < events.len() implies (handed_over(#[trigger] run.actions[k])
        matches Some(seen) ==> seen == mirror(setup, system_prompt, seed, events.take(k + 1))) by {
        lemma_run_at(setup, start.state, events, k);
        let before = laws::ran(setup, start.state, events.take(k));
        laws::lemma_step(setup, before.state, events[k]);
        laws::law_invocation_mirrors_history(setup, system_prompt, seed, events.take(k + 1));
    }
    let all = start.effects + run.effects;
    let n = start.effects.len() as int;
    assert forall|k: int| 0 <= k < all.len() implies ((#[trigger] all[k]) matches
        EffectView::Replaced(old_messages, _) ==> old_messages == laws::replay(
        system,
        all.take(k),
    )) by {
        if k >= n {
            assert(all[k] == run.effects[k - n]);
            assert(all.take(k) =~= start.effects + run.effects.take(k - n));
            laws::lemma_replay_concat(system, start.effects, run.effects.take(k - n));
            laws::lemma_replay_pushes(system, seed);
        } else {
            assert(all[k] == start.effects[k]);
        }
    }
    lemma_run_pushes_no_system(setup, start.state, events);
}

/// A run appends no system message.
proof fn lemma_run_pushes_no_system(setup: SetupView, s: SessionView, events: Seq<EventView>)
    requires
        laws::awaited(setup, s, events),
    ensures
        laws::pushes_no_system(laws::ran(setup, s, events).effects),
    decreases events.len(),
{
    if events.len() > 0 {
        let before = laws::ran(setup, s, events.drop_last());
        let step = session::transition(setup, before.state, events.last());
        let all = before.effects + step.effects;
        let n = before.effects.len() as int;
        lemma_run_pushes_no_system(setup, s, events.drop_last());
        laws::lemma_step(setup, before.state, events.last());
        assert forall|k: int| 0 <= k < all.len() implies ((#[trigger] all[k]) matches
            EffectView::Pushed(m) ==> !(m is System)) by {
            if k < n {
                assert(all[k] == before.effects[k]);
            } else {
                assert(all[k] == step.effects[k - n]);
            }
        }
    }
}

/// The last temperature that the user set in the events, and one half where there is none.
pub open spec fn last_temperature(events: Seq<EventView>) -> Temperature
    decreases events.len(),
{
    if events.len() == 0 {
        Temperature { bits: session::INITIAL_TEMPERATURE_BITS }
    } else {
        laws::temperature_after(last_temperature(events.drop_last()), events.last())
    }
}

/// The temperature of a run is the last one that the user set.
proof fn lemma_run_temperature(
    setup: SetupView,
    system_prompt: Seq<char>,
    seed: Seq<MessageView>,
    events: Seq<EventView>,
)
    requires
        laws::awaited(setup, session::started(system_prompt, seed).state, events),
    ensures
        laws::ran(
            setup,
            session::started(system_prompt, seed).state,
            events,
        ).state.temperature == last_temperature(events),
    decreases events.len(),
{
    if events.len() > 0 {
        let start = session::started(system_prompt, seed).state;
        lemma_run_temperature(setup, system_prompt, seed, events.drop_last());
        laws::lemma_step(
            setup,
            laws::ran(setup, start, events.drop_last()).state,
            events.last(),
        );
    }
}

/// Every request of a run carries the last temperature that the user set before it, one half where
/// there was none.
pub proof fn law_requests_carry_last_temperature(
    setup: SetupView,
    system_prompt: Seq<char>,
    seed: Seq<MessageView>,
    events: Seq<EventView>,
)
    requires
        laws::awaited(setup, session::started(system_prompt, seed).state, events),
    ensures
        ({
            let run = laws::ran(setup, session::started(system_prompt, seed).state, events);
            &&& run.state.temperature == last_temperature(events)
            &&& forall|k: int|
                0 <= k < events.len() ==> ((#[trigger] run.actions[k]) matches ActionView::AskModel(
                    request,
                    _,
                ) ==> request.temperature == last_temperature(events.take(k)))
        }),
{
    let start = session::started(system_prompt, seed).state;
    let run = laws::ran(setup, start, events);
    lemma_run_temperature(setup, system_prompt, seed, events);
    assert forall|k: int| 0 <= k < events.len() implies ((#[trigger] run.actions[k]) matches
        ActionView::AskModel(request, _) ==> request.temperature == last_temperature(
        events.take(k),
    )) by {
        lemma_run_at(setup, start, events, k);
        lemma_run_temperature(setup, system_prompt, seed, events.take(k));
        laws::law_temperature_is_the_users(
            setup,
            laws::ran(setup, start, events.take(k)).state,
            events[k],
        );
    }
}

/// The usages that the model's answers brought, in order.
pub open spec fn all_usages(events: Seq<EventView>) -> Seq<TokenUsage>
    decreases events.len(),
{
    if events.len() == 0 {
        Seq::empty()
    } else {
        all_usages(events.drop_last()) + laws::brought_usages(events.last())
    }
}

/// The usages that a run reports are exactly those that the model's answers brought, in order, each
/// once.
pub proof fn law_run_reports_usages_in_order(
    setup: SetupView,
    s: SessionView,
    events: Seq<EventView>,
)
    requires
        laws::awaited(setup, s, events),
    ensures
        laws::usages_told(laws::ran(setup, s, events).effects) == all_usages(events),
    decreases events.len(),
{
    if events.len() > 0 {
        let before = laws::ran(setup, s, events.drop_last());
        let step = session::transition(setup, before.state, events.last());
        law_run_reports_usages_in_order(setup, s, events.drop_last());
        laws::lemma_step(setup, before.state, events.last());
        laws::lemma_usages_concat(before.effects, step.effects);
    }
}

/// The start of an invocation reports no usage, so that an invocation reports exactly the usages that
/// the model's answers brought.
pub proof fn law_invocation_reports_usages_in_order(
    setup: SetupView,
    system_prompt: Seq<char>,
    seed: Seq<MessageView>,
    events: Seq<EventView>,
)
    requires
        laws::awaited(setup, session::started(system_prompt, seed).state, events),
    ensures
        ({
            let start = session::started(system_prompt, seed);
            let run = laws::ran(setup, start.state, events);
            laws::usages_told(start.effects + run.effects) == all_usages(events)
        }),
{
    let start = session::started(system_prompt, seed);
    let run = laws::ran(setup, start.state, events);
    laws::lemma_no_usages(start.effects);
    laws::lemma_usages_concat(start.effects, run.effects);
    law_run_reports_usages_in_order(setup, start.state, events);
    assert(Seq::<TokenUsage>::empty() + all_usages(events) =~= all_usages(events));
}

} // verus!

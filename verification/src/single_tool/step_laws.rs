//! What each step of the typed loop does, and what it leaves as it is.

use vstd::prelude::*;

use crate::client::{ChatRequestView, OpenAIClient};
use crate::fences;
use crate::multi_tool::message::{MessageView, TextContentView, UserContentView};
use crate::single_tool::agent_loop;
use crate::single_tool::agent_loop::{
    Briefing, Budget, LoopAction, LoopActionView, LoopControl, LoopError, LoopErrorView, LoopEvent,
    LoopPhase, LoopStepView, LoopView, RestoreState, SavePoint, TypedLoop,
};
use crate::single_tool::config::{CompactPolicy, LoopConfig};
use crate::single_tool::prompt;
use crate::single_tool::prompt::{Encoded, PromptView, Turn};
use crate::single_tool::prompt_laws;
use crate::text;
use crate::usage::TokenUsage;

verus! {

/// A loop is judged by all that it holds.
pub proof fn law_loop_is_all_it_holds<Q, R, O>(l: TypedLoop<Q, R, O>)
    ensures
        l@.model == l.model@,
        l@.window == l.window,
        l@.budget == l.budget,
        l@.fresh == l.fresh,
        l@.history == l.history@,
        l@.summary == l.summary,
        l@.phase == l.phase,
{
}

/// What the host is asked to do is told apart by all that it is handed.
pub proof fn law_loop_actions_are_all_they_hold<O>(a: LoopAction<O>)
    ensures
        match a {
            LoopAction::Discover => a@ is Discover,
            LoopAction::Restore => a@ is Restore,
            LoopAction::Save(point) => a@ == LoopActionView::<O>::Save(point),
            LoopAction::Describe => a@ is Describe,
            LoopAction::Ask(request) => a@ == LoopActionView::<O>::Ask(request.deep_view()),
            LoopAction::Parse(json) => a@ == LoopActionView::<O>::Parse(json@),
            LoopAction::Summarize(request) => a@ == LoopActionView::<O>::Summarize(
                request.deep_view(),
            ),
            LoopAction::Iterate => a@ is Iterate,
            LoopAction::Stop(output) => a@ == LoopActionView::<O>::Stop(output),
            LoopAction::Fail(LoopError::Chat(text)) => a@ == LoopActionView::<O>::Fail(
                LoopErrorView::Chat(text@),
            ),
            LoopAction::Fail(LoopError::Deserialize(text)) => a@ == LoopActionView::<O>::Fail(
                LoopErrorView::Deserialize(text@),
            ),
            LoopAction::Fail(LoopError::TooManyIterations(max)) => a@ == LoopActionView::<O>::Fail(
                LoopErrorView::TooManyIterations(max),
            ),
        },
{
}

/// A loop begins without turns and without a summary, with as many turns left as it may take, and with
/// the window that the policy gives, that the client knows, or that the server is then asked for. It
/// asks the model of the client.
pub proof fn law_loop_begins<Q, R, O>(config: LoopConfig, client: OpenAIClient)
    ensures
        ({
            let start = agent_loop::loop_started::<Q, R, O>(config, client);
            let discovers = config.compact_policy == CompactPolicy::Discover
                && client.max_context_tokens is None;
            &&& start.state.model == client.model_name@
            &&& start.state.history.len() == 0
            &&& start.state.summary is None
            &&& start.state.fresh
            &&& match config.max_iterations {
                Some(max) => start.state.budget == Some(Budget { left: max, max }),
                None => start.state.budget is None,
            }
            &&& match config.compact_policy {
                CompactPolicy::Discover => start.state.window == client.max_context_tokens,
                CompactPolicy::NoCompact => start.state.window is None,
                CompactPolicy::Override(window) => start.state.window == Some(window),
            }
            &&& discovers ==> start.action is Discover && start.state.phase is Discover
            &&& !discovers ==> start.action is Restore && start.state.phase is Restore
        }),
{
}

/// The loop waits for exactly these events.
pub proof fn law_loop_waits_for<Q, R, O>(phase: LoopPhase<Q, O>, event: LoopEvent<Q, R, O>)
    ensures
        agent_loop::loop_fits(phase, event) <==> match event {
            LoopEvent::Discovered(_) => phase is Discover,
            LoopEvent::DiscoveryFailed => phase is Discover,
            LoopEvent::Restored(_, _) => phase is Restore,
            LoopEvent::Saved => phase is Save || phase is FinalSave,
            LoopEvent::Described(_) => phase is Describe,
            LoopEvent::Replied(_, _) => phase is Ask,
            LoopEvent::ChatFailed(_) => phase is Ask,
            LoopEvent::Parsed(_) => phase is Parse,
            LoopEvent::ParseFailed => phase is Parse,
            LoopEvent::Summarized(_) => phase is Summarize,
            LoopEvent::SummaryFailed => phase is Summarize,
            LoopEvent::Iterated(_) => phase is Iterate,
        },
{
}

/// The step leaves the model, the window, the limit, the turns and the summary as they are.
pub open spec fn only_moves<Q, R, O>(
    s: LoopView<Q, R, O>,
    step: LoopStepView<Q, R, O>,
    phase: LoopPhase<Q, O>,
) -> bool {
    &&& step.state.model == s.model
    &&& step.state.window == s.window
    &&& step.state.budget == s.budget
    &&& step.state.fresh == s.fresh
    &&& step.state.history == s.history
    &&& step.state.summary == s.summary
    &&& step.state.phase == phase
}

/// The window that the server gives is taken as it is, and none where it gives none or cannot be
/// asked. Then the saved state is asked for.
pub proof fn law_window_of_the_server_is_taken<Q, R, O>(
    s: LoopView<Q, R, O>,
    event: LoopEvent<Q, R, O>,
)
    requires
        s.phase is Discover,
        agent_loop::loop_fits(s.phase, event),
    ensures
        ({
            let step = agent_loop::loop_transition(s, event);
            &&& step.state.window == (match event {
                LoopEvent::Discovered(window) => window,
                _ => None,
            })
            &&& only_moves(
                LoopView { window: step.state.window, ..s },
                step,
                LoopPhase::<Q, O>::Restore,
            )
            &&& step.action is Restore
        }),
{
}

/// The turn of a request begins, or the loop fails where no turn is left. Each turn takes one off the
/// limit. The first turn of a loop is described at once; before any other the state is saved.
pub open spec fn begins_turn<Q, R, O>(
    s: LoopView<Q, R, O>,
    step: LoopStepView<Q, R, O>,
    request: Encoded<Q>,
) -> bool {
    &&& step.state.model == s.model
    &&& step.state.window == s.window
    &&& step.state.history == s.history
    &&& step.state.summary == s.summary
    &&& if s.budget is Some && s.budget->0.left == 0 {
        &&& step.action == LoopActionView::<O>::Fail(
            LoopErrorView::TooManyIterations(s.budget->0.max),
        )
        &&& step.state.phase is Done
    } else {
        &&& s.budget is None ==> step.state.budget is None
        &&& s.budget matches Some(b) ==> (step.state.budget matches Some(c) && c.left == b.left - 1
            && c.max == b.max)
        &&& !step.state.fresh
        &&& if s.fresh {
            step.action is Describe && step.state.phase == LoopPhase::<Q, O>::Describe(request)
        } else {
            step.action == LoopActionView::<O>::Save(SavePoint::Continue) && step.state.phase
                == LoopPhase::<Q, O>::Save(request)
        }
    }
}

/// A loop without a saved state begins with the initial request, and one with a saved state with the
/// turns, the summary and the request that were saved, all of them.
pub proof fn law_loop_takes_up_its_state<Q, R, O>(
    s: LoopView<Q, R, O>,
    saved: Option<RestoreState<Q, R>>,
    initial: Encoded<Q>,
)
    requires
        s.phase is Restore,
    ensures
        ({
            let step = agent_loop::loop_transition(
                s,
                LoopEvent::<Q, R, O>::Restored(saved, initial),
            );
            match saved {
                Some(state) => begins_turn(
                    LoopView { history: state.history@, summary: state.previous_summary, ..s },
                    step,
                    state.current_request,
                ),
                None => begins_turn(s, step, initial),
            }
        }),
{
}

/// The request of the controller begins the next turn, and its output ends the loop once the state was
/// saved for the last time.
pub proof fn law_controller_decides<Q, R, O>(s: LoopView<Q, R, O>, control: LoopControl<Q, O>)
    requires
        s.phase is Iterate,
    ensures
        ({
            let step = agent_loop::loop_transition(s, LoopEvent::<Q, R, O>::Iterated(control));
            match control {
                LoopControl::Continue(request) => begins_turn(s, step, request),
                LoopControl::Stop(output) => step.action == LoopActionView::<O>::Save(
                    SavePoint::Final,
                ) && only_moves(s, step, LoopPhase::<Q, O>::FinalSave(output)),
            }
        }),
{
}

/// Once the state is saved, the turn that it was saved for is described, or the loop ends with the
/// output that it was saved for.
pub proof fn law_loop_goes_on_when_saved<Q, R, O>(s: LoopView<Q, R, O>)
    requires
        s.phase is Save || s.phase is FinalSave,
    ensures
        ({
            let step = agent_loop::loop_transition(s, LoopEvent::<Q, R, O>::Saved);
            &&& s.phase matches LoopPhase::Save(request) ==> step.action is Describe && only_moves(
                s,
                step,
                LoopPhase::<Q, O>::Describe(request),
            )
            &&& s.phase matches LoopPhase::FinalSave(output) ==> step.action
                == LoopActionView::<O>::Stop(output) && only_moves(
                s,
                step,
                LoopPhase::<Q, O>::Done,
            )
        }),
{
}

/// The prompt of a turn: the instructions, the schema, the examples and the context of the agent, the
/// summary and all the turns of the loop, and the request.
pub open spec fn full_prompt<Q, R, O>(
    s: LoopView<Q, R, O>,
    request: Encoded<Q>,
    briefing: Briefing<Q, R>,
) -> Seq<char> {
    let texts = |turns: Seq<Turn<Q, R>>|
        turns.map_values(
            |t: Turn<Q, R>|
                prompt::TurnTexts { request: t.request.json@, response: t.response.json@ },
        );
    briefing.user_prompt@ + "\n"@ + prompt_laws::below(
        "## JSON SCHEMA\n"@,
        prompt_laws::line_of(briefing.schema.deep_view()),
    ) + prompt_laws::below(
        "## EXAMPLES\n\n"@,
        prompt_laws::shown_examples(texts(briefing.examples@)),
    ) + prompt_laws::below(
        "## PREVIOUS SESSIONS SUMMARY\n"@,
        prompt_laws::line_of(s.summary.deep_view()),
    ) + prompt_laws::below(
        "## CONVERSATION HISTORY\n\n"@,
        prompt_laws::shown_turns(texts(s.history)),
    ) + prompt_laws::below(
        "## ADDITIONAL CONTEXT\n"@,
        prompt_laws::line_of(briefing.extension.deep_view()),
    ) + "## CURRENT INPUT (JSON):\n"@ + request.json@ + "\n"@
}

/// A conversation of a system prompt and a user prompt, without tools, at six tenths.
pub open spec fn is_plain_request(
    request: ChatRequestView,
    model: Seq<char>,
    system: Seq<char>,
    user: Seq<char>,
) -> bool {
    &&& request.model == model
    &&& request.messages.len() == 2
    &&& request.messages[0] == MessageView::System(TextContentView::Text(system), None)
    &&& request.messages[1] == MessageView::User(UserContentView::Text(user), None)
    &&& request.temperature.bits == 0x3f19_999a
    &&& request.tools is None
    &&& request.parallel_tool_calls is None
}

/// A turn asks the model with the system prompt of the agent and with all that its prompt holds.
pub proof fn law_turn_asks_with_everything<Q, R, O>(
    s: LoopView<Q, R, O>,
    request: Encoded<Q>,
    briefing: Briefing<Q, R>,
)
    requires
        s.phase == LoopPhase::<Q, O>::Describe(request),
    ensures
        ({
            let step = agent_loop::loop_transition(
                s,
                LoopEvent::<Q, R, O>::Described(briefing),
            );
            &&& only_moves(s, step, LoopPhase::<Q, O>::Ask(request))
            &&& step.action matches LoopActionView::Ask(asked) && is_plain_request(
                asked,
                s.model,
                briefing.system_prompt@,
                full_prompt(s, request, briefing),
            )
        }),
{
    let p = PromptView {
        user_prompt: briefing.user_prompt@,
        schema: briefing.schema.deep_view(),
        examples: prompt::texts_of(briefing.examples@),
        summary: s.summary.deep_view(),
        history: prompt::texts_of(s.history),
        extension: briefing.extension.deep_view(),
        current: request.json@,
    };
    prompt_laws::law_prompt_holds_all_parts(p);
    let texts = |turns: Seq<Turn<Q, R>>|
        turns.map_values(
            |t: Turn<Q, R>|
                prompt::TurnTexts { request: t.request.json@, response: t.response.json@ },
        );
    assert(texts(briefing.examples@) =~= p.examples);
    assert(texts(s.history) =~= p.history);
}

/// The JSON in the model's answer is looked for a response, and the answer is kept for the report.
pub proof fn law_answer_is_read<Q, R, O>(
    s: LoopView<Q, R, O>,
    request: Encoded<Q>,
    answer: String,
    usage: Option<TokenUsage>,
)
    requires
        s.phase == LoopPhase::<Q, O>::Ask(request),
    ensures
        ({
            let step = agent_loop::loop_transition(
                s,
                LoopEvent::<Q, R, O>::Replied(answer, usage),
            );
            &&& only_moves(s, step, LoopPhase::<Q, O>::Parse(request, answer, usage))
            &&& step.action == LoopActionView::<O>::Parse(fences::json_of(answer@))
        }),
{
}

/// A request that failed, and an answer that stands for no response, end the loop with their text.
pub proof fn law_failures_end_the_loop<Q, R, O>(
    s: LoopView<Q, R, O>,
    event: LoopEvent<Q, R, O>,
)
    requires
        agent_loop::loop_fits(s.phase, event),
        event is ChatFailed || event is ParseFailed,
    ensures
        ({
            let step = agent_loop::loop_transition(s, event);
            &&& only_moves(s, step, LoopPhase::<Q, O>::Done)
            &&& event matches LoopEvent::ChatFailed(text) ==> step.action
                == LoopActionView::<O>::Fail(LoopErrorView::Chat(text@))
            &&& event is ParseFailed ==> (s.phase matches LoopPhase::Parse(_, answer, _)
                && step.action == LoopActionView::<O>::Fail(LoopErrorView::Deserialize(answer@)))
        }),
{
}

/// A response is recorded as the latest turn, with its request, behind all the turns before it. Where
/// the prompt took at least three quarters of the window, the model is asked for a summary of all the
/// turns, of about a quarter of the window; else the controller deals with the response.
pub proof fn law_response_is_recorded<Q, R, O>(
    s: LoopView<Q, R, O>,
    request: Encoded<Q>,
    answer: String,
    usage: Option<TokenUsage>,
    response: Encoded<R>,
)
    requires
        s.phase == LoopPhase::<Q, O>::Parse(request, answer, usage),
    ensures
        ({
            let step = agent_loop::loop_transition(s, LoopEvent::<Q, R, O>::Parsed(response));
            let turns = s.history.push(Turn { request, response });
            let t = LoopView { history: turns, ..s };
            let texts = turns.map_values(
                |t: Turn<Q, R>|
                    prompt::TurnTexts { request: t.request.json@, response: t.response.json@ },
            );
            if usage is Some && s.window is Some && 4 * usage->0.prompt_tokens >= 3 * s.window->0 {
                &&& only_moves(t, step, LoopPhase::<Q, O>::Summarize)
                &&& step.action matches LoopActionView::Summarize(asked) && is_plain_request(
                    asked,
                    s.model,
                    "You summarize sessions of an agent so that it can go on from the summary."@,
                    prompt_laws::below(
                        "## PREVIOUS SESSIONS SUMMARY\n"@,
                        prompt_laws::line_of(s.summary.deep_view()),
                    ) + prompt_laws::below(
                        "## CONVERSATION HISTORY\n\n"@,
                        prompt_laws::shown_turns(texts),
                    ) + "Summarize the session above in about "@ + text::decimal(
                        (s.window->0 as nat) / 4,
                    )
                        + " tokens. Keep what is needed to go on: the task, what was decided and found, and what is left to do.\n"@,
                )
            } else {
                step.action is Iterate && only_moves(t, step, LoopPhase::<Q, O>::Iterate)
            }
        }),
{
    let turns = s.history.push(Turn { request, response });
    if s.window is Some {
        prompt_laws::law_summary_prompt_shows_the_session(
            s.summary.deep_view(),
            prompt::texts_of(turns),
            s.window->0 as nat,
        );
    }
    assert(prompt::texts_of(turns) =~= turns.map_values(
        |t: Turn<Q, R>|
            prompt::TurnTexts { request: t.request.json@, response: t.response.json@ },
    ));
}

/// A summary takes the place of all but the three latest turns, which stay as they are, and a summary
/// that failed changes nothing. Then the controller deals with the response.
pub proof fn law_summary_is_taken<Q, R, O>(s: LoopView<Q, R, O>, event: LoopEvent<Q, R, O>)
    requires
        s.phase is Summarize,
        agent_loop::loop_fits(s.phase, event),
    ensures
        ({
            let step = agent_loop::loop_transition(s, event);
            let n = s.history.len();
            &&& step.action is Iterate
            &&& event is SummaryFailed ==> only_moves(s, step, LoopPhase::<Q, O>::Iterate)
            &&& event matches LoopEvent::Summarized(summary) ==> only_moves(
                LoopView {
                    history: s.history.skip(
                        if n > 3 {
                            n - 3
                        } else {
                            0
                        },
                    ),
                    summary: Some(summary),
                    ..s
                },
                step,
                LoopPhase::<Q, O>::Iterate,
            )
        }),
{
    assert(s.history.skip(0) =~= s.history);
}

/// The request to save is that of the turn that has begun, and else that of the latest turn.
pub proof fn law_current_request<Q, R, O>(s: LoopView<Q, R, O>)
    ensures
        ({
            let current = agent_loop::request_of(s);
            &&& s.phase matches LoopPhase::Save(request) ==> current == Some(request)
            &&& s.phase matches LoopPhase::Describe(request) ==> current == Some(request)
            &&& s.phase matches LoopPhase::Ask(request) ==> current == Some(request)
            &&& s.phase matches LoopPhase::Parse(request, _, _) ==> current == Some(request)
            &&& !(s.phase is Save || s.phase is Describe || s.phase is Ask || s.phase is Parse)
                ==> if s.history.len() > 0 {
                current == Some(s.history[s.history.len() - 1].request)
            } else {
                current is None
            }
        }),
{
}

/// The texts of the errors with which a loop ends.
pub proof fn law_loop_error_texts(text: Seq<char>, max: usize)
    ensures
        agent_loop::loop_error_text(LoopErrorView::Chat(text)) == "LLM chat call failed: "@ + text,
        agent_loop::loop_error_text(LoopErrorView::Deserialize(text))
            == "failed to deserialize LLM response: "@ + text,
        agent_loop::loop_error_text(LoopErrorView::TooManyIterations(max))
            == "too many iterations (max "@ + text::decimal(max as nat) + ")"@,
{
}

} // verus!

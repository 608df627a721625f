//! What the contracts speak of is all that the values hold: no text is cut and no part is left out.

use vstd::prelude::*;

use crate::client::ChatRequest;
use crate::json;
use crate::multi_tool::call_laws;
use crate::multi_tool::event;
use crate::multi_tool::event::{
    Action, ActionView, Effect, EffectView, Event, EventView, Outcome, RewriteOutcome,
    RewriteOutcomeView, RunError, RunErrorView, UserRequest, UserRequestView,
};
use crate::multi_tool::message::{
    AssistantContent, AssistantContentView, AssistantPart, AssistantPartView, FunctionCall,
    FunctionCallView, Message, MessageView, TextContent, TextContentView, ToolCall, ToolCallView,
    UserContent, UserContentView, UserPart, UserPartView,
};
use crate::multi_tool::reply;
use crate::multi_tool::reply::{AssistantReply, AssistantReplyView};
use crate::multi_tool::session::{Phase, PhaseView, Session};
use crate::multi_tool::tool;
use crate::multi_tool::tool::{Tool, ToolError, ToolErrorView, ToolView};

verus! {

/// The characters of a text, where there is one.
pub open spec fn characters(text: Option<String>) -> Option<Seq<char>> {
    match text {
        Some(s) => Some(s@),
        None => None,
    }
}

/// The content of a message is told apart by all its parts and their texts.
pub proof fn law_contents_are_all_they_hold(
    text: TextContent,
    user: UserContent,
    part: UserPart,
    assistant: AssistantContent,
    spoken: AssistantPart,
)
    ensures
        match text {
            TextContent::Text(s) => text.deep_view() == TextContentView::Text(s@),
            TextContent::Array(parts) => text.deep_view() matches TextContentView::Array(seen)
                && seen.len() == parts@.len() && (forall|k: int|
                0 <= k < parts@.len() ==> seen[k] == (#[trigger] parts@[k])@),
        },
        match user {
            UserContent::Text(s) => user.deep_view() == UserContentView::Text(s@),
            UserContent::Array(parts) => user.deep_view() matches UserContentView::Array(seen)
                && seen.len() == parts@.len() && (forall|k: int|
                0 <= k < parts@.len() ==> seen[k] == (#[trigger] parts@[k]).deep_view()),
        },
        match part {
            UserPart::Text(s) => part.deep_view() == UserPartView::Text(s@),
            UserPart::ImageUrl(url, detail) => part.deep_view() == UserPartView::ImageUrl(
                url@,
                detail,
            ),
            UserPart::InputAudio(data, format) => part.deep_view() == UserPartView::InputAudio(
                data@,
                format,
            ),
        },
        match assistant {
            AssistantContent::Text(s) => assistant.deep_view() == AssistantContentView::Text(s@),
            AssistantContent::Array(parts) => assistant.deep_view() matches
                AssistantContentView::Array(seen) && seen.len() == parts@.len() && (forall|k: int|
                0 <= k < parts@.len() ==> seen[k] == (#[trigger] parts@[k]).deep_view()),
        },
        match spoken {
            AssistantPart::Text(s) => spoken.deep_view() == AssistantPartView::Text(s@),
            AssistantPart::Refusal(s) => spoken.deep_view() == AssistantPartView::Refusal(s@),
        },
{
}

/// The function that is called, where there is one.
pub open spec fn function_of(call: Option<FunctionCall>) -> Option<FunctionCallView> {
    match call {
        Some(f) => Some(FunctionCallView { name: f.name@, arguments: f.arguments@ }),
        None => None,
    }
}

/// These calls are seen, each with its identifier, its function and its arguments.
pub open spec fn sees_calls(
    calls: Option<Vec<ToolCall>>,
    seen: Option<Seq<ToolCallView>>,
) -> bool {
    match calls {
        None => seen is None,
        Some(all) => seen matches Some(views) && views.len() == all@.len() && (forall|k: int|
            0 <= k < all@.len() ==> views[k].id == (#[trigger] all@[k]).id@
                && views[k].function.name == all@[k].function.name@ && views[k].function.arguments
                == all@[k].function.arguments@),
    }
}

/// A message is told apart by who speaks, what is said, and all that comes with it.
pub proof fn law_messages_are_all_they_hold(m: Message)
    ensures
        match m {
            Message::Developer(content, name) => m.deep_view() == MessageView::Developer(
                content.deep_view(),
                characters(name),
            ),
            Message::System(content, name) => m.deep_view() == MessageView::System(
                content.deep_view(),
                characters(name),
            ),
            Message::User(content, name) => m.deep_view() == MessageView::User(
                content.deep_view(),
                characters(name),
            ),
            Message::Assistant(turn) => m.deep_view() matches MessageView::Assistant(seen) && {
                &&& seen.content == (match turn.content {
                    Some(content) => Some(content.deep_view()),
                    None => None,
                })
                &&& seen.refusal == characters(turn.refusal)
                &&& seen.name == characters(turn.name)
                &&& seen.audio == characters(turn.audio)
                &&& sees_calls(turn.tool_calls, seen.tool_calls)
                &&& seen.function_call == function_of(turn.function_call)
            },
            Message::Tool(content, id) => m.deep_view() == MessageView::Tool(
                content.deep_view(),
                id@,
            ),
            Message::Function(content, name) => m.deep_view() == MessageView::Function(
                characters(content),
                name@,
            ),
        },
{
}

/// A reply is told apart by all that it holds.
pub proof fn law_replies_are_all_they_hold(r: AssistantReply)
    ensures
        ({
            let seen = r.deep_view();
            &&& seen.content == characters(r.content)
            &&& seen.refusal == characters(r.refusal)
            &&& sees_calls(r.tool_calls, seen.tool_calls)
            &&& seen.role == r.role
            &&& seen.function_call == function_of(r.function_call)
            &&& match r.audio {
                Some(a) => seen.audio matches Some(b) && b.id == a.id@ && b.expires_at
                    == a.expires_at && b.data == a.data@ && b.transcript == a.transcript@,
                None => seen.audio is None,
            }
        }),
{
}

/// What is reported is told apart by all that the report holds: a handler's result is its whole text,
/// and its error the whole text of the error.
pub proof fn law_events_are_all_they_hold(e: Event)
    ensures
        match e {
            Event::Closed(closed) => e.deep_view() == EventView::Closed(closed),
            Event::Polled(request) => e.deep_view() == EventView::Polled(seen_request(request)),
            Event::Received(request) => e.deep_view() == EventView::Received(
                seen_request(request),
            ),
            Event::Idled(error) => e.deep_view() == EventView::Idled(characters(error)),
            Event::Said(error) => e.deep_view() == EventView::Said(characters(error)),
            Event::CallbackReplied(r) => e.deep_view() == EventView::CallbackReplied(r.deep_view()),
            Event::CallbackFailed(text) => e.deep_view() == EventView::CallbackFailed(text@),
            Event::ModelReplied(r, usage) => e.deep_view() == EventView::ModelReplied(
                r.deep_view(),
                usage,
            ),
            Event::ModelFailed(text) => e.deep_view() == EventView::ModelFailed(text@),
            Event::ParallelDone(outcomes) => e.deep_view() matches EventView::ParallelDone(seen)
                && seen.len() == outcomes@.len() && (forall|k: int|
                0 <= k < outcomes@.len() ==> seen[k] == (match #[trigger] outcomes@[k] {
                    Some(o) => Some(seen_outcome(o)),
                    None => None,
                })),
            Event::ToolDone(outcome) => e.deep_view() == EventView::ToolDone(
                seen_outcome(outcome),
            ),
            Event::Rewritten(outcome) => e.deep_view() == EventView::Rewritten(
                match outcome {
                    RewriteOutcome::Done(text, messages) => RewriteOutcomeView::Done(
                        text@,
                        messages.deep_view(),
                    ),
                    RewriteOutcome::Failed(text) => RewriteOutcomeView::Failed(text@),
                },
            ),
        },
{
}

/// A request of the user, as it is seen.
pub open spec fn seen_request(request: Option<UserRequest>) -> Option<UserRequestView> {
    match request {
        Some(UserRequest::Message(content)) => Some(UserRequestView::Message(content.deep_view())),
        Some(UserRequest::ChangeTemperature(t)) => Some(UserRequestView::ChangeTemperature(t)),
        Some(UserRequest::Exit) => Some(UserRequestView::Exit),
        None => None,
    }
}

/// How a handler ended, as it is seen.
pub open spec fn seen_outcome(outcome: Outcome) -> Result<Seq<char>, ToolErrorView> {
    match outcome {
        Outcome::Done(text) => Ok(text@),
        Outcome::Failed(text) => Err(ToolErrorView::Handler(text@)),
    }
}

/// What the host is asked to do is told apart by all that it is handed.
pub proof fn law_actions_are_all_they_hold(a: Action)
    ensures
        match a {
            Action::CheckClosed => a.deep_view() is CheckClosed,
            Action::TryReceive => a.deep_view() is TryReceive,
            Action::Receive => a.deep_view() is Receive,
            Action::Idle => a.deep_view() is Idle,
            Action::Say(text) => a.deep_view() == ActionView::Say(text@),
            Action::AskCallback(messages) => a.deep_view() == ActionView::AskCallback(
                messages.deep_view(),
            ),
            Action::AskModel(request, retry) => a.deep_view() == ActionView::AskModel(
                request.deep_view(),
                retry,
            ),
            Action::RunParallel(jobs) => a.deep_view() matches ActionView::RunParallel(seen)
                && seen.len() == jobs@.len() && (forall|k: int|
                0 <= k < jobs@.len() ==> (match #[trigger] jobs@[k] {
                    Some(job) => seen[k] matches Some(view) && view.tool == job.tool && view.args
                        == job.args,
                    None => seen[k] is None,
                })),
            Action::RunTool(job) => a.deep_view() matches ActionView::RunTool(view) && view.tool
                == job.tool && view.args == job.args,
            Action::RunRewrite(job, messages) => a.deep_view() matches ActionView::RunRewrite(
                view,
                seen,
            ) && view.tool == job.tool && view.args == job.args && seen == messages.deep_view(),
            Action::Finish(error) => a.deep_view() == ActionView::Finish(
                match error {
                    None => None,
                    Some(RunError::NoInferenceCallback) => Some(RunErrorView::NoInferenceCallback),
                    Some(RunError::NoClient) => Some(RunErrorView::NoClient),
                    Some(RunError::InferenceCallback(text)) => Some(
                        RunErrorView::InferenceCallback(text@),
                    ),
                    Some(RunError::Model(text)) => Some(RunErrorView::Model(text@)),
                    Some(RunError::Callback(text)) => Some(RunErrorView::Callback(text@)),
                },
            ),
        },
{
}

/// What the host is told is told apart by all that it holds.
pub proof fn law_effects_are_all_they_hold(e: Effect)
    ensures
        match e {
            Effect::Pushed(m) => e.deep_view() == EffectView::Pushed(m.deep_view()),
            Effect::Replaced(old_messages, new_messages) => e.deep_view() == EffectView::Replaced(
                old_messages.deep_view(),
                new_messages.deep_view(),
            ),
            Effect::Usage(usage) => e.deep_view() == EffectView::Usage(usage),
        },
{
}

/// A row of messages is seen with each of its messages, in order.
pub proof fn law_histories_are_all_they_hold(messages: Vec<Message>, request: ChatRequest)
    ensures
        messages.deep_view().len() == messages@.len(),
        forall|k: int|
            0 <= k < messages@.len() ==> messages.deep_view()[k] == (
            #[trigger] messages@[k]).deep_view(),
        request.deep_view().model == request.model@,
        request.deep_view().messages == request.messages.deep_view(),
        request.deep_view().temperature == request.temperature,
        request.deep_view().parallel_tool_calls == request.parallel_tool_calls,
        match request.tools {
            None => request.deep_view().tools is None,
            Some(tools) => request.deep_view().tools matches Some(seen) && seen.len() == tools@.len()
                && (forall|k: int|
                0 <= k < tools@.len() ==> seen[k].name == (#[trigger] tools@[k]).name@
                    && seen[k].description == characters(tools@[k].description)
                    && seen[k].parameters == tools@[k].parameters),
        },
{
}

/// A session is judged by its history, by what is due, by the temperature and by what it waits for.
pub proof fn law_sessions_are_all_they_hold(s: Session)
    ensures
        s.deep_view().messages == s.messages.deep_view(),
        s.deep_view().prev_call == s.prev_call,
        s.deep_view().pending == s.pending,
        s.deep_view().temperature == s.temperature,
        s.deep_view().phase == s.phase.deep_view(),
{
}

/// What a session waits for is told apart by all that it holds: the calls that are yet to be settled,
/// and for each call of a concurrent batch its identifier and why no handler runs for it.
pub proof fn law_phases_are_all_they_hold(phase: Phase)
    ensures
        match phase {
            Phase::CheckClosed => phase.deep_view() is CheckClosed,
            Phase::Poll => phase.deep_view() is Poll,
            Phase::AskedCallback => phase.deep_view() is AskedCallback,
            Phase::AskedModel => phase.deep_view() is AskedModel,
            Phase::Idle => phase.deep_view() is Idle,
            Phase::Receive => phase.deep_view() is Receive,
            Phase::Say => phase.deep_view() is Say,
            Phase::Parallel(batch) => phase.deep_view() matches PhaseView::Parallel(seen)
                && seen.len() == batch@.len() && (forall|k: int|
                0 <= k < batch@.len() ==> seen[k].call_id == (#[trigger] batch@[k]).call_id@
                    && seen[k].error == (match batch@[k].error {
                    Some(e) => Some(e.deep_view()),
                    None => None,
                })),
            Phase::Tool(calls) => phase.deep_view() matches PhaseView::Tool(seen) && sees_calls(
                Some(calls),
                Some(seen),
            ),
            Phase::Rewrite(calls) => phase.deep_view() matches PhaseView::Rewrite(seen)
                && sees_calls(Some(calls), Some(seen)),
            Phase::Done => phase.deep_view() is Done,
        },
{
}

/// The error of a call is told apart by its kind and all its texts.
pub proof fn law_tool_errors_are_all_they_hold(e: ToolError)
    ensures
        match e {
            ToolError::UnknownTool(name) => e.deep_view() == ToolErrorView::UnknownTool(name@),
            ToolError::BadArguments => e.deep_view() is BadArguments,
            ToolError::ParallelRewrite(name) => e.deep_view() == ToolErrorView::ParallelRewrite(
                name@,
            ),
            ToolError::Handler(text) => e.deep_view() == ToolErrorView::Handler(text@),
            ToolError::EmptyRewrite(name) => e.deep_view() == ToolErrorView::EmptyRewrite(name@),
            ToolError::IllegalPrefix(name) => e.deep_view() == ToolErrorView::IllegalPrefix(name@),
            ToolError::AlreadyAnswered(name, id) => e.deep_view()
                == ToolErrorView::AlreadyAnswered(name@, id@),
            ToolError::LeftResult(name, id) => e.deep_view() == ToolErrorView::LeftResult(
                name@,
                id@,
            ),
        },
{
}

/// A reply is recorded with its text, its refusal and its calls.
pub proof fn law_reply_is_recorded_as_it_is(turn: AssistantReplyView)
    ensures
        reply::reply_message(turn) == call_laws::recorded(turn),
{
}

/// The texts by which the model is told why a call has no result, and the whole text of a result.
pub proof fn law_tool_error_texts(name: Seq<char>, id: Seq<char>, text: Seq<char>)
    ensures
        tool::outcome_text(Ok::<Seq<char>, ToolErrorView>(text)) == text,
        forall|e: ToolErrorView|
            #[trigger] tool::outcome_text(Err::<Seq<char>, ToolErrorView>(e)) == "Error: "@
                + tool::error_text(e),
        tool::error_text(ToolErrorView::UnknownTool(name)) == "unknown tool: "@ + name,
        tool::error_text(ToolErrorView::BadArguments) == "failed to parse tool arguments"@,
        tool::error_text(ToolErrorView::ParallelRewrite(name)) == "internal error: rewriting tool '"@
            + name + "' invoked on parallel execute_tool path"@,
        tool::error_text(ToolErrorView::Handler(text)) == text,
        tool::error_text(ToolErrorView::EmptyRewrite(name)) == "rewriting tool '"@ + name
            + "' returned an empty message list"@,
        tool::error_text(ToolErrorView::IllegalPrefix(name)) == "rewriting tool '"@ + name
            + "' must return a legal prefix for appending this tool result (assistant tool_calls turn, optionally followed by sibling role=tool messages)"@,
        tool::error_text(ToolErrorView::AlreadyAnswered(name, id)) == "rewriting tool '"@ + name
            + "' kept its tool_call but already included the role=tool result for "@ + id,
        tool::error_text(ToolErrorView::LeftResult(name, id)) == "rewriting tool '"@ + name
            + "' removed its tool_call but left a role=tool result for "@ + id,
{
}

/// A tool is seen with its whole description, and as one that may rewrite the history exactly where its
/// handler does.
pub proof fn law_tools_are_all_they_hold<N, R>(t: Tool<N, R>)
    ensures
        t.deep_view().description.name == t.description.name@,
        t.deep_view().description.description == characters(t.description.description),
        t.deep_view().description.parameters == t.description.parameters,
        t.deep_view().rewriting <==> t.body is Rewriting,
{
}

/// A rewriting tool does not run beside others: the call is refused. Any other call is resolved as it
/// is on its own.
pub proof fn law_rewriting_tool_runs_alone(
    tools: Seq<ToolView>,
    call: ToolCallView,
    i: int,
)
    requires
        call_laws::named_first(tools, call.function.name, i),
    ensures
        json::json_parsed(call.function.arguments) matches Some(args) ==> tool::resolved(
            tools,
            call,
        ) == Ok::<(int, serde_json::Value), ToolErrorView>((i, args)),
        json::json_parsed(call.function.arguments) matches Some(args) ==> (
        if tools[i].rewriting {
            tool::resolved_parallel(tools, call) == Err::<(int, serde_json::Value), ToolErrorView>(
                ToolErrorView::ParallelRewrite(call.function.name),
            )
        } else {
            tool::resolved_parallel(tools, call) == Ok::<(int, serde_json::Value), ToolErrorView>(
                (i, args),
            )
        }),
{
    call_laws::law_first_tool_of_the_name_is_called(tools, call.function.name);
    let j = tool::tool_named(tools, call.function.name)->0;
    assert(tools[i].description.name == call.function.name);
    assert(tools[j].description.name == call.function.name);
    assert(i == j);
}

/// The texts of the errors with which a run ends.
pub proof fn law_run_error_texts(text: Seq<char>)
    ensures
        event::run_error_text(RunErrorView::NoInferenceCallback)
            == "run_without_client requires inference_callback"@,
        event::run_error_text(RunErrorView::NoClient)
            == "LLM chat call failed: OpenAIClient required when inference_callback is not set"@,
        event::run_error_text(RunErrorView::InferenceCallback(text))
            == "LLM chat call failed: inference callback failed: "@ + text,
        event::run_error_text(RunErrorView::Model(text)) == "LLM chat call failed: "@ + text,
        event::run_error_text(RunErrorView::Callback(text)) == text,
{
}

} // verus!

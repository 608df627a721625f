//! Tools, and what becomes of a tool call.
//!
//! Most tools only return a text, which is appended to the history as the result of the call.
//! *Rewriting* tools may also replace the whole history.

use vstd::prelude::*;
use vstd::string::*;

use crate::json;
use crate::json::parse_json;
use crate::multi_tool::history;
use crate::multi_tool::history::{
    can_append_tool_result, history_has_tool_call_id, history_has_tool_result_id,
    tool_call_is_answered,
};
use crate::multi_tool::message::{Comparable, Message, MessageView, ToolCall, ToolCallView};
use crate::schema::{ToolDescription, ToolDescriptionView};
use crate::text::same_text;

verus! {

/// The handler of a tool: one that only returns a text, or one that may replace the history.
#[derive(Clone, Debug)]
pub enum ToolBody<N, R> {
    Normal(N),
    Rewriting(R),
}

/// A tool the agent can invoke, with a handler of type `N`, or of type `R` where the tool may
/// rewrite the history.
#[derive(Clone, Debug)]
pub struct Tool<N, R> {
    pub body: ToolBody<N, R>,
    pub description: ToolDescription,
}

/// What the loop reads of a tool.
pub struct ToolView {
    pub description: ToolDescriptionView,
    pub rewriting: bool,
}

impl<N, R> DeepView for Tool<N, R> {
    type V = ToolView;

    open spec fn deep_view(&self) -> ToolView {
        ToolView {
            description: self.description.deep_view(),
            rewriting: self.body is Rewriting,
        }
    }
}

impl<N, R> Tool<N, R> {
    /// A tool that only returns a result.
    pub fn new(handler: N, description: ToolDescription) -> (r: Self)
        ensures
            r.body == ToolBody::<N, R>::Normal(handler),
            r.description == description,
            !r.deep_view().rewriting,
    {
        Tool { body: ToolBody::Normal(handler), description }
    }

    /// A tool that may replace the history.
    pub fn new_rewriting(handler: R, description: ToolDescription) -> (r: Self)
        ensures
            r.body == ToolBody::<N, R>::Rewriting(handler),
            r.description == description,
            r.deep_view().rewriting,
    {
        Tool { body: ToolBody::Rewriting(handler), description }
    }

    /// The name by which the model calls this tool.
    pub fn name(&self) -> (r: &str)
        ensures
            r@ == self.deep_view().description.name,
    {
        self.description.name.as_str()
    }

    /// Whether this tool may replace the history when invoked.
    pub fn is_rewriting(&self) -> (r: bool)
        ensures
            r == self.deep_view().rewriting,
    {
        match &self.body {
            ToolBody::Normal(_) => false,
            ToolBody::Rewriting(_) => true,
        }
    }
}

/// Why a tool call has no result.
#[derive(Debug)]
pub enum ToolError {
    /// No tool has the name.
    UnknownTool(String),
    /// The arguments are no JSON.
    BadArguments,
    /// A rewriting tool was about to run beside others.
    ParallelRewrite(String),
    /// The handler failed, with this text.
    Handler(String),
    /// A rewriting tool returned no messages.
    EmptyRewrite(String),
    /// A rewriting tool kept its call and returned messages after which its result cannot come.
    IllegalPrefix(String),
    /// A rewriting tool kept its call and returned messages that already hold the result of the
    /// call behind the last turn that lists it: the tool, and the call's identifier.
    AlreadyAnswered(String, String),
    /// A rewriting tool removed its call and left a result: the tool, and the call's identifier.
    LeftResult(String, String),
}

/// Deep view of [`ToolError`].
pub enum ToolErrorView {
    UnknownTool(Seq<char>),
    BadArguments,
    ParallelRewrite(Seq<char>),
    Handler(Seq<char>),
    EmptyRewrite(Seq<char>),
    IllegalPrefix(Seq<char>),
    AlreadyAnswered(Seq<char>, Seq<char>),
    LeftResult(Seq<char>, Seq<char>),
}

impl DeepView for ToolError {
    type V = ToolErrorView;

    open spec fn deep_view(&self) -> ToolErrorView {
        match self {
            ToolError::UnknownTool(name) => ToolErrorView::UnknownTool(name@),
            ToolError::BadArguments => ToolErrorView::BadArguments,
            ToolError::ParallelRewrite(name) => ToolErrorView::ParallelRewrite(name@),
            ToolError::Handler(text) => ToolErrorView::Handler(text@),
            ToolError::EmptyRewrite(name) => ToolErrorView::EmptyRewrite(name@),
            ToolError::IllegalPrefix(name) => ToolErrorView::IllegalPrefix(name@),
            ToolError::AlreadyAnswered(name, id) => ToolErrorView::AlreadyAnswered(name@, id@),
            ToolError::LeftResult(name, id) => ToolErrorView::LeftResult(name@, id@),
        }
    }
}

/// The text of a tool error.
pub open spec fn error_text(e: ToolErrorView) -> Seq<char> {
    match e {
        ToolErrorView::UnknownTool(name) => "unknown tool: "@ + name,
        ToolErrorView::BadArguments => "failed to parse tool arguments"@,
        ToolErrorView::ParallelRewrite(name) => "internal error: rewriting tool '"@ + name
            + "' invoked on parallel execute_tool path"@,
        ToolErrorView::Handler(text) => text,
        ToolErrorView::EmptyRewrite(name) => "rewriting tool '"@ + name
            + "' returned an empty message list"@,
        ToolErrorView::IllegalPrefix(name) => "rewriting tool '"@ + name
            + "' must return a legal prefix for appending this tool result (assistant tool_calls turn, optionally followed by sibling role=tool messages)"@,
        ToolErrorView::AlreadyAnswered(name, id) => "rewriting tool '"@ + name
            + "' kept its tool_call but already included the role=tool result for "@ + id,
        ToolErrorView::LeftResult(name, id) => "rewriting tool '"@ + name
            + "' removed its tool_call but left a role=tool result for "@ + id,
    }
}

/// The content of the tool message for an outcome: an error is relayed to the model as a text.
pub open spec fn outcome_text(outcome: Result<Seq<char>, ToolErrorView>) -> Seq<char> {
    match outcome {
        Ok(text) => text,
        Err(e) => "Error: "@ + error_text(e),
    }
}

/// The view of an outcome.
pub open spec fn outcome_view(outcome: Result<String, ToolError>) -> Result<
    Seq<char>,
    ToolErrorView,
> {
    match outcome {
        Ok(text) => Ok(text@),
        Err(e) => Err(e.deep_view()),
    }
}

impl ToolError {
    /// The text of this error.
    pub fn message(&self) -> (r: String)
        ensures
            r@ == error_text(self.deep_view()),
    {
        match self {
            ToolError::UnknownTool(name) => "unknown tool: ".to_owned().concat(name.as_str()),
            ToolError::BadArguments => "failed to parse tool arguments".to_owned(),
            ToolError::ParallelRewrite(name) => "internal error: rewriting tool '".to_owned().concat(
                name.as_str(),
            ).concat("' invoked on parallel execute_tool path"),
            ToolError::Handler(text) => text.clone(),
            ToolError::EmptyRewrite(name) => "rewriting tool '".to_owned().concat(
                name.as_str(),
            ).concat("' returned an empty message list"),
            ToolError::IllegalPrefix(name) => "rewriting tool '".to_owned().concat(
                name.as_str(),
            ).concat(
                "' must return a legal prefix for appending this tool result (assistant tool_calls turn, optionally followed by sibling role=tool messages)",
            ),
            ToolError::AlreadyAnswered(name, id) => "rewriting tool '".to_owned().concat(
                name.as_str(),
            ).concat("' kept its tool_call but already included the role=tool result for ").concat(
                id.as_str(),
            ),
            ToolError::LeftResult(name, id) => "rewriting tool '".to_owned().concat(
                name.as_str(),
            ).concat("' removed its tool_call but left a role=tool result for ").concat(
                id.as_str(),
            ),
        }
    }
}

/// The content of the tool message for an outcome.
pub fn tool_content(outcome: Result<String, ToolError>) -> (r: String)
    ensures
        r@ == outcome_text(outcome_view(outcome)),
{
    match outcome {
        Ok(text) => text,
        Err(e) => "Error: ".to_owned().concat(e.message().as_str()),
    }
}

/// The first tool from `from` on with the given name.
pub open spec fn tool_named_from(tools: Seq<ToolView>, name: Seq<char>, from: int) -> Option<int>
    decreases tools.len() - from,
{
    if from < 0 || from >= tools.len() {
        None
    } else if tools[from].description.name == name {
        Some(from)
    } else {
        tool_named_from(tools, name, from + 1)
    }
}

/// The first tool with the given name.
pub open spec fn tool_named(tools: Seq<ToolView>, name: Seq<char>) -> Option<int> {
    tool_named_from(tools, name, 0)
}

/// The tool that `tool_named_from` gives has the name, and none before it does; where it gives
/// none, no tool has the name.
pub proof fn lemma_tool_named_from(tools: Seq<ToolView>, name: Seq<char>, from: int)
    requires
        from >= 0,
    ensures
        tool_named_from(tools, name, from) matches Some(i) ==> from <= i < tools.len()
            && tools[i].description.name == name && (forall|j: int| from <= j < i ==> tools[j].description.name != name),
        tool_named_from(tools, name, from) is None ==> (forall|j: int|
            from <= j < tools.len() ==> tools[j].description.name != name),
    decreases tools.len() - from,
{
    if from < tools.len() && tools[from].description.name != name {
        lemma_tool_named_from(tools, name, from + 1);
    }
}

/// The call names a rewriting tool.
pub open spec fn calls_rewriting_tool(tools: Seq<ToolView>, call: ToolCallView) -> bool {
    tool_named(tools, call.function.name) matches Some(i) && tools[i].rewriting
}

/// One of the calls names a rewriting tool.
pub open spec fn has_rewriting_call(tools: Seq<ToolView>, calls: Seq<ToolCallView>) -> bool {
    exists|k: int| 0 <= k < calls.len() && calls_rewriting_tool(tools, #[trigger] calls[k])
}

/// What a call comes to before its handler runs: the tool by its position, and the parsed
/// arguments.
pub open spec fn resolved(tools: Seq<ToolView>, call: ToolCallView) -> Result<
    (int, serde_json::Value),
    ToolErrorView,
> {
    match tool_named(tools, call.function.name) {
        None => Err(ToolErrorView::UnknownTool(call.function.name)),
        Some(i) => match json::json_parsed(call.function.arguments) {
            None => Err(ToolErrorView::BadArguments),
            Some(args) => Ok((i, args)),
        },
    }
}

/// The first tool with the given name, by its position.
pub fn find_tool<N, R>(tools: &Vec<Tool<N, R>>, name: &str) -> (r: Option<usize>)
    ensures
        match r {
            Some(i) => i < tools@.len() && tool_named(tools.deep_view(), name@) == Some(i as int),
            None => tool_named(tools.deep_view(), name@) is None,
        },
{
    let mut i: usize = 0;
    while i < tools.len()
        invariant
            i <= tools@.len(),
            tool_named(tools.deep_view(), name@) == tool_named_from(
                tools.deep_view(),
                name@,
                i as int,
            ),
        decreases tools@.len() - i,
    {
        assert(tools.deep_view()[i as int] == tools@[i as int].deep_view());
        if same_text(tools[i].name(), name) {
            return Some(i);
        }
        i = i + 1;
    }
    None
}

/// Whether any of the calls names a rewriting tool. Such a batch runs serially.
pub fn batch_has_rewrite<N, R>(tools: &Vec<Tool<N, R>>, calls: &Vec<ToolCall>) -> (r: bool)
    ensures
        r == has_rewriting_call(tools.deep_view(), calls.deep_view()),
{
    let mut k: usize = 0;
    while k < calls.len()
        invariant
            k <= calls@.len(),
            forall|j: int|
                0 <= j < k ==> !calls_rewriting_tool(tools.deep_view(), calls.deep_view()[j]),
        decreases calls@.len() - k,
    {
        assert(calls.deep_view()[k as int] == calls@[k as int].deep_view());
        if let Some(i) = find_tool(tools, calls[k].function.name.as_str()) {
            assert(tools.deep_view()[i as int] == tools@[i as int].deep_view());
            if tools[i].is_rewriting() {
                assert(calls_rewriting_tool(tools.deep_view(), calls.deep_view()[k as int]));
                return true;
            }
        }
        k = k + 1;
    }
    false
}

/// A handler that is to run: the tool by its position, and its arguments.
#[derive(Debug)]
pub struct Job {
    pub tool: usize,
    pub args: serde_json::Value,
}

/// Looks up the tool of a call and parses the arguments.
pub fn resolve_call<N, R>(tools: &Vec<Tool<N, R>>, call: &ToolCall) -> (r: Result<Job, ToolError>)
    ensures
        match r {
            Ok(job) => job.tool < tools@.len() && resolved(tools.deep_view(), call.deep_view())
                == Ok::<(int, serde_json::Value), ToolErrorView>((job.tool as int, job.args)),
            Err(e) => resolved(tools.deep_view(), call.deep_view()) == Err::<
                (int, serde_json::Value),
                ToolErrorView,
            >(e.deep_view()),
        },
{
    match find_tool(tools, call.function.name.as_str()) {
        None => Err(ToolError::UnknownTool(call.function.name.clone())),
        Some(i) => match parse_json(call.function.arguments.as_str()) {
            Err(_) => Err(ToolError::BadArguments),
            Ok(args) => Ok(Job { tool: i, args }),
        },
    }
}

/// What a call comes to on the parallel path, where no rewriting tool may run.
pub open spec fn resolved_parallel(tools: Seq<ToolView>, call: ToolCallView) -> Result<
    (int, serde_json::Value),
    ToolErrorView,
> {
    match resolved(tools, call) {
        Ok((i, args)) => if tools[i].rewriting {
            Err(ToolErrorView::ParallelRewrite(call.function.name))
        } else {
            Ok((i, args))
        },
        Err(e) => Err(e),
    }
}

/// The handler to run for a call beside others, or why there is none. A rewriting tool must not
/// be scheduled on this path.
pub fn execute_tool<N, R>(tools: &Vec<Tool<N, R>>, call: &ToolCall) -> (r: Result<Job, ToolError>)
    ensures
        match r {
            Ok(job) => job.tool < tools@.len() && resolved_parallel(
                tools.deep_view(),
                call.deep_view(),
            ) == Ok::<(int, serde_json::Value), ToolErrorView>((job.tool as int, job.args)),
            Err(e) => resolved_parallel(tools.deep_view(), call.deep_view()) == Err::<
                (int, serde_json::Value),
                ToolErrorView,
            >(e.deep_view()),
        },
{
    let job: Job = match resolve_call(tools, call) {
        Ok(job) => job,
        Err(e) => return Err(e),
    };
    assert(tools.deep_view()[job.tool as int] == tools@[job.tool as int].deep_view());
    if tools[job.tool].is_rewriting() {
        return Err(ToolError::ParallelRewrite(call.function.name.clone()));
    }
    Ok(job)
}

/// What a rewriting tool's messages come to: `false` where they are the history as it was (an
/// identity rewrite), `true` where they replace it, or the rule that they break.
pub open spec fn rewrite_verdict(
    name: Seq<char>,
    call_id: Seq<char>,
    messages: Seq<MessageView>,
    new_messages: Seq<MessageView>,
) -> Result<bool, ToolErrorView> {
    if new_messages.len() == 0 {
        Err(ToolErrorView::EmptyRewrite(name))
    } else if new_messages == messages {
        Ok(false)
    } else if history::has_call(new_messages, call_id) {
        if !history::is_prefix_for_result(new_messages, call_id) {
            Err(ToolErrorView::IllegalPrefix(name))
        } else if history::is_answered(new_messages, call_id) {
            Err(ToolErrorView::AlreadyAnswered(name, call_id))
        } else {
            Ok(true)
        }
    } else if history::has_result(new_messages, call_id) {
        Err(ToolErrorView::LeftResult(name, call_id))
    } else {
        Ok(true)
    }
}

/// Judges the messages that a rewriting tool returned for `call`.
pub fn judge_rewrite(call: &ToolCall, messages: &Vec<Message>, new_messages: &Vec<Message>) -> (r:
    Result<bool, ToolError>)
    ensures
        match r {
            Ok(b) => rewrite_verdict(
                call.function.name@,
                call.id@,
                messages.deep_view(),
                new_messages.deep_view(),
            ) == Ok::<bool, ToolErrorView>(b),
            Err(e) => rewrite_verdict(
                call.function.name@,
                call.id@,
                messages.deep_view(),
                new_messages.deep_view(),
            ) == Err::<bool, ToolErrorView>(e.deep_view()),
        },
{
    if new_messages.len() == 0 {
        return Err(ToolError::EmptyRewrite(call.function.name.clone()));
    }
    if new_messages.same(messages) {
        return Ok(false);
    }
    if history_has_tool_call_id(new_messages, call.id.as_str()) {
        if !can_append_tool_result(new_messages, call.id.as_str()) {
            return Err(ToolError::IllegalPrefix(call.function.name.clone()));
        }
        if tool_call_is_answered(new_messages, call.id.as_str()) {
            return Err(
                ToolError::AlreadyAnswered(call.function.name.clone(), call.id.clone()),
            );
        }
    } else if history_has_tool_result_id(new_messages, call.id.as_str()) {
        return Err(ToolError::LeftResult(call.function.name.clone(), call.id.clone()));
    }
    Ok(true)
}

} // verus!

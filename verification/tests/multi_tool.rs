use std::cell::{Cell, RefCell};
use std::collections::{HashSet, VecDeque};
use std::rc::Rc;

use da_harness::client::{system_message, user_message, ChatRequest, OpenAIClient, Temperature};
use da_harness::multi_tool::event::{
    Action, Effect, Event, Outcome, RewriteOutcome, RunError, Step, UserRequest,
};
use da_harness::multi_tool::history::{
    can_append_tool_result, history_has_tool_call_id, history_has_tool_result_id,
};
use da_harness::multi_tool::invocation::{AgentInvocation, AgentInvocationArgs, Host};
use da_harness::multi_tool::message::{
    AssistantContent, AssistantMessage, Comparable, FunctionCall, Message, TextContent, ToolCall,
    UserContent,
};
use da_harness::multi_tool::reply::{
    assistant_text, assistant_tool_calls, AssistantReply, ReplyAudio, Role,
};
use da_harness::multi_tool::session::{Begun, Phase, Session};
use da_harness::multi_tool::tool::{Tool, ToolBody};
use da_harness::schema::ToolDescription;
use da_harness::usage::TokenUsage;

// ─── A host on one thread ─────────────────────────────────────────────

struct Channel {
    queue: VecDeque<UserRequest>,
    closed: bool,
}

type Shared = Rc<RefCell<Channel>>;

fn channel(requests: Vec<UserRequest>) -> Shared {
    Rc::new(RefCell::new(Channel { queue: requests.into_iter().collect(), closed: false }))
}

struct TestHost;

impl Host for TestHost {
    type Handler = Box<dyn Fn(serde_json::Value) -> Result<String, String>>;
    type RewritingHandler =
        Box<dyn Fn(serde_json::Value, Vec<Message>) -> Result<(String, Vec<Message>), String>>;
    type Incoming = Shared;
    type MessageCallback = Box<dyn Fn(String) -> Result<(), String>>;
    type IdleCallback = Box<dyn Fn() -> Result<(), String>>;
    type PushCallback = Box<dyn Fn(&Message)>;
    type ReplaceCallback = Box<dyn Fn(&[Message], &[Message])>;
    type UsageCallback = Box<dyn Fn(TokenUsage)>;
    type RetryStrategy = Vec<u64>;
    type InferenceCallback = Box<dyn Fn(Vec<Message>) -> Result<AssistantReply, String>>;
}

type Invocation = AgentInvocation<TestHost>;
type Args = AgentInvocationArgs<TestHost>;
type TestTool = Tool<
    <TestHost as Host>::Handler,
    <TestHost as Host>::RewritingHandler,
>;
type Model<'a> = &'a dyn Fn(ChatRequest, Option<Vec<u64>>) -> Result<(AssistantReply, Option<TokenUsage>), String>;

fn tell(invocation: &Invocation, effects: Vec<Effect>) {
    for effect in effects {
        match effect {
            Effect::Pushed(m) => {
                if let Some(cb) = &invocation.messages_push_callback {
                    cb(&m);
                }
            }
            Effect::Replaced(old, new) => {
                if let Some(cb) = &invocation.messages_replace_callback {
                    cb(&old, &new);
                }
            }
            Effect::Usage(u) => {
                if let Some(cb) = &invocation.usage_callback {
                    cb(u);
                }
            }
        }
    }
}

fn error_of(r: Result<(), String>) -> Option<String> {
    r.err()
}

fn run_normal(invocation: &Invocation, tool: usize, args: serde_json::Value) -> Outcome {
    match &invocation.tools[tool].body {
        ToolBody::Normal(handler) => match handler(args) {
            Ok(text) => Outcome::Done(text),
            Err(text) => Outcome::Failed(text),
        },
        ToolBody::Rewriting(_) => panic!("a rewriting tool has no normal handler"),
    }
}

fn run_rewrite(
    invocation: &Invocation,
    tool: usize,
    args: serde_json::Value,
    messages: Vec<Message>,
) -> RewriteOutcome {
    match &invocation.tools[tool].body {
        ToolBody::Rewriting(handler) => match handler(args, messages) {
            Ok((text, messages)) => RewriteOutcome::Done(text, messages),
            Err(text) => RewriteOutcome::Failed(text),
        },
        ToolBody::Normal(_) => panic!("a normal tool has no rewriting handler"),
    }
}

fn perform(invocation: &Invocation, action: Action, model: Option<Model>) -> Result<Event, Option<RunError>> {
    let incoming = &invocation.incoming;
    Ok(match action {
        Action::CheckClosed => Event::Closed(incoming.borrow().closed),
        Action::TryReceive => Event::Polled(incoming.borrow_mut().queue.pop_front()),
        Action::Receive => Event::Received(incoming.borrow_mut().queue.pop_front()),
        Action::Idle => Event::Idled(match &invocation.agent_idle_callback {
            Some(cb) => error_of(cb()),
            None => None,
        }),
        Action::Say(text) => Event::Said(match &invocation.agent_message_callback {
            Some(cb) => error_of(cb(text)),
            None => None,
        }),
        Action::AskCallback(messages) => {
            match invocation.inference_callback.as_ref().unwrap()(messages) {
                Ok(reply) => Event::CallbackReplied(reply),
                Err(text) => Event::CallbackFailed(text),
            }
        }
        Action::AskModel(request, retry) => {
            let strategy = if retry { invocation.fresh_retry_strategy() } else { None };
            match model.expect("a model")(request, strategy) {
                Ok((reply, usage)) => Event::ModelReplied(reply, usage),
                Err(text) => Event::ModelFailed(text),
            }
        }
        Action::RunParallel(jobs) => Event::ParallelDone(
            jobs.into_iter()
                .map(|job| job.map(|job| run_normal(invocation, job.tool, job.args)))
                .collect(),
        ),
        Action::RunTool(job) => Event::ToolDone(run_normal(invocation, job.tool, job.args)),
        Action::RunRewrite(job, messages) => {
            Event::Rewritten(run_rewrite(invocation, job.tool, job.args, messages))
        }
        Action::Finish(error) => return Err(error),
    })
}

fn drive(invocation: &Invocation, begun: Begun, model: Option<Model>) -> (Session, Option<RunError>) {
    let mut session = begun.session;
    let mut step: Step = begun.step;
    for _ in 0..10_000 {
        tell(invocation, step.effects);
        let event = match perform(invocation, step.action, model) {
            Ok(event) => event,
            Err(error) => return (session, error),
        };
        step = session.step(invocation, event).expect("an event that the session waits for");
    }
    panic!("the run did not end");
}

fn run_without_client(invocation: &mut Invocation) -> Result<Session, RunError> {
    let begun = invocation.run_without_client()?;
    match drive(invocation, begun, None) {
        (session, None) => Ok(session),
        (_, Some(error)) => Err(error),
    }
}

// ─── Helpers ──────────────────────────────────────────────────────────

fn describe(name: &str) -> ToolDescription {
    ToolDescription {
        name: name.to_string(),
        description: None,
        parameters: serde_json::Value::Object(serde_json::Map::new()),
    }
}

fn normal(name: &str, handler: impl Fn(serde_json::Value) -> Result<String, String> + 'static) -> TestTool {
    Tool::new(Box::new(handler), describe(name))
}

fn rewriting(
    name: &str,
    handler: impl Fn(serde_json::Value, Vec<Message>) -> Result<(String, Vec<Message>), String> + 'static,
) -> TestTool {
    Tool::new_rewriting(Box::new(handler), describe(name))
}

fn text_request(text: &str) -> UserRequest {
    UserRequest::Message(UserContent::Text(text.to_string()))
}

fn dummy_tool_call(name: &str, args: &str) -> ToolCall {
    dummy_tool_call_id("call_test", name, args)
}

fn dummy_tool_call_id(id: &str, name: &str, args: &str) -> ToolCall {
    ToolCall {
        id: id.to_string(),
        function: FunctionCall { name: name.to_string(), arguments: args.to_string() },
    }
}

fn tool_result_msg(call_id: &str, content: &str) -> Message {
    Message::Tool(TextContent::Text(content.to_string()), call_id.to_string())
}

fn assistant(content: Option<&str>, tool_calls: Option<Vec<ToolCall>>) -> Message {
    Message::Assistant(AssistantMessage {
        content: content.map(|c| AssistantContent::Text(c.to_string())),
        refusal: None,
        name: None,
        audio: None,
        tool_calls,
        function_call: None,
    })
}

fn texts(messages: &[Message]) -> Vec<String> {
    messages.iter().map(|m| format!("{m:?}")).collect()
}

/// Drop assistant `tool_calls` named `name` and any matching tool results.
fn strip_named_tool_calls(messages: &mut Vec<Message>, name: &str) {
    let mut drop_ids = HashSet::new();
    for m in messages.iter_mut() {
        if let Message::Assistant(asst) = m {
            if let Some(calls) = asst.tool_calls.as_mut() {
                calls.retain(|c| {
                    if c.function.name == name {
                        drop_ids.insert(c.id.clone());
                        false
                    } else {
                        true
                    }
                });
                if calls.is_empty() {
                    asst.tool_calls = None;
                }
            }
        }
    }
    messages.retain(|m| match m {
        Message::Tool(_, id) => !drop_ids.contains(id),
        _ => true,
    });
}

fn state(messages: Vec<Message>, phase: Phase) -> Session {
    Session {
        client: None,
        messages,
        prev_call: false,
        pending: false,
        temperature: Temperature { bits: 0 },
        phase,
    }
}

/// What became of one call that runs on its own: its content or its error, the history before the
/// result is appended, and the lengths of a replacement.
struct Executed {
    content: Result<String, String>,
    messages: Vec<Message>,
    replaced: Option<(usize, usize)>,
    appended: bool,
}

fn execute_tool_serial(tool: TestTool, call: ToolCall, messages: Vec<Message>) -> Executed {
    let invocation: Invocation = Args::default()
        .system_prompt("sys".to_string())
        .tools(vec![tool])
        .incoming(channel(vec![]))
        .build()
        .unwrap();
    // The turn that lists the calls is already there: what is left is this call.
    let mut session = state(messages, Phase::Rewrite(vec![call.duplicate()]));
    let job = da_harness::multi_tool::tool::resolve_call(&invocation.tools, &call)
        .map_err(|e| e.message())
        .unwrap();
    let outcome = run_rewrite(&invocation, job.tool, job.args, session.messages.duplicate());
    let handler_text = match &outcome {
        RewriteOutcome::Done(text, _) => text.clone(),
        RewriteOutcome::Failed(text) => text.clone(),
    };
    let step = session.step(&invocation, Event::Rewritten(outcome)).unwrap();
    let mut replaced = None;
    let mut result = None;
    for effect in step.effects {
        match effect {
            Effect::Replaced(old, new) => replaced = Some((old.len(), new.len())),
            Effect::Pushed(Message::Tool(TextContent::Text(text), id)) => {
                assert_eq!(id, call.id);
                result = Some(text);
            }
            other => panic!("unexpected effect {other:?}"),
        }
    }
    let mut messages = session.messages;
    let appended = result.is_some();
    if appended {
        messages.pop();
    }
    let content = match result {
        Some(text) => match text.strip_prefix("Error: ") {
            Some(e) => Err(e.to_string()),
            None => Ok(text),
        },
        None => Ok(handler_text),
    };
    Executed { content, messages, replaced, appended }
}

// ─── Rewriting tools ──────────────────────────────────────────────────

#[test]
fn rewriting_tool_replaces_history_and_returns_content() {
    let tool = rewriting("KeepLast", |args, mut messages| {
        // Keep system + last `n` messages (clamped).
        let n = args.get("n").and_then(|n| n.as_u64()).expect("valid tool args") as usize;
        if messages.len() > 1 {
            let system = messages[0].duplicate();
            let tail_start = messages.len().saturating_sub(n).max(1);
            let mut kept = vec![system];
            kept.extend(messages.drain(tail_start..));
            messages = kept;
        }
        let content = format!("kept {} messages", messages.len());
        Ok((content, messages))
    });

    assert!(tool.is_rewriting());
    assert_eq!(tool.name(), "KeepLast");

    let messages = vec![
        system_message("sys"),
        user_message("old1"),
        user_message("old2"),
        assistant(None, Some(vec![dummy_tool_call("KeepLast", r#"{"n":1}"#)])),
    ];
    let before = messages.len();
    assert_eq!(before, 4);

    let tc = dummy_tool_call("KeepLast", r#"{"n":1}"#);
    let executed = execute_tool_serial(tool, tc, messages);

    // system + last 1 message
    assert_eq!(executed.messages.len(), 2);
    assert!(executed.content.unwrap().contains("kept 2"));
    assert_eq!(executed.replaced, Some((before, 2)));
}

#[test]
fn identity_rewrite_after_sibling_tool_result_is_noop() {
    let tool = rewriting("Mark", |_, messages| Ok(("OK mark".to_string(), messages)));

    let sibling = dummy_tool_call_id("call_todo", "Todo", "{}");
    let mark = dummy_tool_call_id("call_mark", "Mark", "{}");
    let messages = vec![
        system_message("sys"),
        user_message("go"),
        assistant(None, Some(vec![sibling, mark.duplicate()])),
        tool_result_msg("call_todo", "todo-ok"),
    ];
    let before = messages.duplicate();

    let executed = execute_tool_serial(tool, mark, messages);

    assert_eq!(executed.content.unwrap(), "OK mark");
    assert!(executed.messages.same(&before));
    assert!(executed.replaced.is_none(), "identity rewrite must not fire replace callback");
    assert!(matches!(executed.messages.last(), Some(Message::Tool(_, _))));
}

#[test]
fn identity_rewrite_when_last_is_assistant_is_noop() {
    let tool = rewriting("Mark", |_, messages| Ok(("OK mark".to_string(), messages)));

    let mark = dummy_tool_call_id("call_mark", "Mark", "{}");
    let messages = vec![
        system_message("sys"),
        user_message("go"),
        assistant(None, Some(vec![mark.duplicate()])),
    ];

    let executed = execute_tool_serial(tool, mark, messages);

    assert_eq!(executed.content.unwrap(), "OK mark");
    assert!(executed.replaced.is_none());
    assert!(matches!(executed.messages.last(), Some(Message::Assistant(_))));
}

#[test]
fn rewriting_tool_ending_with_user_is_rejected() {
    let tool = rewriting("NoArgs", |_, mut messages| {
        messages.push(user_message("summary"));
        Ok(("folded".to_string(), messages))
    });

    let tc = dummy_tool_call("NoArgs", "{}");
    let messages = vec![system_message("sys"), assistant(None, Some(vec![tc.duplicate()]))];

    let executed = execute_tool_serial(tool, tc, messages);
    let msg = executed.content.expect_err("user-trailing rewrite must be rejected");
    assert!(msg.contains("legal prefix"), "unexpected error: {msg}");
    assert_eq!(
        msg,
        "rewriting tool 'NoArgs' must return a legal prefix for appending this tool result \
         (assistant tool_calls turn, optionally followed by sibling role=tool messages)"
    );
    assert!(executed.replaced.is_none());
    assert!(matches!(executed.messages.last(), Some(Message::Assistant(_))));
}

#[test]
fn rewriting_tool_may_consume_its_own_call() {
    let tool = rewriting("Mark", |_, mut messages| {
        strip_named_tool_calls(&mut messages, "Mark");
        Ok(("consumed".to_string(), messages))
    });

    let sibling = dummy_tool_call_id("call_todo", "Todo", "{}");
    let mark = dummy_tool_call_id("call_mark", "Mark", "{}");
    let messages = vec![
        system_message("sys"),
        user_message("go"),
        assistant(None, Some(vec![sibling, mark.duplicate()])),
        tool_result_msg("call_todo", "todo-ok"),
    ];

    let executed = execute_tool_serial(tool, mark, messages);

    assert_eq!(executed.content.unwrap(), "consumed");
    assert!(executed.replaced.is_some());
    assert!(!executed.appended);
    assert!(!history_has_tool_call_id(&executed.messages, "call_mark"));
    assert!(history_has_tool_call_id(&executed.messages, "call_todo"));
    assert!(history_has_tool_result_id(&executed.messages, "call_todo"));
    assert!(!history_has_tool_result_id(&executed.messages, "call_mark"));
}

#[test]
fn rewriting_tool_consume_leaving_own_result_is_rejected() {
    let tool = rewriting("Mark", |_, mut messages| {
        // Drop the call but leave a fabricated result: an illegal consume.
        strip_named_tool_calls(&mut messages, "Mark");
        messages.push(tool_result_msg("call_mark", "leftover"));
        Ok(("consumed".to_string(), messages))
    });

    let mark = dummy_tool_call_id("call_mark", "Mark", "{}");
    let messages = vec![system_message("sys"), assistant(None, Some(vec![mark.duplicate()]))];

    let executed = execute_tool_serial(tool, mark, messages);
    let err = executed.content.expect_err("consume must not leave its own tool result");
    assert!(err.contains("left a role=tool result"), "unexpected error: {err}");
    assert_eq!(
        err,
        "rewriting tool 'Mark' removed its tool_call but left a role=tool result for call_mark"
    );
    assert!(executed.replaced.is_none());
}

#[test]
fn rewriting_tool_keeping_its_call_with_its_result_is_rejected() {
    let tool = rewriting("Mark", |_, mut messages| {
        messages.push(tool_result_msg("call_mark", "already"));
        Ok(("kept".to_string(), messages))
    });
    let mark = dummy_tool_call_id("call_mark", "Mark", "{}");
    let messages = vec![system_message("sys"), assistant(None, Some(vec![mark.duplicate()]))];
    let executed = execute_tool_serial(tool, mark, messages);
    assert_eq!(
        executed.content.unwrap_err(),
        "rewriting tool 'Mark' kept its tool_call but already included the role=tool result for \
         call_mark"
    );
    assert!(executed.replaced.is_none());
    assert_eq!(executed.messages.len(), 2);
}

#[test]
fn result_of_an_earlier_turn_with_the_same_id_is_no_obstacle() {
    let tool = rewriting("Mark", |_, messages| Ok(("kept".to_string(), messages)));
    let mark = dummy_tool_call_id("call_mark", "Mark", "{}");
    let messages = vec![
        system_message("sys"),
        assistant(None, Some(vec![mark.duplicate()])),
        tool_result_msg("call_mark", "first"),
        assistant(None, Some(vec![mark.duplicate()])),
    ];
    let executed = execute_tool_serial(tool, mark, messages);
    assert_eq!(executed.content.unwrap(), "kept");
    assert!(executed.appended);
}

#[test]
fn changed_history_may_keep_an_earlier_turn_with_the_same_id() {
    let tool = rewriting("Mark", |_, mut messages| {
        messages.insert(1, user_message("summary"));
        Ok(("kept".to_string(), messages))
    });
    let mark = dummy_tool_call_id("call_mark", "Mark", "{}");
    let messages = vec![
        system_message("sys"),
        assistant(None, Some(vec![mark.duplicate()])),
        tool_result_msg("call_mark", "first"),
        assistant(None, Some(vec![mark.duplicate()])),
    ];
    let executed = execute_tool_serial(tool, mark, messages);
    assert_eq!(executed.content.unwrap(), "kept");
    assert_eq!(executed.replaced, Some((4, 5)));
    assert!(executed.appended);
    assert_eq!(executed.messages.len(), 5);
}

#[test]
fn result_behind_the_call_is_found_before_a_later_turn() {
    let tool = rewriting("Mark", |_, mut messages| {
        messages.push(tool_result_msg("call_mark", "already"));
        messages.push(assistant(Some("done"), None));
        Ok(("kept".to_string(), messages))
    });
    let mark = dummy_tool_call_id("call_mark", "Mark", "{}");
    let messages = vec![system_message("sys"), assistant(None, Some(vec![mark.duplicate()]))];
    let executed = execute_tool_serial(tool, mark, messages);
    assert_eq!(
        executed.content.unwrap_err(),
        "rewriting tool 'Mark' kept its tool_call but already included the role=tool result for \
         call_mark"
    );
    assert!(executed.replaced.is_none());
    assert_eq!(executed.messages.len(), 2);
}

#[test]
fn rewriting_tool_returning_nothing_is_rejected() {
    let tool = rewriting("Mark", |_, _| Ok(("gone".to_string(), vec![])));
    let mark = dummy_tool_call_id("call_mark", "Mark", "{}");
    let messages = vec![system_message("sys"), assistant(None, Some(vec![mark.duplicate()]))];
    let executed = execute_tool_serial(tool, mark, messages);
    assert_eq!(
        executed.content.unwrap_err(),
        "rewriting tool 'Mark' returned an empty message list"
    );
    assert!(executed.replaced.is_none());
    assert_eq!(executed.messages.len(), 2);
}

#[test]
fn rewriting_tool_error_is_relayed() {
    let tool = rewriting("Mark", |_, _| Err("cannot fold".to_string()));
    let mark = dummy_tool_call_id("call_mark", "Mark", "{}");
    let messages = vec![system_message("sys"), assistant(None, Some(vec![mark.duplicate()]))];
    let executed = execute_tool_serial(tool, mark, messages);
    assert_eq!(executed.content.unwrap_err(), "cannot fold");
    assert!(executed.replaced.is_none());
}

#[test]
fn can_append_tool_result_accepts_assistant_or_sibling_tool_tail() {
    let mark = dummy_tool_call_id("c2", "Mark", "{}");
    let asst = assistant(None, Some(vec![dummy_tool_call_id("c1", "Todo", "{}"), mark]));
    let with_tail =
        vec![system_message("sys"), asst.duplicate(), tool_result_msg("c1", "todo-ok")];
    assert!(can_append_tool_result(&with_tail, "c2"));
    assert!(!can_append_tool_result(&with_tail, "missing"));

    let asst_only = vec![asst];
    assert!(can_append_tool_result(&asst_only, "c2"));

    let user_last = vec![user_message("summary")];
    assert!(!can_append_tool_result(&user_last, "c2"));
    assert!(!can_append_tool_result(&vec![], "c2"));
}

#[test]
fn assistant_turn_without_a_list_of_calls_takes_any_result() {
    let messages = vec![assistant(Some("hm"), None), tool_result_msg("c1", "x")];
    assert!(can_append_tool_result(&messages, "c2"));
    assert!(!history_has_tool_call_id(&messages, "c2"));
    assert!(history_has_tool_result_id(&messages, "c1"));
}

#[test]
fn normal_tool_is_not_rewriting() {
    let tool = normal("NoArgs", |_| Ok("ok".to_string()));
    assert!(!tool.is_rewriting());
    assert_eq!(tool.name(), "NoArgs");
}

// ─── Runs ─────────────────────────────────────────────────────────────

#[test]
fn run_without_client_requires_inference_callback() {
    let mut invocation: Invocation = Args::default()
        .system_prompt("sys".to_string())
        .incoming(channel(vec![]))
        .build()
        .unwrap();

    let err = match invocation.run_without_client() {
        Ok(_) => panic!("should require inference_callback"),
        Err(e) => e.message(),
    };
    assert!(err.contains("inference_callback"), "unexpected error: {err}");
    assert_eq!(err, "run_without_client requires inference_callback");
}

#[test]
fn inference_callback_text_reply() {
    let pushed = Rc::new(RefCell::new(Vec::<String>::new()));
    let pushed_cb = pushed.clone();
    let said = Rc::new(RefCell::new(Vec::<String>::new()));
    let said_cb = said.clone();
    let incoming = channel(vec![text_request("hi")]);
    let closing = incoming.clone();

    let mut invocation: Invocation = Args::default()
        .system_prompt("sys".to_string())
        .incoming(incoming)
        .inference_callback(Box::new(|messages| {
            assert!(messages.len() >= 2, "expected system + user, got {}", messages.len());
            Ok(assistant_text("hello from mock".to_string()))
        }))
        .messages_push_callback(Box::new(move |msg| {
            let s = format!("{msg:?}");
            if s.contains("hello from mock") {
                closing.borrow_mut().closed = true;
            }
            pushed_cb.borrow_mut().push(s);
        }))
        .agent_message_callback(Box::new(move |text| {
            said_cb.borrow_mut().push(text);
            Ok(())
        }))
        .build()
        .unwrap();

    run_without_client(&mut invocation).map_err(|e| e.message()).unwrap();

    let log = pushed.borrow();
    assert!(
        log.iter().any(|s| s.contains("hello from mock")),
        "assistant text should be pushed; got {log:?}"
    );
    assert_eq!(*said.borrow(), vec!["hello from mock".to_string()]);
}

#[test]
fn inference_callback_tool_then_text() {
    let tool_hits = Rc::new(Cell::new(0usize));
    let tool_hits_cb = tool_hits.clone();
    let tool = normal("NoArgs", move |_| {
        tool_hits_cb.set(tool_hits_cb.get() + 1);
        Ok("tool-ok".to_string())
    });

    let step = Cell::new(0usize);
    let saw_tool_result = Rc::new(Cell::new(0usize));
    let saw = saw_tool_result.clone();
    let incoming = channel(vec![text_request("go")]);
    let closing = incoming.clone();

    let mut invocation: Invocation = Args::default()
        .system_prompt("sys".to_string())
        .tools(vec![tool])
        .incoming(incoming)
        .inference_callback(Box::new(move |messages| {
            let n = step.get();
            step.set(n + 1);
            match n {
                0 => {
                    assert!(messages.len() >= 2, "first turn: system + user, got {}", messages.len());
                    Ok(assistant_tool_calls(vec![dummy_tool_call("NoArgs", "{}")]))
                }
                1 => {
                    // After tool execution, history should include a tool result.
                    if messages.iter().any(|m| matches!(m, Message::Tool(_, _))) {
                        saw.set(saw.get() + 1);
                    }
                    closing.borrow_mut().closed = true;
                    Ok(assistant_text("all done".to_string()))
                }
                _ => Ok(assistant_text("extra".to_string())),
            }
        }))
        .build()
        .unwrap();

    run_without_client(&mut invocation).map_err(|e| e.message()).unwrap();

    assert_eq!(tool_hits.get(), 1);
    assert_eq!(saw_tool_result.get(), 1);
}

#[test]
fn inference_identity_rewrite_mid_batch() {
    let ping_hits = Rc::new(Cell::new(0usize));
    let ping_hits_cb = ping_hits.clone();
    let ping = normal("NoArgs", move |_| {
        let n = ping_hits_cb.get() + 1;
        ping_hits_cb.set(n);
        Ok(format!("ping-{n}"))
    });
    let mark = rewriting("Mark", |_, messages| Ok(("OK <fold-mark />".to_string(), messages)));

    let replaced = Rc::new(Cell::new(0usize));
    let replaced_cb = replaced.clone();
    let step = Cell::new(0usize);
    let incoming = channel(vec![text_request("go")]);
    let closing = incoming.clone();

    let mut invocation: Invocation = Args::default()
        .system_prompt("sys".to_string())
        .tools(vec![ping, mark])
        .parallel_tools(true)
        .incoming(incoming)
        .inference_callback(Box::new(move |messages| {
            let n = step.get();
            step.set(n + 1);
            match n {
                0 => Ok(assistant_tool_calls(vec![
                    dummy_tool_call_id("c1", "NoArgs", "{}"),
                    dummy_tool_call_id("c2", "Mark", "{}"),
                    dummy_tool_call_id("c3", "NoArgs", "{}"),
                ])),
                1 => {
                    let texts = texts(&messages);
                    let tool_n = texts
                        .iter()
                        .filter(|s| s.contains("tool_call_id") || s.contains("Tool"))
                        .count();
                    assert!(texts.iter().any(|s| s.contains("ping-1")), "first ping missing: {texts:?}");
                    assert!(
                        texts.iter().any(|s| s.contains("fold-mark")),
                        "identity mark result missing: {texts:?}"
                    );
                    assert!(texts.iter().any(|s| s.contains("ping-2")), "second ping missing: {texts:?}");
                    assert!(tool_n >= 3, "expected three tool results in history: {texts:?}");
                    closing.borrow_mut().closed = true;
                    Ok(assistant_text("done".to_string()))
                }
                _ => Ok(assistant_text("extra".to_string())),
            }
        }))
        .messages_replace_callback(Box::new(move |_, _| replaced_cb.set(replaced_cb.get() + 1)))
        .build()
        .unwrap();

    run_without_client(&mut invocation).map_err(|e| e.message()).unwrap();

    assert_eq!(ping_hits.get(), 2);
    assert_eq!(replaced.get(), 0, "identity Mark must not fire replace callback");
}

#[test]
fn inference_consume_own_call_skips_tool_result() {
    let ping_hits = Rc::new(Cell::new(0usize));
    let ping_hits_cb = ping_hits.clone();
    let ping = normal("NoArgs", move |_| {
        let n = ping_hits_cb.get() + 1;
        ping_hits_cb.set(n);
        Ok(format!("ping-{n}"))
    });
    let consume = rewriting("Mark", |_, mut messages| {
        strip_named_tool_calls(&mut messages, "Mark");
        Ok(("SHOULD-NOT-APPEAR".to_string(), messages))
    });

    let step = Cell::new(0usize);
    let incoming = channel(vec![text_request("go")]);
    let closing = incoming.clone();

    let mut invocation: Invocation = Args::default()
        .system_prompt("sys".to_string())
        .tools(vec![ping, consume])
        .incoming(incoming)
        .inference_callback(Box::new(move |messages| {
            let n = step.get();
            step.set(n + 1);
            match n {
                0 => Ok(assistant_tool_calls(vec![
                    dummy_tool_call_id("c1", "NoArgs", "{}"),
                    dummy_tool_call_id("c2", "Mark", "{}"),
                    dummy_tool_call_id("c3", "NoArgs", "{}"),
                ])),
                1 => {
                    let texts = texts(&messages);
                    assert!(texts.iter().any(|s| s.contains("ping-1")), "first ping missing: {texts:?}");
                    assert!(texts.iter().any(|s| s.contains("ping-2")), "second ping missing: {texts:?}");
                    assert!(
                        !texts.iter().any(|s| s.contains("SHOULD-NOT-APPEAR")),
                        "consumed call must not append a tool result: {texts:?}"
                    );
                    assert!(
                        !history_has_tool_call_id(&messages, "c2"),
                        "consumed Mark tool_call must be gone: {texts:?}"
                    );
                    closing.borrow_mut().closed = true;
                    Ok(assistant_text("done".to_string()))
                }
                _ => Ok(assistant_text("extra".to_string())),
            }
        }))
        .build()
        .unwrap();

    run_without_client(&mut invocation).map_err(|e| e.message()).unwrap();
    assert_eq!(ping_hits.get(), 2);
}

#[test]
fn inference_callback_error_surfaces() {
    let mut invocation: Invocation = Args::default()
        .system_prompt("sys".to_string())
        .incoming(channel(vec![text_request("hi")]))
        .inference_callback(Box::new(|_| Err("mock boom".to_string())))
        .build()
        .unwrap();

    let msg = match run_without_client(&mut invocation) {
        Ok(_) => panic!("callback error should fail run"),
        Err(e) => e.message(),
    };
    assert!(
        msg.contains("mock boom") || msg.contains("inference callback"),
        "unexpected error: {msg}"
    );
    assert_eq!(msg, "LLM chat call failed: inference callback failed: mock boom");
}

#[test]
fn seed_messages_appear_before_new_user_turn() {
    let pushed = Rc::new(RefCell::new(Vec::<String>::new()));
    let pushed_cb = pushed.clone();
    let incoming = channel(vec![text_request("fresh user")]);
    let closing = incoming.clone();

    let mut invocation: Invocation = Args::default()
        .system_prompt("sys".to_string())
        .incoming(incoming)
        .seed_messages(vec![
            user_message("prior user turn"),
            assistant(Some("prior assistant turn"), None),
        ])
        .inference_callback(Box::new(|messages| {
            // system + 2 seed + new user
            assert!(
                messages.len() >= 4,
                "expected system + seed×2 + user, got {}",
                messages.len()
            );
            let texts = texts(&messages);
            assert!(
                texts.iter().any(|s| s.contains("prior user turn")),
                "seed user missing: {texts:?}"
            );
            assert!(
                texts.iter().any(|s| s.contains("prior assistant turn")),
                "seed assistant missing: {texts:?}"
            );
            assert!(
                texts.iter().any(|s| s.contains("fresh user")),
                "new user missing: {texts:?}"
            );
            // seed comes before fresh user
            let seed_idx = texts.iter().position(|s| s.contains("prior assistant turn")).unwrap();
            let fresh_idx = texts.iter().position(|s| s.contains("fresh user")).unwrap();
            assert!(seed_idx < fresh_idx);
            Ok(assistant_text("ok after seed".to_string()))
        }))
        .messages_push_callback(Box::new(move |msg| {
            let s = format!("{msg:?}");
            if s.contains("ok after seed") {
                closing.borrow_mut().closed = true;
            }
            pushed_cb.borrow_mut().push(s);
        }))
        .build()
        .unwrap();

    run_without_client(&mut invocation).map_err(|e| e.message()).unwrap();

    let log = pushed.borrow();
    assert!(
        log.iter().any(|s| s.contains("prior user turn")),
        "seed user should be pushed; got {log:?}"
    );
    assert!(
        log.iter().any(|s| s.contains("prior assistant turn")),
        "seed assistant should be pushed; got {log:?}"
    );
}

#[test]
fn multi_tool_count_to_target() {
    let counter = Rc::new(Cell::new(0u32));
    let counter_add = counter.clone();
    let add_tool = normal("Add", move |args| {
        let value = args.get("value").and_then(|v| v.as_u64()).expect("valid tool args") as u32;
        counter_add.set(counter_add.get() + value);
        Ok(String::new())
    });
    let incoming = channel(vec![text_request("Start counting from 0 to 5.")]);
    let closing = incoming.clone();
    let stop_tool = normal("Stop", move |_| {
        closing.borrow_mut().closed = true;
        Ok(String::new())
    });

    let mut invocation: Invocation = Args::default()
        .system_prompt("You are a counter agent.".to_string())
        .tools(vec![add_tool, stop_tool])
        .parallel_tools(false)
        .incoming(incoming)
        .build()
        .unwrap();

    let turns = Cell::new(0usize);
    let model = move |request: ChatRequest, strategy: Option<Vec<u64>>| {
        assert_eq!(request.model, "LocalModel");
        assert_eq!(f32::from_bits(request.temperature.bits), 0.5);
        assert_eq!(request.parallel_tool_calls, Some(false));
        let tools = request.tools.as_ref().unwrap();
        assert_eq!(tools.len(), 2);
        assert_eq!(tools[0].name, "Add");
        assert_eq!(tools[1].name, "Stop");
        assert!(strategy.is_none());
        let n = turns.get();
        turns.set(n + 1);
        let call = if n < 5 {
            dummy_tool_call_id(&format!("c{n}"), "Add", r#"{"value":1}"#)
        } else {
            dummy_tool_call_id(&format!("c{n}"), "Stop", r#"{"result":5}"#)
        };
        Ok((assistant_tool_calls(vec![call]), None))
    };

    let begun = invocation.run(OpenAIClient::new());
    let (_, error) = drive(&invocation, begun, Some(&model));
    assert!(error.is_none(), "run ok");

    let final_count = counter.get();
    assert!(final_count >= 5, "counter should have reached at least 5, got {}", final_count);
    assert_eq!(final_count, 5);
}

// ─── What holds of every run, on chosen values ────────────────────────

/// A scripted run: the inference callback gives these replies in turn and then closes the channel.
fn scripted(
    args: Args,
    requests: Vec<UserRequest>,
    replies: Vec<AssistantReply>,
) -> (Session, Vec<String>, Option<RunError>) {
    let incoming = channel(requests);
    let closing = incoming.clone();
    let replies = RefCell::new(replies.into_iter().collect::<VecDeque<_>>());
    let log = Rc::new(RefCell::new(Vec::<String>::new()));
    let (pushed, swapped, said, idle) = (log.clone(), log.clone(), log.clone(), log.clone());
    let mut invocation = args
        .system_prompt("sys".to_string())
        .incoming(incoming)
        .inference_callback(Box::new(move |_| {
            let mut replies = replies.borrow_mut();
            let reply = replies.pop_front().ok_or("no reply left".to_string());
            if replies.is_empty() {
                closing.borrow_mut().closed = true;
            }
            reply
        }))
        .messages_push_callback(Box::new(move |m| pushed.borrow_mut().push(format!("push {m:?}"))))
        .messages_replace_callback(Box::new(move |old, new| {
            swapped.borrow_mut().push(format!("replace {} {}", old.len(), new.len()))
        }))
        .agent_message_callback(Box::new(move |text| {
            said.borrow_mut().push(format!("say {text}"));
            Ok(())
        }))
        .agent_idle_callback(Box::new(move || {
            idle.borrow_mut().push("idle".to_string());
            Ok(())
        }))
        .build()
        .unwrap();
    let begun = invocation.run_without_client().map_err(|e| e.message()).unwrap();
    let (session, error) = drive(&invocation, begun, None);
    let log = log.borrow().clone();
    (session, log, error)
}

#[test]
fn mirror_follows_pushes_and_replacements() {
    let mirror = Rc::new(RefCell::new(texts(&[system_message("sys")])));
    let (pushed, swapped, shown) = (mirror.clone(), mirror.clone(), mirror.clone());
    let incoming = channel(vec![text_request("go")]);
    let closing = incoming.clone();
    let fold = rewriting("Fold", |_, messages| {
        let mut kept = vec![messages[0].duplicate(), user_message("summary")];
        kept.push(messages.last().unwrap().duplicate());
        Ok(("folded".to_string(), kept))
    });
    let ping = normal("Ping", |_| Ok("pong".to_string()));
    let turns = Cell::new(0usize);
    let mut invocation: Invocation = Args::default()
        .system_prompt("sys".to_string())
        .tools(vec![fold, ping])
        .incoming(incoming)
        .seed_messages(vec![user_message("seed")])
        .inference_callback(Box::new(move |messages| {
            // The mirror shows what the model is asked with.
            assert_eq!(*shown.borrow(), texts(&messages));
            let n = turns.get();
            turns.set(n + 1);
            Ok(match n {
                0 => assistant_tool_calls(vec![dummy_tool_call_id("a", "Ping", "{}")]),
                1 => assistant_tool_calls(vec![dummy_tool_call_id("b", "Fold", "{}")]),
                _ => {
                    closing.borrow_mut().closed = true;
                    assistant_text("end".to_string())
                }
            })
        }))
        .messages_push_callback(Box::new(move |m| {
            assert!(!matches!(m, Message::System(..)));
            pushed.borrow_mut().push(format!("{m:?}"))
        }))
        .messages_replace_callback(Box::new(move |old, new| {
            assert_eq!(*swapped.borrow(), texts(old));
            *swapped.borrow_mut() = texts(new);
        }))
        .build()
        .unwrap();
    let session = run_without_client(&mut invocation).map_err(|e| e.message()).unwrap();
    assert_eq!(*mirror.borrow(), texts(&session.messages));
    // system, summary, the turn with the call, its result, the last text
    assert_eq!(session.messages.len(), 5);
    assert!(format!("{:?}", session.messages[0]).contains("sys"));
}

#[test]
fn seed_alone_asks_for_no_turn() {
    let args = Args::default().seed_messages(vec![user_message("prior")]);
    let (session, log, error) = scripted(args, vec![], vec![]);
    assert!(error.is_none());
    assert_eq!(session.messages.len(), 2);
    assert_eq!(log.len(), 2);
    assert!(log[0].contains("prior"));
    assert_eq!(log[1], "idle");
}

#[test]
fn exit_ends_the_run_before_waiting_messages_are_answered() {
    let (session, log, error) = scripted(
        Args::default(),
        vec![text_request("a"), UserRequest::Exit, text_request("b")],
        vec![],
    );
    assert!(error.is_none());
    assert_eq!(session.messages.len(), 2);
    assert_eq!(log.len(), 1);
}

#[test]
fn closed_channel_ends_the_run_at_once() {
    let incoming = channel(vec![text_request("never read")]);
    incoming.borrow_mut().closed = true;
    let mut invocation: Invocation = Args::default()
        .system_prompt("sys".to_string())
        .incoming(incoming)
        .inference_callback(Box::new(|_| panic!("no turn is due")))
        .build()
        .unwrap();
    let session = run_without_client(&mut invocation).map_err(|e| e.message()).unwrap();
    assert_eq!(session.messages.len(), 1);
}

#[test]
fn waiting_messages_are_answered_together() {
    let (session, _, error) = scripted(
        Args::default(),
        vec![text_request("a"), text_request("b")],
        vec![assistant_text("both".to_string())],
    );
    assert!(error.is_none());
    assert_eq!(session.messages.len(), 4);
    assert!(matches!(session.messages[3], Message::Assistant(_)));
}

#[test]
fn tool_errors_are_relayed_as_text() {
    let failing = normal("Failing", |_| Err("it broke".to_string()));
    let (session, _, error) = scripted(
        Args::default().tools(vec![failing]),
        vec![text_request("go")],
        vec![
            assistant_tool_calls(vec![
                dummy_tool_call_id("c1", "Missing", "{}"),
                dummy_tool_call_id("c2", "Failing", "not json"),
                dummy_tool_call_id("c3", "Failing", "{}"),
            ]),
            assistant_text("ok".to_string()),
        ],
    );
    assert!(error.is_none());
    let results: Vec<(String, String)> = session
        .messages
        .iter()
        .filter_map(|m| match m {
            Message::Tool(TextContent::Text(text), id) => Some((id.clone(), text.clone())),
            _ => None,
        })
        .collect();
    assert_eq!(
        results,
        vec![
            ("c1".to_string(), "Error: unknown tool: Missing".to_string()),
            ("c2".to_string(), "Error: failed to parse tool arguments".to_string()),
            ("c3".to_string(), "Error: it broke".to_string()),
        ]
    );
}

#[test]
fn concurrent_batch_keeps_the_order_of_its_calls() {
    let echo = normal("Echo", |args| Ok(format!("echo {args}")));
    let (session, _, error) = scripted(
        Args::default().tools(vec![echo]).parallel_tools(true),
        vec![text_request("go")],
        vec![
            assistant_tool_calls(vec![
                dummy_tool_call_id("c1", "Echo", "1"),
                dummy_tool_call_id("c2", "Missing", "2"),
                dummy_tool_call_id("c3", "Echo", "["),
                dummy_tool_call_id("c4", "Echo", "4"),
            ]),
            assistant_text("ok".to_string()),
        ],
    );
    assert!(error.is_none());
    let results: Vec<String> = session.messages[3..7]
        .iter()
        .map(|m| match m {
            Message::Tool(TextContent::Text(text), id) => format!("{id}: {text}"),
            other => panic!("{other:?}"),
        })
        .collect();
    assert_eq!(
        results,
        vec![
            "c1: echo 1",
            "c2: Error: unknown tool: Missing",
            "c3: Error: failed to parse tool arguments",
            "c4: echo 4",
        ]
    );
}

#[test]
fn batch_with_a_rewriting_tool_runs_serially() {
    let ping = || normal("Ping", |_| Ok("pong".to_string()));
    let mark = || rewriting("Mark", |_, m| Ok(("ok".to_string(), m)));
    for (calls, expect_parallel) in [
        (vec![("a", "Ping"), ("b", "Ping")], true),
        (vec![("a", "Ping"), ("b", "Mark")], false),
    ] {
        let invocation: Invocation = Args::default()
            .system_prompt("sys".to_string())
            .tools(vec![ping(), mark()])
            .parallel_tools(true)
            .incoming(channel(vec![]))
            .build()
            .unwrap();
        let mut session = state(vec![user_message("go")], Phase::AskedCallback);
        let calls = calls.iter().map(|(id, name)| dummy_tool_call_id(id, name, "{}")).collect();
        let step = session
            .step(&invocation, Event::CallbackReplied(assistant_tool_calls(calls)))
            .unwrap();
        assert_eq!(matches!(step.action, Action::RunParallel(_)), expect_parallel);
        assert_eq!(matches!(step.action, Action::RunTool(_)), !expect_parallel);
    }
}

#[test]
fn rewriting_tool_sees_earlier_results_of_its_batch() {
    let ping = normal("Ping", |_| Ok("pong".to_string()));
    let mark = rewriting("Mark", |_, messages| {
        assert_eq!(messages.len(), 4);
        assert!(format!("{:?}", messages[3]).contains("pong"));
        Ok(("ok".to_string(), messages))
    });
    let (session, log, error) = scripted(
        Args::default().tools(vec![ping, mark]).parallel_tools(true),
        vec![text_request("go")],
        vec![
            assistant_tool_calls(vec![
                dummy_tool_call_id("a", "Ping", "{}"),
                dummy_tool_call_id("b", "Mark", "{}"),
            ]),
            assistant_text("ok".to_string()),
        ],
    );
    assert!(error.is_none());
    assert_eq!(session.messages.len(), 6);
    assert!(!log.iter().any(|s| s.starts_with("replace")));
}

#[test]
fn text_without_calls_is_said_and_text_with_calls_is_not() {
    let ping = normal("Ping", |_| Ok("pong".to_string()));
    let mut both = assistant_tool_calls(vec![dummy_tool_call_id("a", "Ping", "{}")]);
    both.content = Some("let me see".to_string());
    let (_, log, error) = scripted(
        Args::default().tools(vec![ping]),
        vec![text_request("go")],
        vec![both, assistant_text("seen".to_string())],
    );
    assert!(error.is_none());
    let said: Vec<&String> = log.iter().filter(|s| s.starts_with("say")).collect();
    assert_eq!(said, vec!["say seen"]);
}

#[test]
fn empty_list_of_calls_asks_for_another_turn() {
    let mut empty = assistant_tool_calls(vec![]);
    empty.content = Some("thinking".to_string());
    let (session, log, error) = scripted(
        Args::default(),
        vec![text_request("go")],
        vec![empty, assistant_text("done".to_string())],
    );
    assert!(error.is_none());
    assert_eq!(session.messages.len(), 4);
    let said: Vec<&String> = log.iter().filter(|s| s.starts_with("say")).collect();
    assert_eq!(said, vec!["say thinking", "say done"]);
}

#[test]
fn refusal_is_recorded_and_nothing_is_said() {
    let refusal = AssistantReply {
        content: None,
        refusal: Some("no".to_string()),
        tool_calls: None,
        role: Role::Assistant,
        function_call: Some(FunctionCall { name: "f".to_string(), arguments: "{}".to_string() }),
        audio: Some(ReplyAudio {
            id: "sound".to_string(),
            expires_at: 1,
            data: "AAAA".to_string(),
            transcript: "no".to_string(),
        }),
    };
    let (session, log, error) =
        scripted(Args::default(), vec![text_request("go")], vec![refusal]);
    assert!(error.is_none());
    match &session.messages[2] {
        Message::Assistant(turn) => {
            assert_eq!(turn.refusal.as_deref(), Some("no"));
            assert!(turn.content.is_none());
            assert!(turn.tool_calls.is_none());
            assert!(turn.audio.is_none());
            assert!(turn.function_call.is_none());
        }
        other => panic!("{other:?}"),
    }
    assert!(!log.iter().any(|s| s.starts_with("say")));
}

#[test]
fn temperature_and_retry_strategy_reach_the_request() {
    let incoming = channel(vec![
        UserRequest::ChangeTemperature(Temperature { bits: 0.25f32.to_bits() }),
        text_request("go"),
    ]);
    let closing = incoming.clone();
    let usages = Rc::new(RefCell::new(Vec::<TokenUsage>::new()));
    let usages_cb = usages.clone();
    let mut invocation: Invocation = Args::default()
        .system_prompt("sys".to_string())
        .incoming(incoming)
        .parallel_tools(true)
        .retry_strategy(vec![10, 20])
        .usage_callback(Box::new(move |u| usages_cb.borrow_mut().push(u)))
        .build()
        .unwrap();
    let usage = TokenUsage {
        prompt_tokens: 5,
        completion_tokens: 2,
        total_tokens: 7,
        cached_prompt_tokens: Some(1),
    };
    let model = move |request: ChatRequest, strategy: Option<Vec<u64>>| {
        assert_eq!(f32::from_bits(request.temperature.bits), 0.25);
        assert_eq!(request.parallel_tool_calls, Some(true));
        assert_eq!(request.tools.as_ref().map(|t| t.len()), Some(0));
        assert_eq!(strategy, Some(vec![10, 20]));
        closing.borrow_mut().closed = true;
        Ok((assistant_text("hi".to_string()), Some(usage)))
    };
    let begun = invocation.run(OpenAIClient::new());
    let (session, error) = drive(&invocation, begun, Some(&model));
    assert!(error.is_none());
    assert_eq!(session.messages.len(), 3);
    assert_eq!(*usages.borrow(), vec![usage]);
    // A second strategy is as fresh as the first.
    assert_eq!(invocation.fresh_retry_strategy(), Some(vec![10, 20]));
}

#[test]
fn requests_carry_the_last_temperature_and_usages_come_in_order() {
    let warm = |t: f32| UserRequest::ChangeTemperature(Temperature { bits: t.to_bits() });
    let incoming = channel(vec![text_request("first")]);
    let line = incoming.clone();
    let usages = Rc::new(RefCell::new(Vec::<TokenUsage>::new()));
    let usages_cb = usages.clone();
    let mut invocation: Invocation = Args::default()
        .system_prompt("sys".to_string())
        .incoming(incoming)
        .usage_callback(Box::new(move |u| usages_cb.borrow_mut().push(u)))
        .build()
        .unwrap();
    let usage = |n: u32| TokenUsage {
        prompt_tokens: n,
        completion_tokens: 1,
        total_tokens: n + 1,
        cached_prompt_tokens: None,
    };
    let asked = RefCell::new(Vec::<f32>::new());
    let model = |request: ChatRequest, _: Option<Vec<u64>>| {
        asked.borrow_mut().push(f32::from_bits(request.temperature.bits));
        let turn = asked.borrow().len();
        let mut line = line.borrow_mut();
        match turn {
            1 => {
                line.queue.push_back(warm(0.9));
                line.queue.push_back(warm(0.25));
                line.queue.push_back(text_request("second"));
            }
            2 => line.queue.push_back(text_request("third")),
            _ => line.closed = true,
        }
        let told = if turn == 2 { None } else { Some(usage(turn as u32)) };
        Ok((assistant_text("ok".to_string()), told))
    };
    let begun = invocation.run(OpenAIClient::new());
    let (_, error) = drive(&invocation, begun, Some(&model));
    assert!(error.is_none());
    assert_eq!(*asked.borrow(), vec![0.5, 0.25, 0.25]);
    assert_eq!(*usages.borrow(), vec![usage(1), usage(3)]);
}

#[test]
fn callback_wins_over_the_client() {
    let incoming = channel(vec![text_request("go")]);
    let closing = incoming.clone();
    let mut invocation: Invocation = Args::default()
        .system_prompt("sys".to_string())
        .incoming(incoming)
        .inference_callback(Box::new(move |_| {
            closing.borrow_mut().closed = true;
            Ok(assistant_text("mine".to_string()))
        }))
        .build()
        .unwrap();
    let model = |_: ChatRequest, _: Option<Vec<u64>>| -> Result<(AssistantReply, Option<TokenUsage>), String> {
        panic!("the client is not contacted")
    };
    let begun = invocation.run(OpenAIClient::new());
    let (session, error) = drive(&invocation, begun, Some(&model));
    assert!(error.is_none());
    assert!(format!("{:?}", session.messages[2]).contains("mine"));
}

#[test]
fn failures_end_the_run_with_their_text() {
    // The model fails.
    let mut invocation: Invocation = Args::default()
        .system_prompt("sys".to_string())
        .incoming(channel(vec![text_request("go")]))
        .build()
        .unwrap();
    let model = |_: ChatRequest, _: Option<Vec<u64>>| Err("503".to_string());
    let begun = invocation.run(OpenAIClient::new());
    let (_, error) = drive(&invocation, begun, Some(&model));
    assert_eq!(error.unwrap().message(), "LLM chat call failed: 503");

    // The idle callback fails.
    let mut invocation: Invocation = Args::default()
        .system_prompt("sys".to_string())
        .incoming(channel(vec![]))
        .inference_callback(Box::new(|_| panic!("no turn is due")))
        .agent_idle_callback(Box::new(|| Err("idle failed".to_string())))
        .build()
        .unwrap();
    let error = run_without_client(&mut invocation).err().unwrap();
    assert_eq!(error.message(), "idle failed");

    // The message callback fails.
    let mut invocation: Invocation = Args::default()
        .system_prompt("sys".to_string())
        .incoming(channel(vec![text_request("go")]))
        .inference_callback(Box::new(|_| Ok(assistant_text("hi".to_string()))))
        .agent_message_callback(Box::new(|_| Err("say failed".to_string())))
        .build()
        .unwrap();
    let error = run_without_client(&mut invocation).err().unwrap();
    assert_eq!(error.message(), "say failed");

    // A turn is due and nobody answers.
    let invocation: Invocation = Args::default()
        .system_prompt("sys".to_string())
        .incoming(channel(vec![]))
        .build()
        .unwrap();
    let mut session = state(vec![system_message("sys")], Phase::Poll);
    session.pending = true;
    let step = session.step(&invocation, Event::Polled(None)).unwrap();
    match step.action {
        Action::Finish(Some(e)) => assert_eq!(
            e.message(),
            "LLM chat call failed: OpenAIClient required when inference_callback is not set"
        ),
        _ => panic!("the run ends"),
    }
}

#[test]
fn unexpected_events_are_not_taken() {
    let invocation: Invocation = Args::default()
        .system_prompt("sys".to_string())
        .incoming(channel(vec![]))
        .build()
        .unwrap();
    let mut session = state(vec![system_message("sys")], Phase::CheckClosed);
    assert!(session.step(&invocation, Event::Polled(None)).is_none());
    assert!(session.step(&invocation, Event::ToolDone(Outcome::Done(String::new()))).is_none());
    assert!(matches!(session.phase, Phase::CheckClosed));
    let step = session.step(&invocation, Event::Closed(true)).unwrap();
    assert!(matches!(step.action, Action::Finish(None)));
    assert!(session.step(&invocation, Event::Closed(false)).is_none());
}

#[test]
fn batch_without_its_outcomes_is_not_settled() {
    let ping = normal("Ping", |_| Ok("pong".to_string()));
    let invocation: Invocation = Args::default()
        .system_prompt("sys".to_string())
        .tools(vec![ping])
        .parallel_tools(true)
        .incoming(channel(vec![]))
        .build()
        .unwrap();
    let mut session = state(vec![user_message("go")], Phase::AskedCallback);
    let calls = vec![dummy_tool_call_id("a", "Ping", "{}"), dummy_tool_call_id("b", "Nope", "{}")];
    let step =
        session.step(&invocation, Event::CallbackReplied(assistant_tool_calls(calls))).unwrap();
    match &step.action {
        Action::RunParallel(jobs) => {
            assert!(jobs[0].is_some());
            assert!(jobs[1].is_none());
        }
        _ => panic!("a batch"),
    }
    assert!(session.step(&invocation, Event::ParallelDone(vec![])).is_none());
    assert!(session.step(&invocation, Event::ParallelDone(vec![None, None])).is_none());
    let done = Event::ParallelDone(vec![Some(Outcome::Done("pong".to_string())), None]);
    let step = session.step(&invocation, done).unwrap();
    assert_eq!(step.effects.len(), 2);
    assert_eq!(session.messages.len(), 4);
}

#[test]
fn rewriting_tool_is_refused_beside_others() {
    let mark = rewriting("Mark", |_, m| Ok(("ok".to_string(), m)));
    let e = da_harness::multi_tool::tool::execute_tool(
        &vec![mark],
        &dummy_tool_call("Mark", "{}"),
    )
    .err()
    .unwrap();
    assert_eq!(
        e.message(),
        "internal error: rewriting tool 'Mark' invoked on parallel execute_tool path"
    );
}

#[test]
fn first_tool_with_the_name_is_called() {
    let tools: Vec<TestTool> =
        vec![normal("A", |_| Ok("1".to_string())), normal("A", |_| Ok("2".to_string()))];
    assert_eq!(da_harness::multi_tool::tool::find_tool(&tools, "A"), Some(0));
    assert_eq!(da_harness::multi_tool::tool::find_tool(&tools, "B"), None);
}

#[test]
fn builder_asks_for_prompt_and_channel() {
    let e = Args::default().incoming(channel(vec![])).build().err().unwrap();
    assert_eq!(e.message(), "`system_prompt` must be initialized");
    let e = Args::default().system_prompt("sys".to_string()).build().err().unwrap();
    assert_eq!(e.message(), "`incoming` must be initialized");
    let e = Args::default().build().err().unwrap();
    assert_eq!(e.message(), "`system_prompt` must be initialized");
    let built = Args::default()
        .system_prompt("sys".to_string())
        .incoming(channel(vec![]))
        .build()
        .ok()
        .unwrap();
    assert!(built.tools.is_empty());
    assert!(!built.parallel_tools);
    assert!(built.seed_messages.is_empty());
    assert!(built.retry_strategy.is_none());
    assert!(built.fresh_retry_strategy().is_none());
}

#[test]
fn messages_are_told_apart_by_what_they_hold() {
    let a = vec![
        system_message("s"),
        assistant(Some("x"), Some(vec![dummy_tool_call("T", "{}")])),
        tool_result_msg("call_test", "r"),
    ];
    assert!(a.same(&a.duplicate()));
    let mut b = a.duplicate();
    b.pop();
    assert!(!a.same(&b));
    let mut c = a.duplicate();
    c[2] = tool_result_msg("call_test", "other");
    assert!(!a.same(&c));
    let mut d = a.duplicate();
    d[1] = assistant(Some("x"), None);
    assert!(!a.same(&d));
}

#[test]
fn history_only_grows_without_a_replacement() {
    let ping = normal("Ping", |_| Ok("pong".to_string()));
    let args = Args::default()
        .tools(vec![ping])
        .seed_messages(vec![user_message("prior")])
        .usage_callback(Box::new(|_| panic!("the callback reports no usage")));
    let (session, log, error) = scripted(
        args,
        vec![text_request("go")],
        vec![
            assistant_tool_calls(vec![dummy_tool_call_id("a", "Ping", "{}")]),
            assistant_text("done".to_string()),
        ],
    );
    assert!(error.is_none());
    let pushed: Vec<&String> = log.iter().filter(|s| s.starts_with("push")).collect();
    assert_eq!(pushed.len(), 5);
    assert_eq!(session.messages.len(), 6);
    assert!(session.messages[0].same(&system_message("sys")));
    assert!(session.messages[1].same(&user_message("prior")));
    assert!(session.messages[2].same(&user_message("go")));
    assert!(session.messages[4].same(&tool_result_msg("a", "pong")));
    for (k, m) in session.messages[1..].iter().enumerate() {
        assert_eq!(*pushed[k], format!("push {m:?}"));
    }
}

#[test]
fn calls_run_in_order_and_once() {
    let order = Rc::new(RefCell::new(Vec::<String>::new()));
    let order_cb = order.clone();
    let echo = normal("Echo", move |args| {
        order_cb.borrow_mut().push(args.to_string());
        Ok(args.to_string())
    });
    let (session, _, error) = scripted(
        Args::default().tools(vec![echo]),
        vec![text_request("go")],
        vec![
            assistant_tool_calls(vec![
                dummy_tool_call_id("a", "Echo", "1"),
                dummy_tool_call_id("b", "Nope", "2"),
                dummy_tool_call_id("c", "Echo", "3"),
                dummy_tool_call_id("d", "Echo", "4"),
            ]),
            assistant_text("ok".to_string()),
        ],
    );
    assert!(error.is_none());
    assert_eq!(*order.borrow(), vec!["1", "3", "4"]);
    let ids: Vec<&str> = session
        .messages
        .iter()
        .filter_map(|m| match m {
            Message::Tool(_, id) => Some(id.as_str()),
            _ => None,
        })
        .collect();
    assert_eq!(ids, vec!["a", "b", "c", "d"]);
}

use std::collections::HashMap;

use da_harness::client::ChatRequest;
use da_harness::multi_tool::message::{Message, TextContent, UserContent};
use da_harness::single_tool::agent_loop::{
    Briefing, LoopAction, LoopEvent, LoopPhase, TypedLoop,
};
use da_harness::single_tool::compaction::{build_summary_prompt, should_compact, KEPT_TURNS};
use da_harness::single_tool::prompt::{build_user_prompt, Encoded, Turn};
use da_harness::{
    run_loop, run_loop_with_max, CompactPolicy, LLMConfig, LoopConfig, LoopConfigBuilder,
    LoopControl, OpenAIClient, RestoreState, SavePoint, TokenUsage,
};

// ─── A host on one thread ─────────────────────────────────────────────

trait Agent {
    type Request: Clone;
    type Response: Clone;
    type Output;

    fn encode(&self, request: &Self::Request) -> String;
    fn parse(&self, json: &str) -> Option<Self::Response>;
    fn encode_response(&self, response: &Self::Response) -> String;
    fn examples(&self) -> Vec<(Self::Request, Self::Response)>;
    fn initial_input(&self) -> Self::Request;
    fn iteration(
        &mut self,
        response: Self::Response,
        history: &[(Self::Request, Self::Response)],
    ) -> Result<Self::Request, Self::Output>;

    fn restore(
        &mut self,
    ) -> Option<(Vec<(Self::Request, Self::Response)>, Self::Request, Option<String>)> {
        None
    }

    fn save(&mut self, _history_len: usize, _summary: Option<&str>, _current: &Self::Request, _point: SavePoint) {}
}

fn encoded<T: Clone>(value: &T, json: String) -> Encoded<T> {
    Encoded { value: value.clone(), json }
}

fn turns<A: Agent>(agent: &A, pairs: &[(A::Request, A::Response)]) -> Vec<Turn<A::Request, A::Response>> {
    pairs
        .iter()
        .map(|(q, r)| Turn {
            request: encoded(q, agent.encode(q)),
            response: encoded(r, agent.encode_response(r)),
        })
        .collect()
}

fn user_text(request: &ChatRequest) -> String {
    match &request.messages[1] {
        Message::User(UserContent::Text(text), None) => text.clone(),
        other => panic!("{other:?}"),
    }
}

struct Scripted<'a> {
    reply: &'a mut dyn FnMut(&str) -> Result<(String, Option<TokenUsage>), String>,
    summarize: &'a mut dyn FnMut(&str) -> Result<String, String>,
    discover: Option<usize>,
}

fn drive<A: Agent>(
    client: &OpenAIClient,
    agent: &mut A,
    config: LoopConfig,
    model: &mut Scripted,
) -> Result<A::Output, String> {
    let begun = run_loop::<A::Request, A::Response, A::Output>(client, config);
    let mut typed = begun.typed_loop;
    let mut action = begun.action;
    for _ in 0..10_000 {
        let event = match action {
            LoopAction::Discover => LoopEvent::Discovered(model.discover),
            LoopAction::Restore => {
                let saved = agent.restore().map(|(history, current, summary)| RestoreState {
                    history: turns(agent, &history),
                    current_request: encoded(&current, agent.encode(&current)),
                    previous_summary: summary,
                });
                let initial = agent.initial_input();
                let json = agent.encode(&initial);
                LoopEvent::Restored(saved, encoded(&initial, json))
            }
            LoopAction::Save(point) => {
                let current = typed.current_request().expect("a request").value.clone();
                agent.save(typed.history.len(), typed.summary.as_deref(), &current, point);
                LoopEvent::Saved
            }
            LoopAction::Describe => LoopEvent::Described(Briefing {
                system_prompt: "system".to_string(),
                user_prompt: "instructions".to_string(),
                schema: None,
                examples: turns(agent, &agent.examples()),
                extension: None,
            }),
            LoopAction::Ask(request) => {
                assert_eq!(f32::from_bits(request.temperature.bits), 0.6);
                assert!(request.tools.is_none());
                match (model.reply)(&user_text(&request)) {
                    Ok((text, usage)) => LoopEvent::Replied(text, usage),
                    Err(text) => LoopEvent::ChatFailed(text),
                }
            }
            LoopAction::Parse(json) => match agent.parse(&json) {
                Some(r) => {
                    let text = agent.encode_response(&r);
                    LoopEvent::Parsed(encoded(&r, text))
                }
                None => LoopEvent::ParseFailed,
            },
            LoopAction::Summarize(request) => match (model.summarize)(&user_text(&request)) {
                Ok(text) => LoopEvent::Summarized(text),
                Err(_) => LoopEvent::SummaryFailed,
            },
            LoopAction::Iterate => {
                let pairs: Vec<(A::Request, A::Response)> = typed
                    .history
                    .iter()
                    .map(|t| (t.request.value.clone(), t.response.value.clone()))
                    .collect();
                let response = pairs.last().unwrap().1.clone();
                match agent.iteration(response, &pairs) {
                    Ok(next) => {
                        let json = agent.encode(&next);
                        LoopEvent::Iterated(LoopControl::Continue(encoded(&next, json)))
                    }
                    Err(output) => LoopEvent::Iterated(LoopControl::Stop(output)),
                }
            }
            LoopAction::Stop(output) => return Ok(output),
            LoopAction::Fail(e) => return Err(e.message()),
        };
        action = typed.step(event).expect("an event that the loop waits for");
    }
    panic!("the loop did not end");
}

// ─── A counting agent ─────────────────────────────────────────────────

#[derive(Clone, Debug)]
struct CountRequest {
    current: u32,
    target: u32,
}

#[derive(Clone, Debug)]
struct CountResponse {
    increment: bool,
    done: bool,
}

struct SaveRecord {
    history_len: usize,
    has_summary: bool,
    current: u32,
    save_point: SavePoint,
}

struct CountAgent {
    target: u32,
    restore_called: bool,
    restore_payload: Option<(Vec<(CountRequest, CountResponse)>, CountRequest, Option<String>)>,
    saves: Vec<SaveRecord>,
}

impl CountAgent {
    fn new(target: u32) -> CountAgent {
        CountAgent { target, restore_called: false, restore_payload: None, saves: vec![] }
    }
}

impl Agent for CountAgent {
    type Request = CountRequest;
    type Response = CountResponse;
    type Output = u32;

    fn encode(&self, request: &CountRequest) -> String {
        format!("{{\"current\":{},\"target\":{}}}", request.current, request.target)
    }

    fn parse(&self, json: &str) -> Option<CountResponse> {
        let v: serde_json::Value = serde_json::from_str(json).ok()?;
        Some(CountResponse {
            increment: v.get("increment")?.as_bool()?,
            done: v.get("done")?.as_bool()?,
        })
    }

    fn encode_response(&self, response: &CountResponse) -> String {
        format!("{{\"increment\":{},\"done\":{}}}", response.increment, response.done)
    }

    fn examples(&self) -> Vec<(CountRequest, CountResponse)> {
        vec![
            (
                CountRequest { current: 0, target: 2 },
                CountResponse { increment: true, done: false },
            ),
            (
                CountRequest { current: 2, target: 2 },
                CountResponse { increment: false, done: true },
            ),
        ]
    }

    fn initial_input(&self) -> CountRequest {
        CountRequest { current: 0, target: self.target }
    }

    fn iteration(
        &mut self,
        response: CountResponse,
        history: &[(CountRequest, CountResponse)],
    ) -> Result<CountRequest, u32> {
        let last = history.last().map(|(r, _)| r.current).unwrap_or(0);
        if response.done {
            return Err(last);
        }
        let next = if response.increment { last + 1 } else { last };
        Ok(CountRequest { current: next, target: self.target })
    }

    fn restore(
        &mut self,
    ) -> Option<(Vec<(CountRequest, CountResponse)>, CountRequest, Option<String>)> {
        self.restore_called = true;
        self.restore_payload.take()
    }

    fn save(&mut self, history_len: usize, summary: Option<&str>, current: &CountRequest, save_point: SavePoint) {
        self.saves.push(SaveRecord {
            history_len,
            has_summary: summary.is_some(),
            current: current.current,
            save_point,
        });
    }
}

/// Answers a counting prompt as a careful model would.
fn count_reply(prompt: &str, target: u32) -> String {
    let current = prompt.rsplit("{\"current\":").next().unwrap();
    let current: u32 = current.split(',').next().unwrap().parse().unwrap();
    if current >= target {
        "```json\n{\"increment\":false,\"done\":true}\n```".to_string()
    } else {
        "{\"increment\":true,\"done\":false}".to_string()
    }
}

fn tokens(prompt_tokens: u32) -> Option<TokenUsage> {
    Some(TokenUsage {
        prompt_tokens,
        completion_tokens: 1,
        total_tokens: prompt_tokens + 1,
        cached_prompt_tokens: None,
    })
}

fn no_summary(_: &str) -> Result<String, String> {
    panic!("no summary is asked for")
}

#[test]
fn persistence_hooks_fire_correctly() {
    let mut agent = CountAgent::new(3);
    let config = LoopConfigBuilder::default().max_iterations(Some(10)).try_build().unwrap();
    let mut reply = |prompt: &str| Ok((count_reply(prompt, 3), None));
    let mut model =
        Scripted { reply: &mut reply, summarize: &mut no_summary, discover: None };

    let output =
        drive(&OpenAIClient::new(), &mut agent, config, &mut model).expect("agent loop failed");
    assert_eq!(output, 3, "expected counter to reach target 3");
    assert!(agent.restore_called, "restore() was not called");

    let saves = &agent.saves;
    assert_eq!(saves.len(), 4, "expected 4 save calls, got {}", saves.len());

    assert_eq!(saves[0].history_len, 1);
    assert!(!saves[0].has_summary);
    assert_eq!(saves[0].current, 1);
    assert_eq!(saves[0].save_point, SavePoint::Continue);

    assert_eq!(saves[1].history_len, 2);
    assert!(!saves[1].has_summary);
    assert_eq!(saves[1].current, 2);
    assert_eq!(saves[1].save_point, SavePoint::Continue);

    assert_eq!(saves[2].history_len, 3);
    assert!(!saves[2].has_summary);
    assert_eq!(saves[2].current, 3);
    assert_eq!(saves[2].save_point, SavePoint::Continue);

    assert_eq!(saves[3].history_len, 4);
    assert_eq!(saves[3].save_point, SavePoint::Final);
    assert_eq!(saves[3].current, 3);
}

#[test]
fn restore_from_middle_state() {
    let mut agent = CountAgent::new(3);
    agent.restore_payload = Some((
        vec![
            (
                CountRequest { current: 0, target: 3 },
                CountResponse { increment: true, done: false },
            ),
            (
                CountRequest { current: 1, target: 3 },
                CountResponse { increment: true, done: false },
            ),
        ],
        CountRequest { current: 2, target: 3 },
        Some("Counter was incremented from 0 to 2. Target is 3.".to_string()),
    ));
    let config = LoopConfigBuilder::default().max_iterations(Some(10)).try_build().unwrap();
    let mut reply = |prompt: &str| {
        assert!(prompt.contains(
            "## PREVIOUS SESSIONS SUMMARY\nCounter was incremented from 0 to 2. Target is 3.\n"
        ));
        Ok((count_reply(prompt, 3), None))
    };
    let mut model =
        Scripted { reply: &mut reply, summarize: &mut no_summary, discover: None };

    let output =
        drive(&OpenAIClient::new(), &mut agent, config, &mut model).expect("agent loop failed");
    assert_eq!(output, 3, "expected counter to reach target 3 from restored state");
    assert!(agent.restore_called, "restore() was not called");

    let saves = &agent.saves;
    assert_eq!(saves.len(), 2, "expected 2 save calls, got {}", saves.len());

    assert_eq!(saves[0].history_len, 3);
    assert!(saves[0].has_summary, "expected the restored summary to be present");
    assert_eq!(saves[0].current, 3);
    assert_eq!(saves[0].save_point, SavePoint::Continue);

    assert_eq!(saves[1].history_len, 4);
    assert!(saves[1].has_summary, "expected the restored summary to still be present");
    assert_eq!(saves[1].save_point, SavePoint::Final);
}

#[test]
fn compaction_forces_summary_and_truncation() {
    let config = LoopConfigBuilder::default()
        .max_iterations(Some(30))
        .compact_policy(CompactPolicy::Override(700))
        .try_build()
        .unwrap();
    let mut agent = CountAgent::new(10);
    let mut prompts = Vec::new();
    let mut reply = |prompt: &str| {
        prompts.push(prompt.to_string());
        Ok((count_reply(prompt, 10), tokens(554)))
    };
    let mut summaries = 0;
    let mut summarize = |prompt: &str| {
        summaries += 1;
        assert!(prompt.contains("## CONVERSATION HISTORY"));
        assert!(prompt.contains("in about 175 tokens"));
        Ok(format!("summary {summaries}"))
    };
    let mut model =
        Scripted { reply: &mut reply, summarize: &mut summarize, discover: None };

    let final_count = drive(&OpenAIClient::new(), &mut agent, config, &mut model)
        .expect("agent loop with forced compaction should succeed");

    assert_eq!(
        final_count, 10,
        "expected to reach target 10 via increments (possibly after compaction), got {}",
        final_count
    );
    // Every turn fills the window, so that each is followed by a summary.
    assert_eq!(prompts.len(), 11);
    assert_eq!(summaries, 11);
    assert!(!prompts[0].contains("SUMMARY"));
    assert!(prompts[1].contains("## PREVIOUS SESSIONS SUMMARY\nsummary 1\n"));
    assert!(prompts[10].contains("summary 10"));
    assert!(agent.saves.iter().all(|s| s.history_len <= KEPT_TURNS));
    assert!(agent.saves.iter().all(|s| s.has_summary));
}

#[test]
fn failed_summary_leaves_the_history() {
    let config = LoopConfigBuilder::default()
        .compact_policy(CompactPolicy::Override(4))
        .try_build()
        .unwrap();
    let mut agent = CountAgent::new(5);
    let mut reply = |prompt: &str| Ok((count_reply(prompt, 5), tokens(3)));
    let mut summarize = |_: &str| Err("no".to_string());
    let mut model =
        Scripted { reply: &mut reply, summarize: &mut summarize, discover: None };
    assert_eq!(drive(&OpenAIClient::new(), &mut agent, config, &mut model), Ok(5));
    assert_eq!(agent.saves.last().unwrap().history_len, 6);
    assert!(!agent.saves.last().unwrap().has_summary);
}

#[test]
fn window_comes_from_the_policy_the_client_or_the_server() {
    type Loop = TypedLoop<(), (), ()>;
    let client = OpenAIClient::new();
    let knowing = OpenAIClient::with_config(LLMConfig {
        max_context_tokens: Some(99),
        ..LLMConfig::default()
    });
    let config = |policy| LoopConfig { max_iterations: None, compact_policy: policy };

    let begun = run_loop::<(), (), ()>(&client, config(CompactPolicy::Discover));
    assert!(matches!(begun.action, LoopAction::Discover));
    let mut typed: Loop = begun.typed_loop;
    assert!(matches!(typed.step(LoopEvent::Discovered(Some(7))), Some(LoopAction::Restore)));
    assert_eq!(typed.window, Some(7));

    let begun = run_loop::<(), (), ()>(&knowing, config(CompactPolicy::Discover));
    assert!(matches!(begun.action, LoopAction::Restore));
    assert_eq!(begun.typed_loop.window, Some(99));

    let begun = run_loop::<(), (), ()>(&knowing, config(CompactPolicy::NoCompact));
    assert!(matches!(begun.action, LoopAction::Restore));
    assert_eq!(begun.typed_loop.window, None);

    let begun = run_loop::<(), (), ()>(&knowing, config(CompactPolicy::Override(5)));
    assert_eq!(begun.typed_loop.window, Some(5));

    let begun = run_loop_with_max::<(), (), ()>(&knowing, 4);
    assert_eq!(begun.typed_loop.window, Some(99));
    assert_eq!(begun.typed_loop.budget.unwrap().max, 4);
    assert_eq!(begun.typed_loop.model, "LocalModel");
}

#[test]
fn threshold_is_three_quarters() {
    assert!(should_compact(525, 700));
    assert!(should_compact(554, 700));
    assert!(!should_compact(524, 700));
    assert!(should_compact(3, 4));
    assert!(!should_compact(2, 4));
    assert!(should_compact(0, 0));
    assert!(!should_compact(u32::MAX, usize::MAX));
}

#[test]
fn limit_ends_the_loop() {
    for max in [0usize, 1, 2] {
        let mut agent = CountAgent::new(50);
        let config = LoopConfigBuilder::default().max_iterations(Some(max)).try_build().unwrap();
        let mut asked = 0;
        let mut reply = |prompt: &str| {
            asked += 1;
            Ok((count_reply(prompt, 50), None))
        };
        let mut model =
            Scripted { reply: &mut reply, summarize: &mut no_summary, discover: None };
        let error = drive(&OpenAIClient::new(), &mut agent, config, &mut model).unwrap_err();
        assert_eq!(error, format!("too many iterations (max {max})"));
        assert_eq!(asked, max);
    }
    // Without a limit the loop takes the turns it needs.
    let mut agent = CountAgent::new(40);
    let config = LoopConfigBuilder::default().try_build().unwrap();
    assert_eq!(config.max_iterations, None);
    assert_eq!(config.compact_policy, CompactPolicy::Discover);
    let mut reply = |prompt: &str| Ok((count_reply(prompt, 40), tokens(1_000_000)));
    let mut model =
        Scripted { reply: &mut reply, summarize: &mut no_summary, discover: None };
    assert_eq!(drive(&OpenAIClient::new(), &mut agent, config, &mut model), Ok(40));
}

#[test]
fn failures_end_the_loop_with_their_text() {
    let config = LoopConfigBuilder::default().try_build().unwrap();
    let mut agent = CountAgent::new(3);
    let mut reply = |_: &str| Err("refused".to_string());
    let mut model =
        Scripted { reply: &mut reply, summarize: &mut no_summary, discover: None };
    let error = drive(&OpenAIClient::new(), &mut agent, config, &mut model).unwrap_err();
    assert_eq!(error, "LLM chat call failed: refused");

    let mut agent = CountAgent::new(3);
    let mut reply = |_: &str| Ok(("```json\nnot json\n```".to_string(), None));
    let mut model =
        Scripted { reply: &mut reply, summarize: &mut no_summary, discover: None };
    let error = drive(&OpenAIClient::new(), &mut agent, config, &mut model).unwrap_err();
    assert_eq!(error, "failed to deserialize LLM response: ```json\nnot json\n```");
}

fn no_briefing<Q, R>() -> Briefing<Q, R> {
    Briefing {
        system_prompt: String::new(),
        user_prompt: String::new(),
        schema: None,
        examples: vec![],
        extension: None,
    }
}

#[test]
fn answer_with_wide_characters_is_taken() {
    let begun = run_loop::<u8, u8, ()>(
        &OpenAIClient::new(),
        LoopConfig { max_iterations: None, compact_policy: CompactPolicy::NoCompact },
    );
    let mut typed = begun.typed_loop;
    let first = Encoded { value: 1u8, json: "1".to_string() };
    assert!(matches!(typed.step(LoopEvent::Restored(None, first)), Some(LoopAction::Describe)));
    assert!(typed.step(LoopEvent::Saved).is_none());
    assert!(matches!(typed.step(LoopEvent::Described(no_briefing())), Some(LoopAction::Ask(_))));
    match typed.step(LoopEvent::Replied("```\n{\"日\":1}\n```".to_string(), None)) {
        Some(LoopAction::Parse(json)) => assert_eq!(json, "{\"日\":1}"),
        other => panic!("{other:?}"),
    }
    assert_eq!(typed.current_request().unwrap().value, 1);
}

#[test]
fn failed_discovery_leaves_the_window_unknown() {
    let begun = run_loop_with_max::<u32, u32, ()>(&OpenAIClient::new(), 2);
    assert!(matches!(begun.action, LoopAction::Discover));
    let mut typed = begun.typed_loop;
    assert!(matches!(typed.step(LoopEvent::DiscoveryFailed), Some(LoopAction::Restore)));
    assert_eq!(typed.window, None);
    assert!(typed.step(LoopEvent::DiscoveryFailed).is_none());
    // Without a window there is no summary, however long the prompt was.
    typed.step(LoopEvent::Restored(None, number(0))).unwrap();
    assert!(matches!(to_iterate(&mut typed, tokens(1_000_000), 1), LoopAction::Iterate));
}

#[test]
fn every_turn_is_asked_with_all_the_turns_before_it() {
    let begun = run_loop::<u32, u32, ()>(
        &OpenAIClient::new(),
        LoopConfig { max_iterations: None, compact_policy: CompactPolicy::NoCompact },
    );
    let mut typed = begun.typed_loop;
    let saved = RestoreState {
        history: vec![Turn { request: number(7), response: number(17) }],
        current_request: number(0),
        previous_summary: Some("before".to_string()),
    };
    typed.step(LoopEvent::Restored(Some(saved), number(99))).unwrap();
    let mut history =
        "## CONVERSATION HISTORY\n\nINPUT (JSON): 7\nOUTPUT (JSON): 17\n\n".to_string();
    let mut seen = vec![(7u32, 17u32)];
    for n in 0..5u32 {
        if n > 0 {
            assert!(matches!(typed.step(LoopEvent::Saved), Some(LoopAction::Describe)));
        }
        match typed.step(LoopEvent::Described(no_briefing())) {
            Some(LoopAction::Ask(request)) => assert_eq!(
                user_text(&request),
                format!(
                    "\n## PREVIOUS SESSIONS SUMMARY\nbefore\n{history}## CURRENT INPUT (JSON):\n{n}\n"
                )
            ),
            other => panic!("{other:?}"),
        }
        typed.step(LoopEvent::Replied((10 + n).to_string(), tokens(9_999))).unwrap();
        assert!(matches!(
            typed.step(LoopEvent::Parsed(number(10 + n))),
            Some(LoopAction::Iterate)
        ));
        history += &format!("INPUT (JSON): {n}\nOUTPUT (JSON): {}\n\n", 10 + n);
        seen.push((n, 10 + n));
        let held: Vec<(u32, u32)> =
            typed.history.iter().map(|t| (t.request.value, t.response.value)).collect();
        assert_eq!(held, seen);
        typed.step(LoopEvent::Iterated(LoopControl::Continue(number(n + 1)))).unwrap();
    }
}

// ─── A key-value agent ────────────────────────────────────────────────

struct KvAgent {
    store: HashMap<String, String>,
}

impl Agent for KvAgent {
    type Request = String;
    type Response = serde_json::Value;
    type Output = String;

    fn encode(&self, request: &String) -> String {
        request.clone()
    }

    fn parse(&self, json: &str) -> Option<serde_json::Value> {
        serde_json::from_str(json).ok()
    }

    fn encode_response(&self, response: &serde_json::Value) -> String {
        response.to_string()
    }

    fn examples(&self) -> Vec<(String, serde_json::Value)> {
        vec![]
    }

    fn initial_input(&self) -> String {
        "{\"type\":\"Start\"}".to_string()
    }

    fn iteration(
        &mut self,
        response: serde_json::Value,
        _: &[(String, serde_json::Value)],
    ) -> Result<String, String> {
        let field = |name: &str| response.get(name).and_then(|v| v.as_str()).unwrap().to_string();
        match field("type").as_str() {
            "Get" => {
                let value = self.store.get(&field("key")).cloned().unwrap_or_default();
                Ok(format!("{{\"type\":\"GetResult\",\"value\":\"{value}\"}}"))
            }
            "Set" => {
                self.store.insert(field("key"), field("value"));
                Ok("{\"type\":\"SetAck\"}".to_string())
            }
            _ => Err(field("note")),
        }
    }
}

#[test]
fn kv_read_modify_finish() {
    let mut agent =
        KvAgent { store: HashMap::from([("target".to_string(), "21".to_string())]) };
    let config = LoopConfigBuilder::default().max_iterations(Some(10)).try_build().unwrap();
    let mut reply = |prompt: &str| {
        let current = prompt.rsplit("## CURRENT INPUT (JSON):\n").next().unwrap();
        let answer = if current.contains("Start") {
            r#"{"type":"Get","key":"target"}"#.to_string()
        } else if current.contains("GetResult") {
            let n: u32 = current.split('"').nth(7).unwrap().parse().unwrap();
            format!("{{\"type\":\"Set\",\"key\":\"doubled\",\"value\":\"{}\"}}", 2 * n)
        } else {
            r#"{"type":"Finish","note":"done"}"#.to_string()
        };
        Ok((answer, None))
    };
    let mut model =
        Scripted { reply: &mut reply, summarize: &mut no_summary, discover: None };
    let output =
        drive(&OpenAIClient::new(), &mut agent, config, &mut model).expect("agent loop failed");
    assert_eq!(output, "done");
    assert_eq!(
        agent.store.get("doubled"),
        Some(&"42".to_string()),
        "Expected key 'doubled' to be '42', but got: {:?}",
        agent.store.get("doubled")
    );
}

// ─── Prompts ──────────────────────────────────────────────────────────

fn turn(q: &str, r: &str) -> Turn<(), ()> {
    Turn {
        request: Encoded { value: (), json: q.to_string() },
        response: Encoded { value: (), json: r.to_string() },
    }
}

#[test]
fn prompt_without_optional_sections() {
    let none: Vec<Turn<(), ()>> = vec![];
    assert_eq!(
        build_user_prompt("do it", &None, &none, &None, &none, &None, "{\"step\":1}"),
        "do it\n## CURRENT INPUT (JSON):\n{\"step\":1}\n"
    );
}

#[test]
fn prompt_with_all_sections() {
    let examples = vec![turn("e1", "f1"), turn("e2", "f2")];
    let history = vec![turn("h1", "i1")];
    let prompt = build_user_prompt(
        "do it",
        &Some("{schema}".to_string()),
        &examples,
        &Some("before".to_string()),
        &history,
        &Some("more".to_string()),
        "now",
    );
    assert_eq!(
        prompt,
        "do it\n\
         ## JSON SCHEMA\n{schema}\n\
         ## EXAMPLES\n\n\
         Example 1:\nINPUT (JSON): e1\nOUTPUT (JSON): f1\n\n\
         Example 2:\nINPUT (JSON): e2\nOUTPUT (JSON): f2\n\n\
         ## PREVIOUS SESSIONS SUMMARY\nbefore\n\
         ## CONVERSATION HISTORY\n\n\
         INPUT (JSON): h1\nOUTPUT (JSON): i1\n\n\
         ## ADDITIONAL CONTEXT\nmore\n\
         ## CURRENT INPUT (JSON):\nnow\n"
    );
}

#[test]
fn summary_prompt_shows_the_session() {
    let history = vec![turn("h1", "i1"), turn("h2", "i2")];
    let prompt = build_summary_prompt(&Some("before".to_string()), &history, 700);
    assert_eq!(
        prompt,
        "## PREVIOUS SESSIONS SUMMARY\nbefore\n\
         ## CONVERSATION HISTORY\n\n\
         INPUT (JSON): h1\nOUTPUT (JSON): i1\n\n\
         INPUT (JSON): h2\nOUTPUT (JSON): i2\n\n\
         Summarize the session above in about 175 tokens. Keep what is needed to go on: the task, \
         what was decided and found, and what is left to do.\n"
    );
}

#[test]
fn system_prompt_is_the_first_message() {
    let mut agent = CountAgent::new(0);
    let begun = run_loop::<CountRequest, CountResponse, u32>(
        &OpenAIClient::new(),
        LoopConfig { max_iterations: Some(1), compact_policy: CompactPolicy::NoCompact },
    );
    let mut typed = begun.typed_loop;
    let initial = agent.initial_input();
    let json = agent.encode(&initial);
    typed.step(LoopEvent::Restored(None, encoded(&initial, json))).unwrap();
    assert!(agent.restore().is_none());
    let action = typed
        .step(LoopEvent::Described(Briefing {
            system_prompt: "be precise".to_string(),
            user_prompt: "count".to_string(),
            schema: None,
            examples: vec![],
            extension: None,
        }))
        .unwrap();
    match action {
        LoopAction::Ask(request) => {
            assert_eq!(request.messages.len(), 2);
            match &request.messages[0] {
                Message::System(TextContent::Text(text), None) => assert_eq!(text, "be precise"),
                other => panic!("{other:?}"),
            }
            assert_eq!(
                user_text(&request),
                "count\n## CURRENT INPUT (JSON):\n{\"current\":0,\"target\":0}\n"
            );
        }
        other => panic!("{other:?}"),
    }
}

fn to_iterate(typed: &mut TypedLoop<u32, u32, ()>, usage: Option<TokenUsage>, response: u32) -> LoopAction<()> {
    let briefing = Briefing {
        system_prompt: String::new(),
        user_prompt: String::new(),
        schema: None,
        examples: vec![],
        extension: None,
    };
    if matches!(typed.phase, LoopPhase::Save(_)) {
        typed.step(LoopEvent::Saved).unwrap();
    }
    typed.step(LoopEvent::Described(briefing)).unwrap();
    typed.step(LoopEvent::Replied(response.to_string(), usage)).unwrap();
    typed
        .step(LoopEvent::Parsed(Encoded { value: response, json: response.to_string() }))
        .unwrap()
}

fn number(n: u32) -> Encoded<u32> {
    Encoded { value: n, json: n.to_string() }
}

#[test]
fn compaction_keeps_the_latest_turns() {
    let begun = run_loop::<u32, u32, ()>(
        &OpenAIClient::new(),
        LoopConfig { max_iterations: Some(9), compact_policy: CompactPolicy::Override(100) },
    );
    let mut typed = begun.typed_loop;
    typed.step(LoopEvent::Restored(None, number(0))).unwrap();
    for n in 0..4u32 {
        assert!(matches!(to_iterate(&mut typed, tokens(74), 10 + n), LoopAction::Iterate));
        typed.step(LoopEvent::Iterated(LoopControl::Continue(number(n + 1)))).unwrap();
    }
    assert!(matches!(to_iterate(&mut typed, tokens(75), 14), LoopAction::Summarize(_)));
    assert_eq!(typed.history.len(), 5);
    let left = typed.budget.unwrap().left;
    assert!(matches!(
        typed.step(LoopEvent::Summarized("so far".to_string())),
        Some(LoopAction::Iterate)
    ));
    assert_eq!(typed.summary.as_deref(), Some("so far"));
    let kept: Vec<(u32, u32)> =
        typed.history.iter().map(|t| (t.request.value, t.response.value)).collect();
    assert_eq!(kept, vec![(2, 12), (3, 13), (4, 14)]);
    assert_eq!(typed.budget.unwrap().left, left);
    assert_eq!(left, 4);
}

#[test]
fn no_compact_never_asks_for_a_summary() {
    let mut agent = CountAgent::new(6);
    let config = LoopConfigBuilder::default()
        .compact_policy(CompactPolicy::NoCompact)
        .try_build()
        .unwrap();
    let knowing = OpenAIClient::with_config(LLMConfig {
        max_context_tokens: Some(10),
        ..LLMConfig::default()
    });
    let mut reply = |prompt: &str| Ok((count_reply(prompt, 6), tokens(u32::MAX - 1)));
    let mut model =
        Scripted { reply: &mut reply, summarize: &mut no_summary, discover: Some(10) };
    assert_eq!(drive(&knowing, &mut agent, config, &mut model), Ok(6));
    assert_eq!(agent.saves.last().unwrap().history_len, 7);
}

#[test]
fn ended_loop_takes_no_event() {
    let begun = run_loop::<u32, u32, ()>(
        &OpenAIClient::new(),
        LoopConfig { max_iterations: Some(1), compact_policy: CompactPolicy::NoCompact },
    );
    let mut typed = begun.typed_loop;
    assert!(typed.current_request().is_none());
    typed.step(LoopEvent::Restored(None, number(0))).unwrap();
    assert!(matches!(to_iterate(&mut typed, None, 1), LoopAction::Iterate));
    assert!(matches!(
        typed.step(LoopEvent::Iterated(LoopControl::Stop(()))),
        Some(LoopAction::Save(SavePoint::Final))
    ));
    assert_eq!(typed.current_request().unwrap().value, 0);
    assert!(matches!(typed.step(LoopEvent::Saved), Some(LoopAction::Stop(()))));
    assert!(typed.step(LoopEvent::Saved).is_none());
    assert!(typed.step(LoopEvent::Discovered(None)).is_none());
}

//! The prompt of a turn.

use vstd::prelude::*;
use vstd::string::*;

use crate::text;
use crate::text::decimal_text;

verus! {

/// A value together with its JSON text.
#[derive(Debug)]
pub struct Encoded<T> {
    pub value: T,
    pub json: String,
}

/// A request and the response to it.
#[derive(Debug)]
pub struct Turn<Q, R> {
    pub request: Encoded<Q>,
    pub response: Encoded<R>,
}

/// The JSON texts of a request and the response to it.
pub struct TurnTexts {
    pub request: Seq<char>,
    pub response: Seq<char>,
}

/// The JSON texts of the turns.
pub open spec fn texts_of<Q, R>(turns: Seq<Turn<Q, R>>) -> Seq<TurnTexts> {
    turns.map_values(
        |t: Turn<Q, R>| TurnTexts { request: t.request.json@, response: t.response.json@ },
    )
}

/// A turn, as a prompt shows it.
pub open spec fn turn_text(t: TurnTexts) -> Seq<char> {
    "INPUT (JSON): "@ + t.request + "\nOUTPUT (JSON): "@ + t.response + "\n\n"@
}

/// The first `n` turns, as a prompt shows them.
pub open spec fn turns_text(turns: Seq<TurnTexts>, n: int) -> Seq<char>
    decreases n,
{
    if n <= 0 {
        Seq::empty()
    } else {
        turns_text(turns, n - 1) + turn_text(turns[n - 1])
    }
}

/// The first `n` examples, as a prompt shows them: each with its number, from one on.
pub open spec fn examples_text(examples: Seq<TurnTexts>, n: int) -> Seq<char>
    decreases n,
{
    if n <= 0 {
        Seq::empty()
    } else {
        examples_text(examples, n - 1) + "Example "@ + text::decimal(n as nat) + ":\n"@
            + turn_text(examples[n - 1])
    }
}

/// A section of a prompt with the given heading, where there is a text for it.
pub open spec fn optional_section(heading: Seq<char>, body: Option<Seq<char>>) -> Seq<char> {
    match body {
        Some(text) => heading + text + "\n"@,
        None => Seq::empty(),
    }
}

/// The section with the examples; none where there are no examples.
pub open spec fn examples_section(examples: Seq<TurnTexts>) -> Seq<char> {
    if examples.len() == 0 {
        Seq::empty()
    } else {
        "## EXAMPLES\n\n"@ + examples_text(examples, examples.len() as int)
    }
}

/// The section with the history; none where there is no history.
pub open spec fn history_section(history: Seq<TurnTexts>) -> Seq<char> {
    if history.len() == 0 {
        Seq::empty()
    } else {
        "## CONVERSATION HISTORY\n\n"@ + turns_text(history, history.len() as int)
    }
}

/// What a prompt is made of.
pub struct PromptView {
    pub user_prompt: Seq<char>,
    pub schema: Option<Seq<char>>,
    pub examples: Seq<TurnTexts>,
    pub summary: Option<Seq<char>>,
    pub history: Seq<TurnTexts>,
    pub extension: Option<Seq<char>>,
    pub current: Seq<char>,
}

/// The prompt: the agent's instructions, the JSON schema, the examples, the summary of earlier turns,
/// the history, the additional context and the current request.
pub open spec fn prompt_text(p: PromptView) -> Seq<char> {
    p.user_prompt + "\n"@ + optional_section("## JSON SCHEMA\n"@, p.schema) + examples_section(
        p.examples,
    ) + optional_section("## PREVIOUS SESSIONS SUMMARY\n"@, p.summary) + history_section(p.history)
        + optional_section("## ADDITIONAL CONTEXT\n"@, p.extension)
        + "## CURRENT INPUT (JSON):\n"@ + p.current + "\n"@
}

/// Appends a section with the given heading, where there is a text for it.
pub(crate) fn append_section(buf: &mut String, heading: &str, body: &Option<String>)
    ensures
        final(buf)@ == old(buf)@ + optional_section(heading@, body.deep_view()),
{
    let ghost before = buf@;
    if let Some(text) = body {
        buf.append(heading);
        buf.append(text.as_str());
        buf.append("\n");
    }
    assert(buf@ =~= before + optional_section(heading@, body.deep_view()));
}

/// Appends a turn.
fn append_turn<Q, R>(buf: &mut String, turn: &Turn<Q, R>)
    ensures
        final(buf)@ == old(buf)@ + turn_text(
            TurnTexts { request: turn.request.json@, response: turn.response.json@ },
        ),
{
    let ghost before = buf@;
    buf.append("INPUT (JSON): ");
    buf.append(turn.request.json.as_str());
    buf.append("\nOUTPUT (JSON): ");
    buf.append(turn.response.json.as_str());
    buf.append("\n\n");
    assert(buf@ =~= before + turn_text(
        TurnTexts { request: turn.request.json@, response: turn.response.json@ },
    ));
}

/// Appends the section with the examples.
fn append_examples<Q, R>(buf: &mut String, examples: &Vec<Turn<Q, R>>)
    ensures
        final(buf)@ == old(buf)@ + examples_section(texts_of(examples@)),
{
    let ghost before = buf@;
    let ghost texts = texts_of(examples@);
    if examples.len() > 0 {
        buf.append("## EXAMPLES\n\n");
        let ghost head = buf@;
        assert(buf@ =~= head + examples_text(texts, 0));
        let mut i: usize = 0;
        while i < examples.len()
            invariant
                i <= examples@.len(),
                texts == texts_of(examples@),
                buf@ == head + examples_text(texts, i as int),
            decreases examples@.len() - i,
        {
            let ghost so_far = buf@;
            buf.append("Example ");
            buf.append(decimal_text(i + 1).as_str());
            buf.append(":\n");
            append_turn(buf, &examples[i]);
            assert(buf@ =~= head + examples_text(texts, i + 1));
            i = i + 1;
        }
    }
    assert(buf@ =~= before + examples_section(texts));
}

/// Appends the section with the history.
pub(crate) fn append_history<Q, R>(buf: &mut String, history: &Vec<Turn<Q, R>>)
    ensures
        final(buf)@ == old(buf)@ + history_section(texts_of(history@)),
{
    let ghost before = buf@;
    let ghost texts = texts_of(history@);
    if history.len() > 0 {
        buf.append("## CONVERSATION HISTORY\n\n");
        let ghost head = buf@;
        assert(buf@ =~= head + turns_text(texts, 0));
        let mut i: usize = 0;
        while i < history.len()
            invariant
                i <= history@.len(),
                texts == texts_of(history@),
                buf@ == head + turns_text(texts, i as int),
            decreases history@.len() - i,
        {
            append_turn(buf, &history[i]);
            assert(buf@ =~= head + turns_text(texts, i + 1));
            i = i + 1;
        }
    }
    assert(buf@ =~= before + history_section(texts));
}

/// Builds the prompt of a turn.
pub fn build_user_prompt<Q, R>(
    user_prompt: &str,
    schema: &Option<String>,
    examples: &Vec<Turn<Q, R>>,
    summary: &Option<String>,
    history: &Vec<Turn<Q, R>>,
    extension: &Option<String>,
    current: &str,
) -> (r: String)
    ensures
        r@ == prompt_text(
            PromptView {
                user_prompt: user_prompt@,
                schema: schema.deep_view(),
                examples: texts_of(examples@),
                summary: summary.deep_view(),
                history: texts_of(history@),
                extension: extension.deep_view(),
                current: current@,
            },
        ),
{
    let mut buf: String = String::new();
    buf.append(user_prompt);
    assert(buf@ =~= user_prompt@);
    buf.append("\n");
    append_section(&mut buf, "## JSON SCHEMA\n", schema);
    append_examples(&mut buf, examples);
    append_section(&mut buf, "## PREVIOUS SESSIONS SUMMARY\n", summary);
    append_history(&mut buf, history);
    append_section(&mut buf, "## ADDITIONAL CONTEXT\n", extension);
    buf.append("## CURRENT INPUT (JSON):\n");
    buf.append(current);
    buf.append("\n");
    buf
}

} // verus!

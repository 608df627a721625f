//! What a prompt shows: all that it is given, in a fixed order, and nothing else.

use vstd::prelude::*;

use crate::single_tool::compaction;
use crate::single_tool::prompt;
use crate::single_tool::prompt::{PromptView, Turn, TurnTexts};
use crate::text;

verus! {

/// A request and its response, one below the other.
pub open spec fn shown_turn(t: TurnTexts) -> Seq<char> {
    "INPUT (JSON): "@ + t.request + "\nOUTPUT (JSON): "@ + t.response + "\n\n"@
}

/// All the turns, each once, in their order.
pub open spec fn shown_turns(turns: Seq<TurnTexts>) -> Seq<Seq<char>> {
    Seq::new(turns.len(), |k: int| shown_turn(turns[k]))
}

/// All the examples, each once, in their order, and numbered from one on.
pub open spec fn shown_examples(examples: Seq<TurnTexts>) -> Seq<Seq<char>> {
    Seq::new(
        examples.len(),
        |k: int|
            "Example "@ + text::decimal((k + 1) as nat) + ":\n"@ + shown_turn(examples[k]),
    )
}

/// A heading and what stands below it; nothing where there is nothing to stand below it.
pub open spec fn below(heading: Seq<char>, parts: Seq<Seq<char>>) -> Seq<char> {
    if parts.len() == 0 {
        Seq::empty()
    } else {
        heading + parts.flatten()
    }
}

/// The text as the only part, with a line break, where there is a text.
pub open spec fn line_of(text: Option<Seq<char>>) -> Seq<Seq<char>> {
    match text {
        Some(t) => seq![t + "\n"@],
        None => Seq::empty(),
    }
}

/// The text of the first turns is made of the texts of each.
proof fn lemma_turns(turns: Seq<TurnTexts>, n: int)
    requires
        0 <= n <= turns.len(),
    ensures
        prompt::turns_text(turns, n) == shown_turns(turns).take(n).flatten(),
    decreases n,
{
    let parts = shown_turns(turns);
    if n == 0 {
        assert(parts.take(0) =~= Seq::<Seq<char>>::empty());
    } else {
        lemma_turns(turns, n - 1);
        parts.take(n - 1).lemma_flatten_push(parts[n - 1]);
        assert(parts.take(n) =~= parts.take(n - 1).push(parts[n - 1]));
    }
}

/// The text of the first examples is made of the texts of each.
proof fn lemma_examples(examples: Seq<TurnTexts>, n: int)
    requires
        0 <= n <= examples.len(),
    ensures
        prompt::examples_text(examples, n) == shown_examples(examples).take(n).flatten(),
    decreases n,
{
    let parts = shown_examples(examples);
    if n == 0 {
        assert(parts.take(0) =~= Seq::<Seq<char>>::empty());
    } else {
        lemma_examples(examples, n - 1);
        parts.take(n - 1).lemma_flatten_push(parts[n - 1]);
        assert(parts.take(n) =~= parts.take(n - 1).push(parts[n - 1]));
        let before = prompt::examples_text(examples, n - 1);
        assert(before + "Example "@ + text::decimal(n as nat) + ":\n"@ + prompt::turn_text(
            examples[n - 1],
        ) =~= before + parts[n - 1]);
    }
}

/// A section with one text is its heading and the text on a line.
proof fn lemma_line(heading: Seq<char>, text: Option<Seq<char>>)
    ensures
        prompt::optional_section(heading, text) == below(heading, line_of(text)),
{
    if let Some(t) = text {
        let parts = seq![t + "\n"@];
        parts.lemma_flatten_one_element();
        assert(parts.flatten() == t + "\n"@);
        assert(heading + t + "\n"@ =~= heading + (t + "\n"@));
    }
}

/// The texts that a prompt shows of turns are the JSON texts of their requests and responses, of each
/// of the turns.
pub proof fn law_every_turn_has_its_texts<Q, R>(turns: Seq<Turn<Q, R>>)
    ensures
        prompt::texts_of(turns).len() == turns.len(),
        forall|k: int|
            0 <= k < turns.len() ==> prompt::texts_of(turns)[k].request == (
            #[trigger] turns[k]).request.json@ && prompt::texts_of(turns)[k].response
                == turns[k].response.json@,
{
}

/// The section with the history is its heading and the texts of all the turns, in their order and with
/// nothing between them, however many there are; there is no section without a turn.
pub proof fn law_history_section_shows_every_turn(history: Seq<TurnTexts>)
    ensures
        prompt::history_section(history) == below(
            "## CONVERSATION HISTORY\n\n"@,
            shown_turns(history),
        ),
{
    lemma_turns(history, history.len() as int);
    assert(shown_turns(history).take(history.len() as int) =~= shown_turns(history));
}

/// A turn that is added to a history is shown behind all that was shown before.
pub proof fn law_later_turn_is_shown_behind(history: Seq<TurnTexts>, turn: TurnTexts)
    requires
        history.len() > 0,
    ensures
        prompt::history_section(history.push(turn)) == prompt::history_section(history)
            + shown_turn(turn),
{
    let more = history.push(turn);
    law_history_section_shows_every_turn(history);
    law_history_section_shows_every_turn(more);
    assert(shown_turns(more) =~= shown_turns(history).push(shown_turn(turn)));
    shown_turns(history).lemma_flatten_push(shown_turn(turn));
    let heading = "## CONVERSATION HISTORY\n\n"@;
    assert(heading + (shown_turns(history).flatten() + shown_turn(turn)) =~= heading
        + shown_turns(history).flatten() + shown_turn(turn));
}

/// Every turn of the history stands in the prompt, and directly behind it the next one.
pub proof fn law_prompt_shows_turn_and_next(p: PromptView, k: int) -> (r: (Seq<char>, Seq<char>))
    requires
        0 <= k < p.history.len(),
    ensures
        prompt::prompt_text(p) == r.0 + shown_turn(p.history[k]) + (if k + 1 < p.history.len() {
            shown_turn(p.history[k + 1])
        } else {
            Seq::empty()
        }) + r.1,
{
    let parts = shown_turns(p.history);
    law_history_section_shows_every_turn(p.history);
    let m = if k + 1 < p.history.len() {
        k + 2
    } else {
        k + 1
    };
    let head = parts.take(k);
    let tail = parts.skip(m);
    let one = parts[k];
    let two = if k + 1 < p.history.len() {
        parts[k + 1]
    } else {
        Seq::empty()
    };
    head.lemma_flatten_push(one);
    if k + 1 < p.history.len() {
        head.push(one).lemma_flatten_push(two);
        assert(parts =~= head.push(one).push(two) + tail);
        vstd::seq_lib::lemma_flatten_concat(head.push(one).push(two), tail);
    } else {
        assert(parts =~= head.push(one) + tail);
        vstd::seq_lib::lemma_flatten_concat(head.push(one), tail);
    }
    let before = p.user_prompt + "\n"@ + prompt::optional_section("## JSON SCHEMA\n"@, p.schema)
        + prompt::examples_section(p.examples) + prompt::optional_section(
        "## PREVIOUS SESSIONS SUMMARY\n"@,
        p.summary,
    );
    let after = prompt::optional_section("## ADDITIONAL CONTEXT\n"@, p.extension)
        + "## CURRENT INPUT (JSON):\n"@ + p.current + "\n"@;
    let heading = "## CONVERSATION HISTORY\n\n"@;
    let r = (before + heading + head.flatten(), tail.flatten() + after);
    assert(parts.flatten() =~= head.flatten() + one + two + tail.flatten());
    assert(prompt::prompt_text(p) =~= before + (heading + parts.flatten()) + after);
    assert(prompt::prompt_text(p) =~= r.0 + one + two + r.1);
    r
}

/// The prompt is made of these parts, in this order: the instructions, the schema, all the examples,
/// the summary, all the turns of the history, the additional context and the current request. A part
/// that there is nothing for is left out with its heading.
pub proof fn law_prompt_holds_all_parts(p: PromptView)
    ensures
        prompt::prompt_text(p) == p.user_prompt + "\n"@ + below(
            "## JSON SCHEMA\n"@,
            line_of(p.schema),
        ) + below("## EXAMPLES\n\n"@, shown_examples(p.examples)) + below(
            "## PREVIOUS SESSIONS SUMMARY\n"@,
            line_of(p.summary),
        ) + below("## CONVERSATION HISTORY\n\n"@, shown_turns(p.history)) + below(
            "## ADDITIONAL CONTEXT\n"@,
            line_of(p.extension),
        ) + "## CURRENT INPUT (JSON):\n"@ + p.current + "\n"@,
{
    lemma_line("## JSON SCHEMA\n"@, p.schema);
    lemma_line("## PREVIOUS SESSIONS SUMMARY\n"@, p.summary);
    lemma_line("## ADDITIONAL CONTEXT\n"@, p.extension);
    law_history_section_shows_every_turn(p.history);
    lemma_examples(p.examples, p.examples.len() as int);
    assert(shown_examples(p.examples).take(p.examples.len() as int) =~= shown_examples(p.examples));
}

/// The request for a summary shows the summary so far, all the turns, and how long the summary should
/// be: a quarter of the window.
pub proof fn law_summary_prompt_shows_the_session(
    summary: Option<Seq<char>>,
    history: Seq<TurnTexts>,
    window: nat,
)
    ensures
        compaction::summary_prompt(summary, history, compaction::summary_target(window)) == below(
            "## PREVIOUS SESSIONS SUMMARY\n"@,
            line_of(summary),
        ) + below("## CONVERSATION HISTORY\n\n"@, shown_turns(history))
            + "Summarize the session above in about "@ + text::decimal(window / 4)
            + " tokens. Keep what is needed to go on: the task, what was decided and found, and what is left to do.\n"@,
{
    lemma_line("## PREVIOUS SESSIONS SUMMARY\n"@, summary);
    law_history_section_shows_every_turn(history);
}

} // verus!

//! Compaction of a history that fills the model's context window.

use vstd::prelude::*;
use vstd::string::*;

use crate::single_tool::prompt;
use crate::single_tool::prompt::{append_history, append_section, Turn, TurnTexts};
use crate::text;
use crate::text::decimal_text;

verus! {

/// How many of the latest turns are kept as they are.
pub const KEPT_TURNS: usize = 3;

/// A prompt of this many tokens fills at least three quarters of the window.
pub open spec fn fills(prompt_tokens: int, window: int) -> bool {
    4 * prompt_tokens >= 3 * window
}

/// The number of tokens that a summary should have: a quarter of the window.
pub open spec fn summary_target(window: nat) -> nat {
    window / 4
}

/// The latest turns, which are kept as they are.
pub open spec fn latest<T>(turns: Seq<T>) -> Seq<T> {
    if turns.len() > KEPT_TURNS {
        turns.skip(turns.len() - KEPT_TURNS)
    } else {
        turns
    }
}

/// The request for a summary.
pub open spec fn summary_prompt(
    summary: Option<Seq<char>>,
    history: Seq<TurnTexts>,
    target: nat,
) -> Seq<char> {
    prompt::optional_section("## PREVIOUS SESSIONS SUMMARY\n"@, summary) + prompt::history_section(
        history,
    ) + "Summarize the session above in about "@ + text::decimal(target)
        + " tokens. Keep what is needed to go on: the task, what was decided and found, and what is left to do.\n"@
}

/// Whether a prompt of this many tokens fills at least three quarters of the window.
pub fn should_compact(prompt_tokens: u32, window: usize) -> (r: bool)
    ensures
        r == fills(prompt_tokens as int, window as int),
{
    4 * (prompt_tokens as u128) >= 3 * (window as u128)
}

/// Drops all but the latest turns.
pub fn keep_latest<T>(turns: &mut Vec<T>)
    ensures
        final(turns)@ == latest(old(turns)@),
{
    let n: usize = turns.len();
    if n > KEPT_TURNS {
        let kept: Vec<T> = turns.split_off(n - KEPT_TURNS);
        *turns = kept;
        assert(turns@ =~= latest(old(turns)@));
    }
}

/// Builds the request for a summary of the history and of what was summarized before it.
pub fn build_summary_prompt<Q, R>(
    summary: &Option<String>,
    history: &Vec<Turn<Q, R>>,
    window: usize,
) -> (r: String)
    ensures
        r@ == summary_prompt(
            summary.deep_view(),
            prompt::texts_of(history@),
            summary_target(window as nat),
        ),
{
    let mut buf: String = String::new();
    append_section(&mut buf, "## PREVIOUS SESSIONS SUMMARY\n", summary);
    assert(buf@ =~= prompt::optional_section("## PREVIOUS SESSIONS SUMMARY\n"@, summary.deep_view()));
    append_history(&mut buf, history);
    buf.append("Summarize the session above in about ");
    buf.append(decimal_text(window / 4).as_str());
    buf.append(
        " tokens. Keep what is needed to go on: the task, what was decided and found, and what is left to do.\n",
    );
    buf
}

} // verus!

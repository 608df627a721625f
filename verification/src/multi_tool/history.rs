//! What a conversation holds of a tool call and its result.

use vstd::prelude::*;

use crate::multi_tool::message::{Message, MessageView, ToolCall, ToolCallView};
use crate::text::same_text;

verus! {

/// One of the calls has the identifier `id`.
pub open spec fn calls_have_id(calls: Seq<ToolCallView>, id: Seq<char>) -> bool {
    exists|k: int| 0 <= k < calls.len() && (#[trigger] calls[k]).id == id
}

/// `m` is an assistant turn that lists a call with the identifier `id`.
pub open spec fn lists_call(m: MessageView, id: Seq<char>) -> bool {
    m matches MessageView::Assistant(turn) && turn.tool_calls matches Some(calls) && calls_have_id(
        calls,
        id,
    )
}

/// `m` is the result of the call with the identifier `id`.
pub open spec fn is_result_of(m: MessageView, id: Seq<char>) -> bool {
    m matches MessageView::Tool(_, call_id) && call_id == id
}

/// Some assistant turn lists a call with the identifier `id`.
pub open spec fn has_call(messages: Seq<MessageView>, id: Seq<char>) -> bool {
    exists|i: int| 0 <= i < messages.len() && lists_call(#[trigger] messages[i], id)
}

/// Some message is the result of the call with the identifier `id`.
pub open spec fn has_result(messages: Seq<MessageView>, id: Seq<char>) -> bool {
    exists|i: int| 0 <= i < messages.len() && is_result_of(#[trigger] messages[i], id)
}

/// `m` is an assistant turn after which the result of the call `id` may come: it lists that call,
/// or has no list of calls at all.
pub open spec fn accepts_result(m: MessageView, id: Seq<char>) -> bool {
    m matches MessageView::Assistant(turn) && match turn.tool_calls {
        None => true,
        Some(calls) => calls_have_id(calls, id),
    }
}

/// The messages end with an assistant turn that accepts the result of the call `id`, followed by
/// nothing but tool results.
pub open spec fn is_prefix_for_result(messages: Seq<MessageView>, id: Seq<char>) -> bool {
    exists|i: int|
        #![trigger messages[i]]
        0 <= i < messages.len() && accepts_result(messages[i], id) && (forall|j: int|
            i < j < messages.len() ==> messages[j] is Tool)
}

/// The result of the call `id` stands behind the last turn that lists that call.
pub open spec fn is_answered(messages: Seq<MessageView>, id: Seq<char>) -> bool {
    exists|i: int|
        #![trigger messages[i]]
        0 <= i < messages.len() && is_result_of(messages[i], id) && (forall|j: int|
            i < j < messages.len() ==> !lists_call(messages[j], id))
}

/// Whether one of the calls has the identifier `id`.
pub fn any_call_has_id(calls: &Vec<ToolCall>, id: &str) -> (r: bool)
    ensures
        r == calls_have_id(calls.deep_view(), id@),
{
    let mut k: usize = 0;
    while k < calls.len()
        invariant
            k <= calls@.len(),
            forall|j: int| 0 <= j < k ==> calls.deep_view()[j].id != id@,
        decreases calls@.len() - k,
    {
        if same_text(calls[k].id.as_str(), id) {
            assert(calls.deep_view()[k as int].id == id@);
            return true;
        }
        k = k + 1;
    }
    false
}

/// Whether any assistant turn still lists `tool_call_id` in `tool_calls`.
pub fn history_has_tool_call_id(messages: &Vec<Message>, tool_call_id: &str) -> (r: bool)
    ensures
        r == has_call(messages.deep_view(), tool_call_id@),
{
    let mut i: usize = 0;
    while i < messages.len()
        invariant
            i <= messages@.len(),
            forall|j: int| 0 <= j < i ==> !lists_call(messages.deep_view()[j], tool_call_id@),
        decreases messages@.len() - i,
    {
        assert(messages.deep_view()[i as int] == messages@[i as int].deep_view());
        if let Message::Assistant(turn) = &messages[i] {
            if let Some(calls) = &turn.tool_calls {
                if any_call_has_id(calls, tool_call_id) {
                    assert(lists_call(messages.deep_view()[i as int], tool_call_id@));
                    return true;
                }
            }
        }
        i = i + 1;
    }
    false
}

/// Whether any tool message is a result for `tool_call_id`.
pub fn history_has_tool_result_id(messages: &Vec<Message>, tool_call_id: &str) -> (r: bool)
    ensures
        r == has_result(messages.deep_view(), tool_call_id@),
{
    let mut i: usize = 0;
    while i < messages.len()
        invariant
            i <= messages@.len(),
            forall|j: int| 0 <= j < i ==> !is_result_of(messages.deep_view()[j], tool_call_id@),
        decreases messages@.len() - i,
    {
        assert(messages.deep_view()[i as int] == messages@[i as int].deep_view());
        if let Message::Tool(_, id) = &messages[i] {
            if same_text(id.as_str(), tool_call_id) {
                assert(is_result_of(messages.deep_view()[i as int], tool_call_id@));
                return true;
            }
        }
        i = i + 1;
    }
    false
}

/// Whether `messages` can take one more tool message for `tool_call_id`.
///
/// Walks backward over any trailing tool results; the first other message must be an assistant
/// turn. If that turn lists `tool_calls`, it must include `tool_call_id`.
pub fn can_append_tool_result(messages: &Vec<Message>, tool_call_id: &str) -> (r: bool)
    ensures
        r == is_prefix_for_result(messages.deep_view(), tool_call_id@),
{
    let ghost view = messages.deep_view();
    let mut n: usize = messages.len();
    while n > 0
        invariant
            n <= messages@.len(),
            view == messages.deep_view(),
            forall|j: int| n <= j < view.len() ==> view[j] is Tool,
        decreases n,
    {
        let i: usize = n - 1;
        assert(view[i as int] == messages@[i as int].deep_view());
        match &messages[i] {
            Message::Tool(_, _) => {},
            Message::Assistant(turn) => {
                let accepts: bool = match &turn.tool_calls {
                    None => true,
                    Some(calls) => any_call_has_id(calls, tool_call_id),
                };
                assert(accepts == accepts_result(view[i as int], tool_call_id@));
                if !accepts {
                    assert forall|k: int| 0 <= k < view.len() && accepts_result(
                        #[trigger] view[k],
                        tool_call_id@,
                    ) implies exists|j: int| k < j < view.len() && !(view[j] is Tool) by {
                        assert(!(view[i as int] is Tool));
                    }
                }
                return accepts;
            },
            _ => {
                assert(!(view[i as int] is Tool) && !(view[i as int] is Assistant));
                return false;
            },
        }
        n = i;
    }
    false
}

/// Whether the result of `tool_call_id` stands behind the last turn that lists that call.
pub fn tool_call_is_answered(messages: &Vec<Message>, tool_call_id: &str) -> (r: bool)
    ensures
        r == is_answered(messages.deep_view(), tool_call_id@),
{
    let ghost view = messages.deep_view();
    let mut n: usize = messages.len();
    while n > 0
        invariant
            n <= messages@.len(),
            view == messages.deep_view(),
            forall|j: int| n <= j < view.len() ==> !lists_call(view[j], tool_call_id@),
            forall|j: int| n <= j < view.len() ==> !is_result_of(view[j], tool_call_id@),
        decreases n,
    {
        let i: usize = n - 1;
        assert(view[i as int] == messages@[i as int].deep_view());
        match &messages[i] {
            Message::Tool(_, id) => {
                if same_text(id.as_str(), tool_call_id) {
                    assert(is_result_of(view[i as int], tool_call_id@));
                    return true;
                }
            },
            Message::Assistant(turn) => {
                if let Some(calls) = &turn.tool_calls {
                    if any_call_has_id(calls, tool_call_id) {
                        assert(lists_call(view[i as int], tool_call_id@));
                        return false;
                    }
                }
            },
            _ => {},
        }
        n = i;
    }
    false
}

} // verus!

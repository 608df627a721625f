//! What the model replies.

use vstd::prelude::*;

use crate::multi_tool::message::{
    AssistantContent, AssistantContentView, AssistantMessage, AssistantMessageView, Comparable,
    FunctionCall, FunctionCallView, Message, MessageView, ToolCall, ToolCallView,
};

verus! {

/// Who speaks in a reply.
#[derive(Clone, Copy, Debug, PartialEq, Eq, Structural)]
pub enum Role {
    System,
    User,
    Assistant,
    Tool,
    Function,
}

/// An audio response of the model.
#[derive(Debug)]
pub struct ReplyAudio {
    pub id: String,
    pub expires_at: u32,
    pub data: String,
    pub transcript: String,
}

/// The turn that the model produced: a text, a refusal, tool calls. The loop does not record the
/// function call, which is deprecated, nor the audio.
#[derive(Debug)]
pub struct AssistantReply {
    pub content: Option<String>,
    pub refusal: Option<String>,
    pub tool_calls: Option<Vec<ToolCall>>,
    pub role: Role,
    pub function_call: Option<FunctionCall>,
    pub audio: Option<ReplyAudio>,
}

/// Deep view of [`ReplyAudio`].
pub struct ReplyAudioView {
    pub id: Seq<char>,
    pub expires_at: u32,
    pub data: Seq<char>,
    pub transcript: Seq<char>,
}

impl DeepView for ReplyAudio {
    type V = ReplyAudioView;

    open spec fn deep_view(&self) -> ReplyAudioView {
        ReplyAudioView {
            id: self.id.deep_view(),
            expires_at: self.expires_at,
            data: self.data.deep_view(),
            transcript: self.transcript.deep_view(),
        }
    }
}

impl Comparable for ReplyAudio {
    fn same(&self, other: &Self) -> (r: bool) {
        self.id.same(&other.id) && self.expires_at == other.expires_at && self.data.same(
            &other.data,
        ) && self.transcript.same(&other.transcript)
    }

    fn duplicate(&self) -> (r: Self) {
        ReplyAudio {
            id: self.id.duplicate(),
            expires_at: self.expires_at,
            data: self.data.duplicate(),
            transcript: self.transcript.duplicate(),
        }
    }
}

/// Deep view of [`AssistantReply`].
pub struct AssistantReplyView {
    pub content: Option<Seq<char>>,
    pub refusal: Option<Seq<char>>,
    pub tool_calls: Option<Seq<ToolCallView>>,
    pub role: Role,
    pub function_call: Option<FunctionCallView>,
    pub audio: Option<ReplyAudioView>,
}

impl DeepView for AssistantReply {
    type V = AssistantReplyView;

    open spec fn deep_view(&self) -> AssistantReplyView {
        AssistantReplyView {
            content: self.content.deep_view(),
            refusal: self.refusal.deep_view(),
            tool_calls: self.tool_calls.deep_view(),
            role: self.role,
            function_call: self.function_call.deep_view(),
            audio: self.audio.deep_view(),
        }
    }
}

/// Build a text-only reply.
pub fn assistant_text(content: String) -> (r: AssistantReply)
    ensures
        r.deep_view() == (AssistantReplyView {
            content: Some(content@),
            refusal: None,
            tool_calls: None,
            role: Role::Assistant,
            function_call: None,
            audio: None,
        }),
{
    AssistantReply {
        content: Some(content),
        refusal: None,
        tool_calls: None,
        role: Role::Assistant,
        function_call: None,
        audio: None,
    }
}

/// Build a reply that requests tool calls.
pub fn assistant_tool_calls(calls: Vec<ToolCall>) -> (r: AssistantReply)
    ensures
        r.deep_view() == (AssistantReplyView {
            content: None,
            refusal: None,
            tool_calls: Some(calls.deep_view()),
            role: Role::Assistant,
            function_call: None,
            audio: None,
        }),
{
    AssistantReply {
        content: None,
        refusal: None,
        tool_calls: Some(calls),
        role: Role::Assistant,
        function_call: None,
        audio: None,
    }
}

/// The message that records a reply in the history.
pub open spec fn reply_message(reply: AssistantReplyView) -> MessageView {
    MessageView::Assistant(
        AssistantMessageView {
            content: match reply.content {
                Some(text) => Some(AssistantContentView::Text(text)),
                None => None,
            },
            refusal: reply.refusal,
            name: None,
            audio: None,
            tool_calls: reply.tool_calls,
            function_call: None,
        },
    )
}

impl AssistantReply {
    /// A copy of this reply.
    pub fn duplicate(&self) -> (r: Self)
        ensures
            r.deep_view() == self.deep_view(),
    {
        AssistantReply {
            content: self.content.duplicate(),
            refusal: self.refusal.duplicate(),
            tool_calls: self.tool_calls.duplicate(),
            role: self.role,
            function_call: self.function_call.duplicate(),
            audio: self.audio.duplicate(),
        }
    }

    /// The message that records this reply in the history.
    pub fn to_message(&self) -> (r: Message)
        ensures
            r.deep_view() == reply_message(self.deep_view()),
    {
        Message::Assistant(
            AssistantMessage {
                content: match &self.content {
                    Some(text) => Some(AssistantContent::Text(text.clone())),
                    None => None,
                },
                refusal: self.refusal.duplicate(),
                name: None,
                audio: None,
                tool_calls: self.tool_calls.duplicate(),
                function_call: None,
            },
        )
    }
}

} // verus!

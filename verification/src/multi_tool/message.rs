//! The messages of a conversation.
//!
//! Every type here has a deep view, in which a text is its sequence of characters. Two messages are
//! the same when their deep views are.

use vstd::prelude::*;

verus! {

/// How closely the model looks at an image.
#[derive(Clone, Copy, Debug, PartialEq, Eq, Structural)]
pub enum ImageDetail {
    Auto,
    Low,
    High,
}

/// The encoding of an audio input.
#[derive(Clone, Copy, Debug, PartialEq, Eq, Structural)]
pub enum AudioFormat {
    Wav,
    Mp3,
}

/// The content of a system, developer or tool message: a text, or a list of text parts.
#[derive(Debug)]
pub enum TextContent {
    Text(String),
    Array(Vec<String>),
}

/// One part of a user message.
#[derive(Debug)]
pub enum UserPart {
    Text(String),
    /// An image by its URL or its encoded data.
    ImageUrl(String, Option<ImageDetail>),
    /// Encoded audio data.
    InputAudio(String, AudioFormat),
}

/// The content of a user message.
#[derive(Debug)]
pub enum UserContent {
    Text(String),
    Array(Vec<UserPart>),
}

/// One part of an assistant message.
#[derive(Debug)]
pub enum AssistantPart {
    Text(String),
    Refusal(String),
}

/// The content of an assistant message.
#[derive(Debug)]
pub enum AssistantContent {
    Text(String),
    Array(Vec<AssistantPart>),
}

/// The function that the model asks to call, and the arguments as a JSON text.
#[derive(Debug)]
pub struct FunctionCall {
    pub name: String,
    pub arguments: String,
}

/// One tool call that the model asks for.
#[derive(Debug)]
pub struct ToolCall {
    pub id: String,
    pub function: FunctionCall,
}

/// A turn of the assistant.
#[derive(Debug)]
pub struct AssistantMessage {
    pub content: Option<AssistantContent>,
    pub refusal: Option<String>,
    pub name: Option<String>,
    /// The identifier of a previous audio response.
    pub audio: Option<String>,
    pub tool_calls: Option<Vec<ToolCall>>,
    pub function_call: Option<FunctionCall>,
}

/// A message of the conversation.
#[derive(Debug)]
pub enum Message {
    Developer(TextContent, Option<String>),
    System(TextContent, Option<String>),
    User(UserContent, Option<String>),
    Assistant(AssistantMessage),
    /// The result of a tool call: its content and the identifier of the call.
    Tool(TextContent, String),
    /// The result of a function call: its content and the name of the function.
    Function(Option<String>, String),
}

/// Deep view of [`TextContent`].
pub enum TextContentView {
    Text(Seq<char>),
    Array(Seq<Seq<char>>),
}

/// Deep view of [`UserPart`].
pub enum UserPartView {
    Text(Seq<char>),
    ImageUrl(Seq<char>, Option<ImageDetail>),
    InputAudio(Seq<char>, AudioFormat),
}

/// Deep view of [`UserContent`].
pub enum UserContentView {
    Text(Seq<char>),
    Array(Seq<UserPartView>),
}

/// Deep view of [`AssistantPart`].
pub enum AssistantPartView {
    Text(Seq<char>),
    Refusal(Seq<char>),
}

/// Deep view of [`AssistantContent`].
pub enum AssistantContentView {
    Text(Seq<char>),
    Array(Seq<AssistantPartView>),
}

/// Deep view of [`FunctionCall`].
pub struct FunctionCallView {
    pub name: Seq<char>,
    pub arguments: Seq<char>,
}

/// Deep view of [`ToolCall`].
pub struct ToolCallView {
    pub id: Seq<char>,
    pub function: FunctionCallView,
}

/// Deep view of [`AssistantMessage`].
pub struct AssistantMessageView {
    pub content: Option<AssistantContentView>,
    pub refusal: Option<Seq<char>>,
    pub name: Option<Seq<char>>,
    pub audio: Option<Seq<char>>,
    pub tool_calls: Option<Seq<ToolCallView>>,
    pub function_call: Option<FunctionCallView>,
}

/// Deep view of [`Message`].
pub enum MessageView {
    Developer(TextContentView, Option<Seq<char>>),
    System(TextContentView, Option<Seq<char>>),
    User(UserContentView, Option<Seq<char>>),
    Assistant(AssistantMessageView),
    Tool(TextContentView, Seq<char>),
    Function(Option<Seq<char>>, Seq<char>),
}

impl DeepView for TextContent {
    type V = TextContentView;

    open spec fn deep_view(&self) -> TextContentView {
        match self {
            TextContent::Text(s) => TextContentView::Text(s.deep_view()),
            TextContent::Array(parts) => TextContentView::Array(parts.deep_view()),
        }
    }
}

impl DeepView for UserPart {
    type V = UserPartView;

    open spec fn deep_view(&self) -> UserPartView {
        match self {
            UserPart::Text(s) => UserPartView::Text(s.deep_view()),
            UserPart::ImageUrl(url, detail) => UserPartView::ImageUrl(url.deep_view(), *detail),
            UserPart::InputAudio(data, format) => UserPartView::InputAudio(
                data.deep_view(),
                *format,
            ),
        }
    }
}

impl DeepView for UserContent {
    type V = UserContentView;

    open spec fn deep_view(&self) -> UserContentView {
        match self {
            UserContent::Text(s) => UserContentView::Text(s.deep_view()),
            UserContent::Array(parts) => UserContentView::Array(parts.deep_view()),
        }
    }
}

impl DeepView for AssistantPart {
    type V = AssistantPartView;

    open spec fn deep_view(&self) -> AssistantPartView {
        match self {
            AssistantPart::Text(s) => AssistantPartView::Text(s.deep_view()),
            AssistantPart::Refusal(s) => AssistantPartView::Refusal(s.deep_view()),
        }
    }
}

impl DeepView for AssistantContent {
    type V = AssistantContentView;

    open spec fn deep_view(&self) -> AssistantContentView {
        match self {
            AssistantContent::Text(s) => AssistantContentView::Text(s.deep_view()),
            AssistantContent::Array(parts) => AssistantContentView::Array(parts.deep_view()),
        }
    }
}

impl DeepView for FunctionCall {
    type V = FunctionCallView;

    open spec fn deep_view(&self) -> FunctionCallView {
        FunctionCallView { name: self.name.deep_view(), arguments: self.arguments.deep_view() }
    }
}

impl DeepView for ToolCall {
    type V = ToolCallView;

    open spec fn deep_view(&self) -> ToolCallView {
        ToolCallView { id: self.id.deep_view(), function: self.function.deep_view() }
    }
}

impl DeepView for AssistantMessage {
    type V = AssistantMessageView;

    open spec fn deep_view(&self) -> AssistantMessageView {
        AssistantMessageView {
            content: self.content.deep_view(),
            refusal: self.refusal.deep_view(),
            name: self.name.deep_view(),
            audio: self.audio.deep_view(),
            tool_calls: self.tool_calls.deep_view(),
            function_call: self.function_call.deep_view(),
        }
    }
}

impl DeepView for Message {
    type V = MessageView;

    open spec fn deep_view(&self) -> MessageView {
        match self {
            Message::Developer(content, name) => MessageView::Developer(
                content.deep_view(),
                name.deep_view(),
            ),
            Message::System(content, name) => MessageView::System(
                content.deep_view(),
                name.deep_view(),
            ),
            Message::User(content, name) => MessageView::User(
                content.deep_view(),
                name.deep_view(),
            ),
            Message::Assistant(turn) => MessageView::Assistant(turn.deep_view()),
            Message::Tool(content, id) => MessageView::Tool(content.deep_view(), id.deep_view()),
            Message::Function(content, name) => MessageView::Function(
                content.deep_view(),
                name.deep_view(),
            ),
        }
    }
}

/// A value that can be told apart from another, and copied, by its deep view.
pub trait Comparable: DeepView + Sized {
    /// Whether the two values have the same deep view.
    fn same(&self, other: &Self) -> (r: bool)
        ensures
            r == (self.deep_view() == other.deep_view()),
    ;

    /// A copy with the same deep view.
    fn duplicate(&self) -> (r: Self)
        ensures
            r.deep_view() == self.deep_view(),
    ;
}

impl Comparable for String {
    fn same(&self, other: &Self) -> (r: bool) {
        *self == *other
    }

    fn duplicate(&self) -> (r: Self) {
        self.clone()
    }
}

impl<T: Comparable> Comparable for Option<T> {
    fn same(&self, other: &Self) -> (r: bool) {
        match (self, other) {
            (Some(a), Some(b)) => a.same(b),
            (None, None) => true,
            _ => false,
        }
    }

    fn duplicate(&self) -> (r: Self) {
        match self {
            Some(a) => Some(a.duplicate()),
            None => None,
        }
    }
}

impl<T: Comparable> Comparable for Vec<T> {
    fn same(&self, other: &Self) -> (r: bool) {
        if self.len() != other.len() {
            assert(self.deep_view().len() != other.deep_view().len());
            return false;
        }
        let mut i: usize = 0;
        while i < self.len()
            invariant
                i <= self@.len() == other@.len(),
                forall|j: int| 0 <= j < i ==> self.deep_view()[j] == other.deep_view()[j],
            decreases self@.len() - i,
        {
            if !self[i].same(&other[i]) {
                assert(self.deep_view()[i as int] != other.deep_view()[i as int]);
                return false;
            }
            i = i + 1;
        }
        assert(self.deep_view() =~= other.deep_view());
        true
    }

    fn duplicate(&self) -> (r: Self) {
        let mut out: Vec<T> = Vec::new();
        let mut i: usize = 0;
        while i < self.len()
            invariant
                i <= self@.len(),
                out@.len() == i,
                forall|j: int| 0 <= j < i ==> out.deep_view()[j] == self.deep_view()[j],
            decreases self@.len() - i,
        {
            out.push(self[i].duplicate());
            i = i + 1;
        }
        assert(out.deep_view() =~= self.deep_view());
        out
    }
}

impl Comparable for TextContent {
    fn same(&self, other: &Self) -> (r: bool) {
        match (self, other) {
            (TextContent::Text(a), TextContent::Text(b)) => a.same(b),
            (TextContent::Array(a), TextContent::Array(b)) => a.same(b),
            _ => false,
        }
    }

    fn duplicate(&self) -> (r: Self) {
        match self {
            TextContent::Text(a) => TextContent::Text(a.duplicate()),
            TextContent::Array(a) => TextContent::Array(a.duplicate()),
        }
    }
}

impl Comparable for UserPart {
    fn same(&self, other: &Self) -> (r: bool) {
        match (self, other) {
            (UserPart::Text(a), UserPart::Text(b)) => a.same(b),
            (UserPart::ImageUrl(a, d), UserPart::ImageUrl(b, e)) => a.same(b) && match (d, e) {
                (Some(x), Some(y)) => *x == *y,
                (None, None) => true,
                _ => false,
            },
            (UserPart::InputAudio(a, f), UserPart::InputAudio(b, g)) => a.same(b) && *f == *g,
            _ => false,
        }
    }

    fn duplicate(&self) -> (r: Self) {
        match self {
            UserPart::Text(a) => UserPart::Text(a.duplicate()),
            UserPart::ImageUrl(a, d) => UserPart::ImageUrl(a.duplicate(), *d),
            UserPart::InputAudio(a, f) => UserPart::InputAudio(a.duplicate(), *f),
        }
    }
}

impl Comparable for UserContent {
    fn same(&self, other: &Self) -> (r: bool) {
        match (self, other) {
            (UserContent::Text(a), UserContent::Text(b)) => a.same(b),
            (UserContent::Array(a), UserContent::Array(b)) => a.same(b),
            _ => false,
        }
    }

    fn duplicate(&self) -> (r: Self) {
        match self {
            UserContent::Text(a) => UserContent::Text(a.duplicate()),
            UserContent::Array(a) => UserContent::Array(a.duplicate()),
        }
    }
}

impl Comparable for AssistantPart {
    fn same(&self, other: &Self) -> (r: bool) {
        match (self, other) {
            (AssistantPart::Text(a), AssistantPart::Text(b)) => a.same(b),
            (AssistantPart::Refusal(a), AssistantPart::Refusal(b)) => a.same(b),
            _ => false,
        }
    }

    fn duplicate(&self) -> (r: Self) {
        match self {
            AssistantPart::Text(a) => AssistantPart::Text(a.duplicate()),
            AssistantPart::Refusal(a) => AssistantPart::Refusal(a.duplicate()),
        }
    }
}

impl Comparable for AssistantContent {
    fn same(&self, other: &Self) -> (r: bool) {
        match (self, other) {
            (AssistantContent::Text(a), AssistantContent::Text(b)) => a.same(b),
            (AssistantContent::Array(a), AssistantContent::Array(b)) => a.same(b),
            _ => false,
        }
    }

    fn duplicate(&self) -> (r: Self) {
        match self {
            AssistantContent::Text(a) => AssistantContent::Text(a.duplicate()),
            AssistantContent::Array(a) => AssistantContent::Array(a.duplicate()),
        }
    }
}

impl Comparable for FunctionCall {
    fn same(&self, other: &Self) -> (r: bool) {
        self.name.same(&other.name) && self.arguments.same(&other.arguments)
    }

    fn duplicate(&self) -> (r: Self) {
        FunctionCall { name: self.name.duplicate(), arguments: self.arguments.duplicate() }
    }
}

impl Comparable for ToolCall {
    fn same(&self, other: &Self) -> (r: bool) {
        self.id.same(&other.id) && self.function.same(&other.function)
    }

    fn duplicate(&self) -> (r: Self) {
        ToolCall { id: self.id.duplicate(), function: self.function.duplicate() }
    }
}

impl Comparable for AssistantMessage {
    fn same(&self, other: &Self) -> (r: bool) {
        self.content.same(&other.content) && self.refusal.same(&other.refusal) && self.name.same(
            &other.name,
        ) && self.audio.same(&other.audio) && self.tool_calls.same(&other.tool_calls)
            && self.function_call.same(&other.function_call)
    }

    fn duplicate(&self) -> (r: Self) {
        AssistantMessage {
            content: self.content.duplicate(),
            refusal: self.refusal.duplicate(),
            name: self.name.duplicate(),
            audio: self.audio.duplicate(),
            tool_calls: self.tool_calls.duplicate(),
            function_call: self.function_call.duplicate(),
        }
    }
}

impl Comparable for Message {
    fn same(&self, other: &Self) -> (r: bool) {
        match (self, other) {
            (Message::Developer(a, m), Message::Developer(b, n)) => a.same(b) && m.same(n),
            (Message::System(a, m), Message::System(b, n)) => a.same(b) && m.same(n),
            (Message::User(a, m), Message::User(b, n)) => a.same(b) && m.same(n),
            (Message::Assistant(a), Message::Assistant(b)) => a.same(b),
            (Message::Tool(a, m), Message::Tool(b, n)) => a.same(b) && m.same(n),
            (Message::Function(a, m), Message::Function(b, n)) => a.same(b) && m.same(n),
            _ => false,
        }
    }

    fn duplicate(&self) -> (r: Self) {
        match self {
            Message::Developer(a, m) => Message::Developer(a.duplicate(), m.duplicate()),
            Message::System(a, m) => Message::System(a.duplicate(), m.duplicate()),
            Message::User(a, m) => Message::User(a.duplicate(), m.duplicate()),
            Message::Assistant(a) => Message::Assistant(a.duplicate()),
            Message::Tool(a, m) => Message::Tool(a.duplicate(), m.duplicate()),
            Message::Function(a, m) => Message::Function(a.duplicate(), m.duplicate()),
        }
    }
}

} // verus!

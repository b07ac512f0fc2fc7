//! The messages of a conversation with a model, and what goes to the chat
//! client and comes back from it.
//!
//! These are plain data. Sending a request is the caller's work; the types
//! here say what is sent and what the agent makes of the answer.

use crate::tool::{tool_views, Tool, ToolView};
use vstd::prelude::*;

verus! {

/// Who a message is from.
#[derive(Clone, Copy, Debug, PartialEq, Eq, Structural)]
pub enum ChatRole {
    System,
    User,
    Assistant,
    Tool,
}

/// The model's request to run a tool.
#[derive(Debug, PartialEq)]
pub struct ToolCall {
    /// The mark by which the answer is matched to the request.
    pub call_id: String,
    /// The name of the tool.
    pub fn_name: String,
    /// The arguments, a JSON document.
    pub fn_arguments: serde_json::Value,
}

/// The mathematical value of a [`ToolCall`].
pub struct ToolCallView {
    pub call_id: Seq<char>,
    pub fn_name: Seq<char>,
    pub fn_arguments: serde_json::Value,
}

impl View for ToolCall {
    type V = ToolCallView;

    open spec fn view(&self) -> ToolCallView {
        ToolCallView {
            call_id: self.call_id@,
            fn_name: self.fn_name@,
            fn_arguments: self.fn_arguments,
        }
    }
}

impl Clone for ToolCall {
    fn clone(&self) -> (copy: ToolCall)
        ensures
            copy@ == self@,
    {
        ToolCall {
            call_id: self.call_id.clone(),
            fn_name: self.fn_name.clone(),
            fn_arguments: self.fn_arguments.clone(),
        }
    }
}

/// The values of a list of tool calls, in order.
pub open spec fn call_views(calls: Seq<ToolCall>) -> Seq<ToolCallView> {
    calls.map_values(|call: ToolCall| call@)
}

/// Copies a list of tool calls.
pub fn clone_calls(calls: &Vec<ToolCall>) -> (copy: Vec<ToolCall>)
    ensures
        call_views(copy@) == call_views(calls@),
{
    let mut copy: Vec<ToolCall> = Vec::new();
    let mut i: usize = 0;
    while i < calls.len()
        invariant
            i <= calls@.len(),
            copy@.len() == i,
            forall|j: int| 0 <= j < i ==> (#[trigger] copy@[j])@ == calls@[j]@,
        decreases calls@.len() - i,
    {
        copy.push(calls[i].clone());
        i = i + 1;
    }
    assert(call_views(copy@) =~= call_views(calls@));
    copy
}

/// The answer to a tool call: what the tool gave, or the account of why it
/// gave nothing.
#[derive(Debug, PartialEq)]
pub struct ToolResponse {
    /// The mark of the request that this answers.
    pub call_id: String,
    /// The answer.
    pub content: String,
}

/// What a message holds.
#[derive(Debug, PartialEq)]
pub enum MessageContent {
    /// Text.
    Text(String),
    /// The model's requests to run tools, in the order in which it made them.
    ToolCalls(Vec<ToolCall>),
    /// The answer to one such request.
    ToolResponse(ToolResponse),
}

/// The mathematical value of a [`MessageContent`].
pub enum MessageContentView {
    Text(Seq<char>),
    ToolCalls(Seq<ToolCallView>),
    ToolResponse { call_id: Seq<char>, content: Seq<char> },
}

impl View for MessageContent {
    type V = MessageContentView;

    open spec fn view(&self) -> MessageContentView {
        match self {
            MessageContent::Text(text) => MessageContentView::Text(text@),
            MessageContent::ToolCalls(calls) => MessageContentView::ToolCalls(call_views(calls@)),
            MessageContent::ToolResponse(response) => MessageContentView::ToolResponse {
                call_id: response.call_id@,
                content: response.content@,
            },
        }
    }
}

/// One message of a conversation.
#[derive(Debug, PartialEq)]
pub struct ChatMessage {
    pub role: ChatRole,
    pub content: MessageContent,
}

/// The mathematical value of a [`ChatMessage`].
pub struct ChatMessageView {
    pub role: ChatRole,
    pub content: MessageContentView,
}

impl View for ChatMessage {
    type V = ChatMessageView;

    open spec fn view(&self) -> ChatMessageView {
        ChatMessageView { role: self.role, content: self.content@ }
    }
}

/// The message by which the system sets the scene.
pub open spec fn system_message(text: Seq<char>) -> ChatMessageView {
    ChatMessageView { role: ChatRole::System, content: MessageContentView::Text(text) }
}

/// A message of the user.
pub open spec fn user_message(text: Seq<char>) -> ChatMessageView {
    ChatMessageView { role: ChatRole::User, content: MessageContentView::Text(text) }
}

/// A message in which the model speaks.
pub open spec fn assistant_message(text: Seq<char>) -> ChatMessageView {
    ChatMessageView { role: ChatRole::Assistant, content: MessageContentView::Text(text) }
}

/// The message in which the model asks for tools to be run.
pub open spec fn tool_calls_message(calls: Seq<ToolCallView>) -> ChatMessageView {
    ChatMessageView { role: ChatRole::Assistant, content: MessageContentView::ToolCalls(calls) }
}

/// The message that answers the tool call marked `call_id`.
pub open spec fn tool_response_message(call_id: Seq<char>, content: Seq<char>) -> ChatMessageView {
    ChatMessageView {
        role: ChatRole::Tool,
        content: MessageContentView::ToolResponse { call_id, content },
    }
}

impl ChatMessage {
    /// The message by which the system sets the scene.
    pub fn system(text: String) -> (message: ChatMessage)
        ensures
            message@ == system_message(text@),
    {
        ChatMessage { role: ChatRole::System, content: MessageContent::Text(text) }
    }

    /// A message of the user.
    pub fn user(text: String) -> (message: ChatMessage)
        ensures
            message@ == user_message(text@),
    {
        ChatMessage { role: ChatRole::User, content: MessageContent::Text(text) }
    }

    /// A message in which the model speaks.
    pub fn assistant(text: String) -> (message: ChatMessage)
        ensures
            message@ == assistant_message(text@),
    {
        ChatMessage { role: ChatRole::Assistant, content: MessageContent::Text(text) }
    }

    /// The message in which the model asks for tools to be run.
    pub fn tool_calls(calls: Vec<ToolCall>) -> (message: ChatMessage)
        ensures
            message@ == tool_calls_message(call_views(calls@)),
    {
        ChatMessage { role: ChatRole::Assistant, content: MessageContent::ToolCalls(calls) }
    }

    /// The message that answers a tool call.
    pub fn tool_response(response: ToolResponse) -> (message: ChatMessage)
        ensures
            message@ == tool_response_message(response.call_id@, response.content@),
    {
        ChatMessage { role: ChatRole::Tool, content: MessageContent::ToolResponse(response) }
    }
}

impl Clone for ChatMessage {
    fn clone(&self) -> (copy: ChatMessage)
        ensures
            copy@ == self@,
    {
        let content = match &self.content {
            MessageContent::Text(text) => MessageContent::Text(text.clone()),
            MessageContent::ToolCalls(calls) => MessageContent::ToolCalls(clone_calls(calls)),
            MessageContent::ToolResponse(response) => MessageContent::ToolResponse(
                ToolResponse {
                    call_id: response.call_id.clone(),
                    content: response.content.clone(),
                },
            ),
        };
        ChatMessage { role: self.role, content }
    }
}

/// The values of a list of messages, in order.
pub open spec fn message_views(messages: Seq<ChatMessage>) -> Seq<ChatMessageView> {
    messages.map_values(|message: ChatMessage| message@)
}

/// Copies a list of messages.
pub fn clone_messages(messages: &Vec<ChatMessage>) -> (copy: Vec<ChatMessage>)
    ensures
        message_views(copy@) == message_views(messages@),
{
    let mut copy: Vec<ChatMessage> = Vec::new();
    let mut i: usize = 0;
    while i < messages.len()
        invariant
            i <= messages@.len(),
            copy@.len() == i,
            forall|j: int| 0 <= j < i ==> (#[trigger] copy@[j])@ == messages@[j]@,
        decreases messages@.len() - i,
    {
        copy.push(messages[i].clone());
        i = i + 1;
    }
    assert(message_views(copy@) =~= message_views(messages@));
    copy
}

/// The form in which the model is to answer: a name, and the JSON schema
/// that the answer has to meet.
#[derive(Debug, PartialEq)]
pub struct JsonSpec {
    pub name: String,
    pub schema: serde_json::Value,
}

/// What is sent to the chat client.
#[derive(Debug, PartialEq)]
pub struct ChatRequest {
    /// The conversation so far.
    pub messages: Vec<ChatMessage>,
    /// The tools that the model may ask for. Left out where there are none:
    /// some models refuse an empty list.
    pub tools: Option<Vec<Tool>>,
    /// The form in which the model is to answer, where one is asked for.
    pub response_format: Option<JsonSpec>,
}

/// The mathematical value of a [`ChatRequest`].
pub struct ChatRequestView {
    pub messages: Seq<ChatMessageView>,
    pub tools: Option<Seq<ToolView>>,
    pub response_format: Option<(Seq<char>, serde_json::Value)>,
}

impl View for ChatRequest {
    type V = ChatRequestView;

    open spec fn view(&self) -> ChatRequestView {
        ChatRequestView {
            messages: message_views(self.messages@),
            tools: match self.tools {
                Some(tools) => Some(tool_views(tools@)),
                None => None,
            },
            response_format: match self.response_format {
                Some(format) => Some((format.name@, format.schema)),
                None => None,
            },
        }
    }
}

/// What comes back from the chat client: requests to run tools, or text, or
/// neither.
#[derive(Debug, PartialEq)]
pub struct ChatResponse {
    /// The text of the answer.
    pub text: Option<String>,
    /// The tools that the model asks for, in the order in which it did.
    pub tool_calls: Option<Vec<ToolCall>>,
}

} // verus!

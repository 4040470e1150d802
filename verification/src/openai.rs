//! The chat completion request the bot sends and the reply it reads.
use vstd::prelude::*;

verus! {

/// One choice of a chat completion reply.
#[derive(Clone, Debug)]
pub struct OAIChoices {
    pub message: OAIMessage,
    pub index: u8,
    pub finish_reason: String,
}

/// A message of a chat completion reply.
#[derive(Clone, Debug)]
pub struct OAIMessage {
    pub role: String,
    pub content: String,
}

/// A chat completion reply.
#[derive(Clone, Debug)]
pub struct OAIResponse {
    pub id: Option<String>,
    pub object: Option<String>,
    pub created: Option<u64>,
    pub model: Option<String>,
    pub choices: Vec<OAIChoices>,
}

/// A chat completion request: the model and the messages, in order.
#[derive(Clone, Debug)]
pub struct OAIRequest {
    pub model: String,
    pub messages: Vec<OAIReqMessage>,
}

/// A message of a chat completion request.
#[derive(Clone, Debug)]
pub struct OAIReqMessage {
    pub role: String,
    pub content: String,
}

/// A request message, as text.
pub struct OAIReqMessageView {
    pub role: Seq<char>,
    pub content: Seq<char>,
}

impl View for OAIReqMessage {
    type V = OAIReqMessageView;

    open spec fn view(&self) -> OAIReqMessageView {
        OAIReqMessageView { role: self.role@, content: self.content@ }
    }
}

/// A request, as text.
pub struct OAIRequestView {
    pub model: Seq<char>,
    pub messages: Seq<OAIReqMessageView>,
}

impl View for OAIRequest {
    type V = OAIRequestView;

    open spec fn view(&self) -> OAIRequestView {
        OAIRequestView {
            model: self.model@,
            messages: self.messages@.map_values(|m: OAIReqMessage| m@),
        }
    }
}

/// A request message from its role and content.
pub open spec fn message_view(role: Seq<char>, content: Seq<char>) -> OAIReqMessageView {
    OAIReqMessageView { role, content }
}

/// The request the bot sends: to the chat model, a user message, a system
/// message and an assistant message, in that order.
pub open spec fn chat_request(user: Seq<char>, system: Seq<char>, assistant: Seq<char>) -> OAIRequestView {
    OAIRequestView {
        model: "gpt-3.5-turbo"@,
        messages: seq![
            message_view("user"@, user),
            message_view("system"@, system),
            message_view("assistant"@, assistant),
        ],
    }
}

/// Builds the request: to the chat model, a user message, a system message
/// and an assistant message, in that order.
pub fn chat_request_of(user: String, system: String, assistant: String) -> (r: OAIRequest)
    ensures
        r@ == chat_request(user@, system@, assistant@),
{
    let mut messages: Vec<OAIReqMessage> = Vec::new();
    messages.push(OAIReqMessage { content: user, role: "user".to_owned() });
    messages.push(OAIReqMessage { content: system, role: "system".to_owned() });
    messages.push(OAIReqMessage { content: assistant, role: "assistant".to_owned() });
    let r = OAIRequest { messages, model: "gpt-3.5-turbo".to_owned() };
    assert(r@.messages =~= chat_request(user@, system@, assistant@).messages);
    r
}

impl OAIResponse {
    /// The content of the first choice of the reply.
    pub fn first_content(&self) -> (s: String)
        requires
            self.choices@.len() > 0,
        ensures
            s@ == self.choices@[0].message.content@,
    {
        self.choices[0].message.content.clone()
    }
}

} // verus!

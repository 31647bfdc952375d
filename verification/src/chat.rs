//! The conversation sent to the endpoint: roles, messages and the prompt template.

use vstd::prelude::*;

verus! {

/// Who speaks in a message of the conversation.
#[derive(Clone, Copy, Debug, PartialEq, Eq, Structural)]
pub enum Role {
    System,
    User,
    Assistant,
}

/// The label under which a role travels on the wire.
pub open spec fn role_text(role: Role) -> Seq<char> {
    match role {
        Role::System => "system"@,
        Role::User => "user"@,
        Role::Assistant => "assistant"@,
    }
}

impl Role {
    /// The wire label of this role.
    pub fn name(self) -> (out: &'static str)
        ensures
            out@ == role_text(self),
    {
        match self {
            Role::System => "system",
            Role::User => "user",
            Role::Assistant => "assistant",
        }
    }
}

/// What a message is: a role and the characters of its content.
pub struct MessageModel {
    pub role: Role,
    pub content: Seq<char>,
}

/// One message of the conversation.
#[derive(Clone, Debug)]
pub struct Message {
    pub role: Role,
    pub content: String,
}

impl View for Message {
    type V = MessageModel;

    open spec fn view(&self) -> MessageModel {
        MessageModel { role: self.role, content: self.content@ }
    }
}

/// What a chat request is: the model's identifier, the messages in order, and
/// the sampling temperature counted in tenths.
pub struct ChatRequestModel {
    pub model: Seq<char>,
    pub messages: Seq<MessageModel>,
    pub temperature_tenths: u8,
}

/// A chat-completion request. The temperature is held in tenths, so that
/// `7` stands for 0.7.
#[derive(Clone, Debug)]
pub struct ChatRequest {
    pub model: String,
    pub messages: Vec<Message>,
    pub temperature_tenths: u8,
}

impl View for ChatRequest {
    type V = ChatRequestModel;

    open spec fn view(&self) -> ChatRequestModel {
        ChatRequestModel {
            model: self.model@,
            messages: Seq::new(self.messages@.len(), |i: int| self.messages@[i]@),
            temperature_tenths: self.temperature_tenths,
        }
    }
}

/// The identifier of the model every request asks for.
pub open spec fn model_name() -> Seq<char> {
    "gpt-4o-mini"@
}

/// The fixed directive sent as the system message.
pub open spec fn system_instruction() -> Seq<char> {
    "You are a helpful assistant. Answer concisely."@
}

/// What stands between the system instruction and the user's text in the
/// prompt: a space, a blank line and the label of the user's turn.
pub open spec fn user_label() -> Seq<char> {
    " \n\nUser: "@
}

/// The temperature of every request, in tenths.
pub const TEMPERATURE_TENTHS: u8 = 7;

/// The content of the user message for the input `user_input`: the system
/// instruction, the separator, then the input exactly as given.
pub open spec fn prompt_for(user_input: Seq<char>) -> Seq<char> {
    system_instruction() + user_label() + user_input
}

/// The chat request for the input `user_input`: the system instruction as the
/// system message, followed by the assembled prompt as the user message.
pub open spec fn chat_request_for(user_input: Seq<char>) -> ChatRequestModel {
    ChatRequestModel {
        model: model_name(),
        messages: seq![
            MessageModel { role: Role::System, content: system_instruction() },
            MessageModel { role: Role::User, content: prompt_for(user_input) },
        ],
        temperature_tenths: TEMPERATURE_TENTHS,
    }
}

/// Assembles the content of the user message. The input is neither trimmed
/// nor escaped; an empty input yields the bare template.
pub fn assemble_prompt(user_input: &str) -> (out: String)
    ensures
        out@ == prompt_for(user_input@),
        out@ == system_instruction() + user_label() + user_input@,
{
    let mut out = String::from_str("You are a helpful assistant. Answer concisely.");
    out.append(" \n\nUser: ");
    out.append(user_input);
    out
}

/// Builds the chat request for one user input.
pub fn build_chat_request(user_input: &str) -> (out: ChatRequest)
    ensures
        out@ == chat_request_for(user_input@),
        out@.messages.len() == 2,
        out@.messages[0].role == Role::System,
        out@.messages[0].content == system_instruction(),
        out@.messages[1].role == Role::User,
        out@.messages[1].content == prompt_for(user_input@),
{
    let system = Message {
        role: Role::System,
        content: String::from_str("You are a helpful assistant. Answer concisely."),
    };
    let user = Message { role: Role::User, content: assemble_prompt(user_input) };
    let mut messages: Vec<Message> = Vec::new();
    messages.push(system);
    messages.push(user);
    let out = ChatRequest {
        model: String::from_str("gpt-4o-mini"),
        messages,
        temperature_tenths: TEMPERATURE_TENTHS,
    };
    assert(out@.messages =~= chat_request_for(user_input@).messages);
    out
}

} // verus!

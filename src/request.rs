use vstd::prelude::*;
use vstd::string::*;
use crate::clipboard::ClipboardContent;
use crate::config::Config;
use crate::error::join_message;

verus! {

/// The endpoint that receives the request.
pub const API_URL: &'static str = "https://openrouter.ai/api/v1/chat/completions";
/// The model that is asked.
pub const MODEL_NAME: &'static str = "google/gemini-2.0-flash-001";
/// The cap on the length of the reply, in tokens.
pub const MAX_TOKENS: u32 = 1024;
/// The instruction sent along with an image.
pub const IMAGE_INSTRUCTION: &'static str = "Describe this image.";
/// What precedes the base64 text in the data URI of an image.
pub const DATA_URI_HEAD: &'static str = "data:image/png;base64,";

/// Who speaks in a message.
#[derive(Debug, Clone, Copy, PartialEq, Eq, Structural)]
pub enum Role {
    System,
    User,
}

impl Role {
    /// The role's name on the wire.
    pub fn as_str(&self) -> (r: &'static str)
        ensures
            r@ == match self {
                Role::System => "system"@,
                Role::User => "user"@,
            },
    {
        match self {
            Role::System => "system",
            Role::User => "user",
        }
    }
}

/// One part of a multi-part message.
#[derive(Debug)]
pub enum ContentPart {
    Text(String),
    ImageUrl(String),
}

/// The content of a message: plain text, or an ordered list of parts.
#[derive(Debug)]
pub enum MessageContent {
    Text(String),
    Parts(Vec<ContentPart>),
}

#[derive(Debug)]
pub struct Message {
    pub role: Role,
    pub content: MessageContent,
}

/// A chat-completion request.
#[derive(Debug)]
pub struct ApiRequest {
    pub model: String,
    pub messages: Vec<Message>,
    pub max_tokens: u32,
}

/// The abstract value of a content part.
pub enum PartView {
    Text(Seq<char>),
    ImageUrl(Seq<char>),
}

/// The abstract value of message content.
pub enum ContentView {
    Text(Seq<char>),
    Parts(Seq<PartView>),
}

impl ContentPart {
    pub open spec fn view(&self) -> PartView {
        match self {
            ContentPart::Text(t) => PartView::Text(t@),
            ContentPart::ImageUrl(u) => PartView::ImageUrl(u@),
        }
    }
}

impl MessageContent {
    pub open spec fn view(&self) -> ContentView {
        match self {
            MessageContent::Text(t) => ContentView::Text(t@),
            MessageContent::Parts(ps) => ContentView::Parts(ps@.map_values(|p: ContentPart| p.view())),
        }
    }
}

impl Message {
    pub open spec fn view(&self) -> (Role, ContentView) {
        (self.role, self.content.view())
    }
}

/// The data URI that carries a base64 PNG.
pub open spec fn data_uri_of(base64_png: Seq<char>) -> Seq<char> {
    DATA_URI_HEAD@ + base64_png
}

/// The user message for the clipboard content.
pub open spec fn user_content_of(content: ClipboardContent) -> ContentView {
    match content {
        ClipboardContent::Text(t) => ContentView::Text(t@),
        ClipboardContent::Image { base64_png } => ContentView::Parts(
            seq![PartView::Text(IMAGE_INSTRUCTION@), PartView::ImageUrl(data_uri_of(base64_png@))],
        ),
    }
}

/// The messages of a request: the system prompt, where there is one, then the
/// user message.
pub open spec fn messages_of(system_prompt: Option<Seq<char>>, content: ClipboardContent) -> Seq<
    (Role, ContentView),
> {
    let user = (Role::User, user_content_of(content));
    match system_prompt {
        Some(p) => seq![(Role::System, ContentView::Text(p)), user],
        None => seq![user],
    }
}

/// The data URI of a base64 PNG.
pub fn image_data_uri(base64_png: &str) -> (r: String)
    ensures
        r@ == data_uri_of(base64_png@),
{
    join_message(DATA_URI_HEAD, base64_png)
}

/// The user message for the clipboard content.
pub fn user_message(content: &ClipboardContent) -> (r: Message)
    ensures
        r.view() == (Role::User, user_content_of(*content)),
{
    match content {
        ClipboardContent::Text(t) => Message {
            role: Role::User,
            content: MessageContent::Text(t.clone()),
        },
        ClipboardContent::Image { base64_png } => {
            let parts = vec![
                ContentPart::Text(String::from_str(IMAGE_INSTRUCTION)),
                ContentPart::ImageUrl(image_data_uri(base64_png.as_str())),
            ];
            let r = Message { role: Role::User, content: MessageContent::Parts(parts) };
            assert(r.content.view() == user_content_of(*content)) by {
                if let ContentView::Parts(v) = r.content.view() {
                    assert(v =~= seq![
                        PartView::Text(IMAGE_INSTRUCTION@),
                        PartView::ImageUrl(data_uri_of(base64_png@)),
                    ]);
                }
            }
            r
        },
    }
}

/// Builds the ordered messages: the system prompt, where configured, then the
/// user message for the clipboard content.
pub fn build_messages(config: &Config, content: &ClipboardContent) -> (r: Vec<Message>)
    ensures
        r@.map_values(|m: Message| m.view()) == messages_of(config.view().1, *content),
{
    let mut messages: Vec<Message> = Vec::new();
    match &config.system_prompt {
        Some(p) => {
            messages.push(Message { role: Role::System, content: MessageContent::Text(p.clone()) });
        },
        None => {},
    }
    messages.push(user_message(content));
    assert(messages@.map_values(|m: Message| m.view()) =~= messages_of(
        config.view().1,
        *content,
    ));
    messages
}

/// Builds the request: the fixed model and token cap around the messages.
pub fn build_request(config: &Config, content: &ClipboardContent) -> (r: ApiRequest)
    ensures
        r.model@ == MODEL_NAME@,
        r.max_tokens == MAX_TOKENS,
        r.messages@.map_values(|m: Message| m.view()) == messages_of(config.view().1, *content),
{
    ApiRequest {
        model: String::from_str(MODEL_NAME),
        messages: build_messages(config, content),
        max_tokens: MAX_TOKENS,
    }
}

} // verus!

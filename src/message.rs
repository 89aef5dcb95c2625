//! The conversation data sent to the remote model.
use vstd::prelude::*;

verus! {

/// Who spoke a turn of the conversation.
#[derive(Clone, Copy, Debug, PartialEq, Eq, Structural)]
pub enum Role {
    User,
    Model,
}

/// The name under which a role travels on the wire.
pub open spec fn role_name(role: Role) -> Seq<char> {
    match role {
        Role::User => "user"@,
        Role::Model => "model"@,
    }
}

impl Role {
    /// The wire name of the role.
    pub fn name(&self) -> (r: String)
        ensures
            r@ == role_name(*self),
    {
        match self {
            Role::User => "user".to_owned(),
            Role::Model => "model".to_owned(),
        }
    }

    /// The role with the wire name `name`, if there is one.
    pub fn from_name(name: &String) -> (r: Option<Role>)
        ensures
            r matches Some(role) ==> role_name(role) == name@,
            r is None ==> name@ != "user"@ && name@ != "model"@,
    {
        let user = "user".to_owned();
        let model = "model".to_owned();
        proof {
            reveal_strlit("user");
            reveal_strlit("model");
        }
        if *name == user {
            Some(Role::User)
        } else if *name == model {
            Some(Role::Model)
        } else {
            None
        }
    }
}

/// Bytes carried inline in a message, already base64-encoded.
#[derive(Clone, Debug)]
pub struct InlineData {
    pub mime_type: String,
    pub data: String,
}

/// One fragment of a turn: text, inline data, or (tolerated) neither.
#[derive(Clone, Debug)]
pub struct MessagePart {
    pub text: Option<String>,
    pub inline_data: Option<InlineData>,
}

/// One turn of a conversation; the order of `parts` is kept end to end.
#[derive(Clone, Debug)]
pub struct Message {
    pub role: Role,
    pub parts: Vec<MessagePart>,
}

/// The payload of one call to the model: the dialogue so far, in order.
#[derive(Clone, Debug)]
pub struct ModelRequest {
    pub contents: Vec<Message>,
}

/// The media type under which screenshots are sent.
pub open spec fn png_mime() -> Seq<char> {
    "image/png"@
}

/// `part` carries exactly the text `t`.
pub open spec fn is_text_part(part: MessagePart, t: Seq<char>) -> bool {
    &&& part.inline_data is None
    &&& part.text matches Some(s) && s@ == t
}

/// `part` carries exactly the inline data `(mime, data)`.
pub open spec fn is_inline_part(part: MessagePart, mime: Seq<char>, data: Seq<char>) -> bool {
    &&& part.text is None
    &&& part.inline_data matches Some(d) && d.mime_type@ == mime && d.data@ == data
}

/// `m` is the user turn that asks `prompt` about a PNG whose base64 text is `data`:
/// the prompt first, the image second, nothing else.
pub open spec fn is_screen_message(m: Message, prompt: Seq<char>, data: Seq<char>) -> bool {
    &&& m.role == Role::User
    &&& m.parts@.len() == 2
    &&& is_text_part(m.parts@[0], prompt)
    &&& is_inline_part(m.parts@[1], png_mime(), data)
}

/// A part holding only the text `text`.
pub fn text_part(text: String) -> (r: MessagePart)
    ensures
        r.text == Some(text),
        r.inline_data is None,
{
    MessagePart { text: Some(text), inline_data: None }
}

/// A part holding only the inline data `(mime_type, data)`.
pub fn inline_part(mime_type: String, data: String) -> (r: MessagePart)
    ensures
        r.text is None,
        r.inline_data matches Some(d) && d.mime_type == mime_type && d.data == data,
{
    MessagePart { text: None, inline_data: Some(InlineData { mime_type, data }) }
}

/// The single user turn that asks `prompt` about the PNG image whose base64
/// text is `png_base64`.
pub fn screen_message(prompt: String, png_base64: String) -> (r: Message)
    ensures
        is_screen_message(r, prompt@, png_base64@),
{
    let mime = "image/png".to_owned();
    proof {
        reveal_strlit("image/png");
    }
    let mut parts: Vec<MessagePart> = Vec::new();
    parts.push(text_part(prompt));
    parts.push(inline_part(mime, png_base64));
    Message { role: Role::User, parts }
}

} // verus!

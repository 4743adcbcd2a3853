//! The frames exchanged with clients: one JSON object per frame.
use vstd::prelude::*;

use std::collections::BTreeMap;

verus! {

/// The members of a JSON object, each name once (a repeated name keeps its
/// last value), in increasing order of names: each name with its value when
/// that value is a JSON string, `None` for a value of another kind. `None` for
/// a text that is not one JSON object.
pub uninterp spec fn json_object_fields(text: Seq<char>) -> Option<Seq<(Seq<char>, Option<Seq<char>>)>>;

/// A lowercase hexadecimal digit.
pub open spec fn hex_digit(n: u32) -> char {
    seq!['0', '1', '2', '3', '4', '5', '6', '7', '8', '9', 'a', 'b', 'c', 'd', 'e', 'f'][n as int]
}

/// How one character stands inside a JSON string literal: the quote and the
/// backslash are escaped, control characters take their short escape or
/// `\u00XX`, every other character stands for itself.
pub open spec fn escaped(c: char) -> Seq<char> {
    let v = c as u32;
    if c == '"' {
        seq!['\\', '"']
    } else if c == '\\' {
        seq!['\\', '\\']
    } else if v == 0x08 {
        seq!['\\', 'b']
    } else if v == 0x09 {
        seq!['\\', 't']
    } else if v == 0x0a {
        seq!['\\', 'n']
    } else if v == 0x0c {
        seq!['\\', 'f']
    } else if v == 0x0d {
        seq!['\\', 'r']
    } else if v < 0x20 {
        seq!['\\', 'u', '0', '0', hex_digit(v / 16), hex_digit(v % 16)]
    } else {
        seq![c]
    }
}

/// The characters of `s`, each escaped.
pub open spec fn escaped_text(s: Seq<char>) -> Seq<char>
    decreases s.len(),
{
    if s.len() == 0 {
        Seq::empty()
    } else {
        escaped_text(s.drop_last()) + escaped(s.last())
    }
}

/// The JSON string literal that stands for `s`, quotes and escapes included.
pub open spec fn json_string(s: Seq<char>) -> Seq<char> {
    seq!['"'] + escaped_text(s) + seq!['"']
}

/// Relies on `serde_json::from_str` into a map from names to
/// `serde_json::Value`: the text is parsed as one JSON object; string values
/// are kept, values of other kinds are marked absent.
#[verifier::external_body]
fn object_fields(text: &str) -> (r: Option<Vec<(String, Option<String>)>>)
    ensures
        r.deep_view() == json_object_fields(text@),
{
    serde_json::from_str::<BTreeMap<String, serde_json::Value>>(text).ok().map(
        |object| {
            object.into_iter().map(|(name, value)| match value {
                serde_json::Value::String(s) => (name, Some(s)),
                _ => (name, None),
            }).collect()
        },
    )
}

/// Relies on `serde_json::to_string` applied to a string slice: it writes the
/// JSON string literal of `s` into a byte vector, which cannot fail.
#[verifier::external_body]
fn quote(s: &str) -> (r: Option<String>)
    ensures
        r is Some,
        r->Some_0@ == json_string(s@),
{
    serde_json::to_string(s).ok()
}

/// Why an inbound frame was discarded.
#[derive(Debug, Clone, Copy, PartialEq, Eq, Structural)]
pub enum FrameError {
    /// Not a JSON object, or a member the command needs is missing or is not
    /// a string.
    Malformed,
    /// The `type` member names no command.
    UnknownType,
}

/// A command decoded from one inbound frame.
#[derive(Debug)]
pub enum ChatCommand {
    /// `{"type":"join_room","room_id":..,"username":..}`
    JoinRoom { room_id: String, username: String },
    /// `{"type":"send_message","room_id":..,"content":..}`
    SendMessage { room_id: String, content: String },
}

/// A command with its texts as sequences of characters.
pub enum CommandView {
    JoinRoom { room_id: Seq<char>, username: Seq<char> },
    SendMessage { room_id: Seq<char>, content: Seq<char> },
}

impl ChatCommand {
    pub open spec fn view(&self) -> CommandView {
        match self {
            ChatCommand::JoinRoom { room_id, username } => CommandView::JoinRoom {
                room_id: room_id@,
                username: username@,
            },
            ChatCommand::SendMessage { room_id, content } => CommandView::SendMessage {
                room_id: room_id@,
                content: content@,
            },
        }
    }
}

/// The outcome of decoding, with texts as sequences of characters.
pub open spec fn decoded_view(r: Result<ChatCommand, FrameError>) -> Result<CommandView, FrameError> {
    match r {
        Ok(c) => Ok(c.view()),
        Err(e) => Err(e),
    }
}

/// The value of the first member called `name`, if any.
pub open spec fn field_of(fields: Seq<(Seq<char>, Option<Seq<char>>)>, name: Seq<char>) -> Option<
    Option<Seq<char>>,
>
    decreases fields.len(),
{
    if fields.len() == 0 {
        None
    } else if fields[0].0 == name {
        Some(fields[0].1)
    } else {
        field_of(fields.drop_first(), name)
    }
}

/// The member called `name` when there is one and it holds a string.
pub open spec fn text_field(fields: Seq<(Seq<char>, Option<Seq<char>>)>, name: Seq<char>) -> Option<
    Seq<char>,
> {
    match field_of(fields, name) {
        Some(Some(v)) => Some(v),
        _ => None,
    }
}

/// The command that the members of an inbound object stand for.
pub open spec fn command_of_fields(fields: Seq<(Seq<char>, Option<Seq<char>>)>) -> Result<
    CommandView,
    FrameError,
> {
    match text_field(fields, "type"@) {
        Some(tag) => if tag == "join_room"@ {
            match (text_field(fields, "room_id"@), text_field(fields, "username"@)) {
                (Some(room_id), Some(username)) => Ok(
                    CommandView::JoinRoom { room_id, username },
                ),
                _ => Err(FrameError::Malformed),
            }
        } else if tag == "send_message"@ {
            match (text_field(fields, "room_id"@), text_field(fields, "content"@)) {
                (Some(room_id), Some(content)) => Ok(
                    CommandView::SendMessage { room_id, content },
                ),
                _ => Err(FrameError::Malformed),
            }
        } else {
            Err(FrameError::UnknownType)
        },
        None => Err(FrameError::Malformed),
    }
}

/// The command that an inbound frame stands for.
pub open spec fn frame_command(text: Seq<char>) -> Result<CommandView, FrameError> {
    match json_object_fields(text) {
        Some(fields) => command_of_fields(fields),
        None => Err(FrameError::Malformed),
    }
}

/// Whether `s` spells `word`.
fn spells(s: &String, word: &str) -> (r: bool)
    ensures
        r == (s@ == word@),
{
    let w = String::from_str(word);
    *s == w
}

/// The member called `name` when it holds a string.
pub(crate) fn text_member(fields: &Vec<(String, Option<String>)>, name: &str) -> (r: Option<String>)
    ensures
        r.deep_view() == text_field(fields.deep_view(), name@),
{
    let ghost all = fields.deep_view();
    assert(all.subrange(0, all.len() as int) =~= all);
    let mut i: usize = 0;
    while i < fields.len()
        invariant
            0 <= i <= fields.len(),
            all == fields.deep_view(),
            field_of(all, name@) == field_of(all.subrange(i as int, all.len() as int), name@),
        decreases fields.len() - i,
    {
        proof {
            let rest = all.subrange(i as int, all.len() as int);
            assert(rest.drop_first() =~= all.subrange(i + 1, all.len() as int));
            assert(rest[0] == all[i as int]);
            assert(all[i as int] == fields@[i as int].deep_view());
        }
        if spells(&fields[i].0, name) {
            return match &fields[i].1 {
                Some(v) => Some(v.clone()),
                None => None,
            };
        }
        i = i + 1;
    }
    assert(all.subrange(i as int, all.len() as int).len() == 0);
    None
}

impl ChatCommand {
    /// The command that the members of an inbound object stand for: `type`
    /// picks the command, and each member it needs must hold a string.
    pub fn from_fields(fields: &Vec<(String, Option<String>)>) -> (r: Result<ChatCommand, FrameError>)
        ensures
            decoded_view(r) == command_of_fields(fields.deep_view()),
    {
        let tag = match text_member(fields, "type") {
            Some(t) => t,
            None => return Err(FrameError::Malformed),
        };
        if spells(&tag, "join_room") {
            let room_id = text_member(fields, "room_id");
            let username = text_member(fields, "username");
            match (room_id, username) {
                (Some(room_id), Some(username)) => Ok(ChatCommand::JoinRoom { room_id, username }),
                _ => Err(FrameError::Malformed),
            }
        } else if spells(&tag, "send_message") {
            let room_id = text_member(fields, "room_id");
            let content = text_member(fields, "content");
            match (room_id, content) {
                (Some(room_id), Some(content)) => Ok(ChatCommand::SendMessage { room_id, content }),
                _ => Err(FrameError::Malformed),
            }
        } else {
            Err(FrameError::UnknownType)
        }
    }

    /// Decodes one inbound frame.
    pub fn decode(text: &str) -> (r: Result<ChatCommand, FrameError>)
        ensures
            decoded_view(r) == frame_command(text@),
    {
        match object_fields(text) {
            Some(fields) => ChatCommand::from_fields(&fields),
            None => Err(FrameError::Malformed),
        }
    }
}

/// A room identifier is well formed when it is not empty.
pub open spec fn valid_room_id(room: Seq<char>) -> bool {
    room.len() > 0
}

/// Whether `room` is a well-formed room identifier.
pub fn is_valid_room_id(room: &str) -> (r: bool)
    ensures
        r == valid_room_id(room@),
{
    !room.is_empty()
}

/// The frame that announces a new message to the members of a room.
pub open spec fn outbound_frame(room_id: Seq<char>, username: Seq<char>, content: Seq<char>) -> Seq<
    char,
> {
    "{\"type\":\"new_message\",\"room_id\":"@ + json_string(room_id) + ",\"username\":"@
        + json_string(username) + ",\"content\":"@ + json_string(content) + "}"@
}

/// A new message, as fanned out to the members of its room.
#[derive(Debug)]
pub struct OutboundMessage {
    pub room_id: String,
    pub content: String,
    pub username: String,
}

impl OutboundMessage {
    pub fn new(room_id: String, username: String, content: String) -> (r: Self)
        ensures
            r.room_id@ == room_id@,
            r.username@ == username@,
            r.content@ == content@,
    {
        OutboundMessage { room_id, content, username }
    }

    /// The frame, encoded once: a `new_message` object with the room, the
    /// sender's name and the text, in that order.
    pub fn to_json(&self) -> (r: String)
        ensures
            r@ == outbound_frame(self.room_id@, self.username@, self.content@),
    {
        let room_id = quote(self.room_id.as_str()).unwrap();
        let username = quote(self.username.as_str()).unwrap();
        let content = quote(self.content.as_str()).unwrap();
        let mut out = String::from_str("{\"type\":\"new_message\",\"room_id\":");
        out.append(room_id.as_str());
        out.append(",\"username\":");
        out.append(username.as_str());
        out.append(",\"content\":");
        out.append(content.as_str());
        out.append("}");
        out
    }
}

} // verus!

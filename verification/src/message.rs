//! The text messages exchanged with the relay.

use vstd::prelude::*;

use crate::json;
use crate::json::{object_text, parse_json, string_member};
use crate::laws;

verus! {

/// A message of the relay: the members that the proxy reads, each present only where the
/// message has it as a string.
#[derive(Debug)]
pub struct RelayMessage {
    pub kind: Option<String>,
    pub vin: Option<String>,
    pub reason: Option<String>,
    pub payload: Option<String>,
}

/// A message of the relay by the characters of its members.
pub ghost struct MessageView {
    pub kind: Option<Seq<char>>,
    pub vin: Option<Seq<char>>,
    pub reason: Option<Seq<char>>,
    pub payload: Option<Seq<char>>,
}

/// The characters of a text that may be missing.
pub open spec fn text_view(s: Option<String>) -> Option<Seq<char>> {
    match s {
        Some(s) => Some(s@),
        None => None,
    }
}

impl View for RelayMessage {
    type V = MessageView;

    open spec fn view(&self) -> MessageView {
        MessageView {
            kind: text_view(self.kind),
            vin: text_view(self.vin),
            reason: text_view(self.reason),
            payload: text_view(self.payload),
        }
    }
}

/// The member of a key, if there is one.
pub open spec fn member(members: Map<Seq<char>, Seq<char>>, key: Seq<char>) -> Option<Seq<char>> {
    if members.contains_key(key) {
        Some(members[key])
    } else {
        None
    }
}

/// The message that an object with the given string members stands for.
pub open spec fn message_of(members: Map<Seq<char>, Seq<char>>) -> MessageView {
    MessageView {
        kind: member(members, "type"@),
        vin: member(members, "vin"@),
        reason: member(members, "reason"@),
        payload: member(members, "payload"@),
    }
}

/// The message in a text, if the text is JSON.
pub open spec fn message_in(text: Seq<char>) -> Option<MessageView> {
    match json::json_string_members(text) {
        Some(members) => Some(message_of(members)),
        None => None,
    }
}

/// `text` is the member of a key, there if and only if the member is.
pub open spec fn is_member(
    text: Option<String>,
    members: Map<Seq<char>, Seq<char>>,
    key: Seq<char>,
) -> bool {
    &&& text is Some <==> members.contains_key(key)
    &&& text is Some ==> text->Some_0@ == members[key]
}

/// Reads a text of the relay.
pub fn read_message(text: &str) -> (res: Option<RelayMessage>)
    ensures
        match res {
            Some(message) => message_in(text@) == Some(message@),
            None => message_in(text@) is None,
        },
        res is Some <==> json::json_string_members(text@) is Some,
        res matches Some(message) ==> {
            let members = json::json_string_members(text@)->Some_0;
            &&& is_member(message.kind, members, "type"@)
            &&& is_member(message.vin, members, "vin"@)
            &&& is_member(message.reason, members, "reason"@)
            &&& is_member(message.payload, members, "payload"@)
        },
{
    match parse_json(text) {
        Some(value) => Some(
            RelayMessage {
                kind: string_member(&value, "type"),
                vin: string_member(&value, "vin"),
                reason: string_member(&value, "reason"),
                payload: string_member(&value, "payload"),
            },
        ),
        None => None,
    }
}

/// The members of the message that joins a session.
pub open spec fn join_members(session_id: Seq<char>, device_id: Seq<char>) -> Seq<
    (Seq<char>, Seq<char>),
> {
    seq![
        ("type"@, "join"@),
        ("platform"@, "windows"@),
        ("session_id"@, session_id),
        ("device_id"@, device_id),
    ]
}

/// The message that joins a session.
pub fn join_text(session_id: &str, device_id: &str) -> (res: String)
    ensures
        res@ == json::json_object_text(join_members(session_id@, device_id@)),
        json::json_string_members(res@) == Some(
            json::members_map(join_members(session_id@, device_id@)),
        ),
        json::json_string_members(res@) == Some(
            map![
                "type"@ => "join"@,
                "platform"@ => "windows"@,
                "session_id"@ => session_id@,
                "device_id"@ => device_id@,
            ],
        ),
{
    let mut members: Vec<(String, String)> = Vec::new();
    members.push(("type".to_string(), "join".to_string()));
    members.push(("platform".to_string(), "windows".to_string()));
    members.push(("session_id".to_string(), session_id.to_string()));
    members.push(("device_id".to_string(), device_id.to_string()));
    assert(members.deep_view() =~= join_members(session_id@, device_id@));
    proof {
        reveal_strlit("type");
        reveal_strlit("platform");
        reveal_strlit("session_id");
        reveal_strlit("device_id");
        laws::law_join_message_content(session_id@, device_id@);
    }
    object_text(members)
}

/// The members of the message that keeps a session alive.
pub open spec fn heartbeat_members(session_id: Seq<char>) -> Seq<(Seq<char>, Seq<char>)> {
    seq![("type"@, "heartbeat"@), ("session_id"@, session_id)]
}

/// The message that keeps a session alive.
pub fn heartbeat_text(session_id: &str) -> (res: String)
    ensures
        res@ == json::json_object_text(heartbeat_members(session_id@)),
        json::json_string_members(res@) == Some(
            json::members_map(heartbeat_members(session_id@)),
        ),
        json::json_string_members(res@) == Some(
            map!["type"@ => "heartbeat"@, "session_id"@ => session_id@],
        ),
{
    let mut members: Vec<(String, String)> = Vec::new();
    members.push(("type".to_string(), "heartbeat".to_string()));
    members.push(("session_id".to_string(), session_id.to_string()));
    assert(members.deep_view() =~= heartbeat_members(session_id@));
    proof {
        reveal_strlit("type");
        reveal_strlit("session_id");
        laws::law_heartbeat_content(session_id@);
    }
    object_text(members)
}

} // verus!

use vstd::prelude::*;

verus! {

/// One member of a JSON object: its key and, when its value is a JSON string,
/// that string.
pub struct JsonMember {
    pub key: String,
    pub text: Option<String>,
}

/// The plain value of a member.
pub open spec fn member_view(m: JsonMember) -> (Seq<char>, Option<Seq<char>>) {
    (
        m.key@,
        match m.text {
            Some(t) => Some(t@),
            None => None,
        },
    )
}

/// The plain values of a list of members.
pub open spec fn members_view(ms: Seq<JsonMember>) -> Seq<(Seq<char>, Option<Seq<char>>)> {
    ms.map_values(|m: JsonMember| member_view(m))
}

/// The members of the JSON object that `text` holds, in serde_json's order,
/// each with its string value if it has one; `None` when `text` is not a JSON
/// object.
pub uninterp spec fn json_object_members(text: Seq<char>) -> Option<
    Seq<(Seq<char>, Option<Seq<char>>)>,
>;

/// `s` written as a JSON string literal, quotes and escapes included.
pub uninterp spec fn json_string_literal(s: Seq<char>) -> Seq<char>;

/// Relies on serde_json::from_str::<serde_json::Value>: a text that parses to
/// an object gives its members; any other text gives `None`.
#[verifier::external_body]
fn parse_object(text: &str) -> (r: Option<Vec<JsonMember>>)
    ensures
        match r {
            Some(ms) => json_object_members(text@) == Some(members_view(ms@)),
            None => json_object_members(text@) is None,
        },
{
    match serde_json::from_str::<serde_json::Value>(text) {
        Ok(serde_json::Value::Object(map)) => Some(
            map.into_iter().map(
                |(key, value)|
                    match value {
                        serde_json::Value::String(s) => JsonMember { key, text: Some(s) },
                        _ => JsonMember { key, text: None },
                    },
            ).collect(),
        ),
        _ => None,
    }
}

/// Relies on serde_json::to_string on a `str`, which writes the JSON string
/// literal into a buffer in memory and so cannot fail.
#[verifier::external_body]
fn quote_json(s: &str) -> (r: String)
    ensures
        r@ == json_string_literal(s@),
{
    match serde_json::to_string(s) {
        Ok(t) => t,
        Err(_) => String::new(),
    }
}

/// Position `i` is the first member with key `key`.
pub open spec fn first_with_key(ms: Seq<(Seq<char>, Option<Seq<char>>)>, key: Seq<char>, i: int) -> bool {
    &&& 0 <= i < ms.len()
    &&& ms[i].0 == key
    &&& forall|k: int| 0 <= k < i ==> ms[k].0 != key
}

/// The value of the first member with key `key`: `None` when there is no such
/// member, `Some(None)` when its value is not a string.
pub open spec fn member_value(ms: Seq<(Seq<char>, Option<Seq<char>>)>, key: Seq<char>) -> Option<
    Option<Seq<char>>,
> {
    if exists|i: int| first_with_key(ms, key, i) {
        Some(ms[choose|i: int| first_with_key(ms, key, i)].1)
    } else {
        None
    }
}

/// The string value of the member `key`, if there is one and it is a string.
pub open spec fn string_member(ms: Seq<(Seq<char>, Option<Seq<char>>)>, key: Seq<char>) -> Option<
    Seq<char>,
> {
    match member_value(ms, key) {
        Some(Some(s)) => Some(s),
        _ => None,
    }
}

/// An inbound socket frame, as the grammar reads it.
pub enum InboundFrame {
    /// A message send for the socket's user into conversation `chat_id`.
    Chat { chat_id: String, content: String },
    /// A signaling payload to relay verbatim; `chat_id` is empty when the
    /// frame names no conversation.
    Signal { chat_id: String, payload: String },
    /// Anything else: dropped.
    Ignored,
}

/// `frame` is what the grammar makes of `text`, whose top-level object has the
/// members `members` (`None`: not an object). A `signalType` key makes a
/// signal whatever else the object holds; else string members `chat_id` and
/// `content` make a chat send; anything else is ignored.
pub open spec fn frame_of(
    frame: InboundFrame,
    members: Option<Seq<(Seq<char>, Option<Seq<char>>)>>,
    text: Seq<char>,
) -> bool {
    match members {
        None => frame is Ignored,
        Some(ms) => if member_value(ms, "signalType"@) is Some {
            frame matches InboundFrame::Signal { chat_id, payload } && payload@ == text
                && chat_id@ == match string_member(ms, "chat_id"@) {
                Some(c) => c,
                None => Seq::<char>::empty(),
            }
        } else if string_member(ms, "chat_id"@) is Some && string_member(ms, "content"@) is Some {
            frame matches InboundFrame::Chat { chat_id, content } && chat_id@ == string_member(
                ms,
                "chat_id"@,
            )->Some_0 && content@ == string_member(ms, "content"@)->Some_0
        } else {
            frame is Ignored
        },
    }
}

/// Finds the first member with key `key` and returns its value.
fn find_member(members: &Vec<JsonMember>, key: &String) -> (r: Option<Option<String>>)
    ensures
        match r {
            None => member_value(members_view(members@), key@) is None,
            Some(None) => member_value(members_view(members@), key@) == Some(
                None::<Seq<char>>,
            ),
            Some(Some(s)) => member_value(members_view(members@), key@) == Some(Some(s@)),
        },
{
    let ghost ms = members_view(members@);
    let mut i: usize = 0;
    while i < members.len()
        invariant
            ms == members_view(members@),
            i <= members@.len(),
            forall|k: int| 0 <= k < i ==> ms[k].0 != key@,
        decreases members@.len() - i,
    {
        if members[i].key == *key {
            assert(first_with_key(ms, key@, i as int));
            assert forall|j: int| first_with_key(ms, key@, j) implies j == i by {
                if j < i {
                } else if j > i {
                    assert(ms[i as int].0 == key@);
                }
            }
            return match &members[i].text {
                Some(t) => Some(Some(t.clone())),
                None => Some(None),
            };
        }
        i = i + 1;
    }
    None
}

/// The string value of member `key`, or `None`.
fn find_string(members: &Vec<JsonMember>, key: &String) -> (r: Option<String>)
    ensures
        match r {
            None => string_member(members_view(members@), key@) is None,
            Some(s) => string_member(members_view(members@), key@) == Some(s@),
        },
{
    match find_member(members, key) {
        Some(Some(s)) => Some(s),
        _ => None,
    }
}

/// Reads a frame whose text `text` has the top-level members `members`.
pub fn classify_members(members: &Vec<JsonMember>, text: &String) -> (r: InboundFrame)
    ensures
        frame_of(r, Some(members_view(members@)), text@),
{
    let signal_key = "signalType".to_string();
    let chat_key = "chat_id".to_string();
    let content_key = "content".to_string();
    if find_member(members, &signal_key).is_some() {
        let chat_id = match find_string(members, &chat_key) {
            Some(c) => c,
            None => String::new(),
        };
        return InboundFrame::Signal { chat_id, payload: text.clone() };
    }
    match (find_string(members, &chat_key), find_string(members, &content_key)) {
        (Some(chat_id), Some(content)) => InboundFrame::Chat { chat_id, content },
        _ => InboundFrame::Ignored,
    }
}

/// Reads one inbound text frame.
pub fn classify_frame(text: &String) -> (r: InboundFrame)
    ensures
        frame_of(r, json_object_members(text@), text@),
{
    match parse_object(text.as_str()) {
        Some(members) => classify_members(&members, text),
        None => InboundFrame::Ignored,
    }
}

/// A chat push object whose three members hold the JSON literals given.
pub open spec fn push_object(chat_lit: Seq<char>, sender_lit: Seq<char>, content_lit: Seq<char>) -> Seq<
    char,
> {
    "{\"chat_id\":"@ + chat_lit + ",\"sender_id\":"@ + sender_lit + ",\"content\":"@ + content_lit
        + "}"@
}

/// The text of a chat push.
pub open spec fn chat_push_text(chat_id: Seq<char>, sender_id: Seq<char>, content: Seq<char>) -> Seq<
    char,
> {
    push_object(
        json_string_literal(chat_id),
        json_string_literal(sender_id),
        json_string_literal(content),
    )
}

/// Lays out a chat push from the JSON literals of its three members.
pub fn assemble_chat_push(chat_lit: &String, sender_lit: &String, content_lit: &String) -> (r: String)
    ensures
        r@ == push_object(chat_lit@, sender_lit@, content_lit@),
{
    let mut out = "{\"chat_id\":".to_string();
    out.append(chat_lit.as_str());
    out.append(",\"sender_id\":");
    out.append(sender_lit.as_str());
    out.append(",\"content\":");
    out.append(content_lit.as_str());
    out.append("}");
    out
}

/// Writes the chat push `{"chat_id":..,"sender_id":..,"content":..}`.
pub fn chat_push_frame(chat_id: &String, sender_id: &String, content: &String) -> (r: String)
    ensures
        r@ == chat_push_text(chat_id@, sender_id@, content@),
{
    let chat_lit = quote_json(chat_id.as_str());
    let sender_lit = quote_json(sender_id.as_str());
    let content_lit = quote_json(content.as_str());
    assemble_chat_push(&chat_lit, &sender_lit, &content_lit)
}

} // verus!

use vstd::prelude::*;
use crate::conversation::{Conversation, has_member};
use crate::dispatch::{Dispatch, StoreLookup, chat_dispatch, chat_targets};
use crate::frame::chat_push_text;
use crate::minting::{fresh_id, now_millis};
use crate::registry::SessionRegistry;

verus! {

/// The body of `POST /messages/{conv_id}`.
pub struct CreateMessagePayload {
    pub sender_id: String,
    pub content: String,
}

/// A message as it is stored and returned to the sender.
pub struct MessageResponse {
    pub id: String,
    pub id_chat: String,
    pub sender_id: String,
    pub content: String,
    pub created_at: i64,
    pub msg_type: String,
    pub attachments: Option<String>,
}

/// The type tag of a plain text message.
pub const TEXT_MESSAGE: &'static str = "text";

/// Why a message was not accepted.
#[derive(Debug, Clone, Copy, PartialEq, Eq, Structural)]
pub enum IngestError {
    /// No authenticated user, or a body that names another sender.
    Unauthenticated,
    /// The sender is not a participant of the conversation.
    NotParticipant,
    /// The conversation does not exist.
    ConversationAbsent,
    /// The chat store failed.
    StoreUnavailable,
}

/// The HTTP status that reports `e`.
pub open spec fn status_of(e: IngestError) -> u16 {
    match e {
        IngestError::Unauthenticated => 401,
        IngestError::NotParticipant => 400,
        IngestError::ConversationAbsent => 404,
        IngestError::StoreUnavailable => 500,
    }
}

impl IngestError {
    /// The HTTP status that reports this error.
    pub fn status_code(&self) -> (r: u16)
        ensures
            r == status_of(*self),
    {
        match self {
            IngestError::Unauthenticated => 401,
            IngestError::NotParticipant => 400,
            IngestError::ConversationAbsent => 404,
            IngestError::StoreUnavailable => 500,
        }
    }
}

/// The body's `sender_id` stands only when it is the authenticated user.
pub fn check_sender(authenticated: &Option<String>, claimed: &String) -> (r: Result<(), IngestError>)
    ensures
        r is Ok <==> (authenticated matches Some(a) && a@ == claimed@),
        r is Err ==> r == Err::<(), IngestError>(IngestError::Unauthenticated),
{
    match authenticated {
        Some(a) => {
            if *a == *claimed {
                Ok(())
            } else {
                Err(IngestError::Unauthenticated)
            }
        },
        None => Err(IngestError::Unauthenticated),
    }
}

/// Decides, from what the store answered for the conversation, whether
/// `sender_id` may post to it; on success hands the conversation back.
pub fn admit_message(lookup: StoreLookup<Conversation>, sender_id: &String) -> (r: Result<
    Conversation,
    IngestError,
>)
    ensures
        match lookup {
            StoreLookup::Found(c) => if has_member(c.participants@, sender_id@) {
                r == Ok::<Conversation, IngestError>(c)
            } else {
                r == Err::<Conversation, IngestError>(IngestError::NotParticipant)
            },
            StoreLookup::Absent => r == Err::<Conversation, IngestError>(
                IngestError::ConversationAbsent,
            ),
            StoreLookup::Failed => r == Err::<Conversation, IngestError>(
                IngestError::StoreUnavailable,
            ),
        },
{
    match lookup {
        StoreLookup::Found(c) => {
            if c.is_participant(sender_id) {
                Ok(c)
            } else {
                Err(IngestError::NotParticipant)
            }
        },
        StoreLookup::Absent => Err(IngestError::ConversationAbsent),
        StoreLookup::Failed => Err(IngestError::StoreUnavailable),
    }
}

/// The creation time of a message posted at `now` into a conversation last
/// active at `last`: later than every message before it, so that creation
/// times follow the order in which the store took the messages (at the very
/// end of the time range, equal to the last).
pub open spec fn message_time(now: i64, last: i64) -> i64 {
    if now > last {
        now
    } else if last < i64::MAX {
        (last + 1) as i64
    } else {
        last
    }
}

/// Messages appended one after the other to a conversation, each moving its
/// last activity to its own time, get increasing creation times: the second
/// is later than the first unless the first already stands at the end of the
/// time range.
pub proof fn law_creation_times_follow_append_order(last: i64, first_now: i64, second_now: i64)
    ensures
        message_time(first_now, last) >= last,
        message_time(first_now, last) < i64::MAX ==> message_time(
            second_now,
            message_time(first_now, last),
        ) > message_time(first_now, last),
{
}

/// The record of a text message with id `id` from `sender_id` into
/// `conversation`, posted at `now`.
pub fn message_record(
    id: String,
    conversation: &Conversation,
    sender_id: &String,
    content: &String,
    attachments: &Option<String>,
    now: i64,
) -> (m: MessageResponse)
    ensures
        m.id == id,
        m.id_chat@ == conversation.id_chat@,
        m.sender_id@ == sender_id@,
        m.content@ == content@,
        m.created_at == message_time(now, conversation.last_message_at),
        m.msg_type@ == TEXT_MESSAGE@,
        m.attachments == *attachments,
{
    let last = conversation.last_message_at;
    let created_at = if now > last {
        now
    } else if last < i64::MAX {
        last + 1
    } else {
        last
    };
    MessageResponse {
        id,
        id_chat: conversation.id_chat.clone(),
        sender_id: sender_id.clone(),
        content: content.clone(),
        created_at,
        msg_type: TEXT_MESSAGE.to_string(),
        attachments: match attachments {
            Some(a) => Some(a.clone()),
            None => None,
        },
    }
}

/// The record of a new text message, under a freshly minted id and the
/// current time.
pub fn prepare_message(
    conversation: &Conversation,
    sender_id: &String,
    content: &String,
    attachments: &Option<String>,
) -> (m: MessageResponse)
    ensures
        m.id@.len() == 36,
        m.id_chat@ == conversation.id_chat@,
        m.sender_id@ == sender_id@,
        m.content@ == content@,
        m.created_at >= conversation.last_message_at,
        m.created_at > conversation.last_message_at || conversation.last_message_at == i64::MAX,
        m.msg_type@ == TEXT_MESSAGE@,
        m.attachments == *attachments,
{
    let id = fresh_id();
    let now = now_millis();
    message_record(id, conversation, sender_id, content, attachments, now)
}

/// Concludes a send once the store has answered the append of `message`: a
/// committed message is fanned out to the other participants' live endpoints,
/// a failed append is reported and pushes nothing.
pub fn complete_send(
    committed: bool,
    registry: &SessionRegistry,
    conversation: &Conversation,
    message: &MessageResponse,
) -> (r: Result<Dispatch, IngestError>)
    requires
        registry.wf(),
    ensures
        r is Ok <==> committed,
        !committed <==> r == Err::<Dispatch, IngestError>(IngestError::StoreUnavailable),
        r matches Ok(d) ==> {
            &&& d.endpoints@.no_duplicates()
            &&& d.endpoints@.to_set() == chat_targets(
                registry@,
                conversation.participants@,
                message.sender_id@,
            )
            &&& d.frame@ == chat_push_text(
                conversation.id_chat@,
                message.sender_id@,
                message.content@,
            )
        },
{
    if !committed {
        return Err(IngestError::StoreUnavailable);
    }
    Ok(chat_dispatch(registry, conversation, &message.sender_id, &message.content))
}

} // verus!

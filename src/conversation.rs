use vstd::prelude::*;
use crate::dispatch::StoreLookup;
use crate::minting::{fresh_id, now_millis};

verus! {

/// A 1:1 or group conversation as the chat store holds it. Timestamps are
/// milliseconds since the Unix epoch.
pub struct Conversation {
    pub id_chat: String,
    pub participants: Vec<String>,
    pub is_group: bool,
    pub group_name: Option<String>,
    pub created_at: i64,
    pub last_message_at: i64,
}

/// A request to open a conversation.
pub struct CreateChatRequest {
    pub team_id: String,
    pub participants: Vec<String>,
    pub group_name: Option<String>,
    pub message: String,
}

/// Why a conversation could not be opened.
#[derive(Debug, PartialEq, Eq, Structural)]
pub enum ConversationError {
    NoParticipants,
    DuplicateParticipant,
}

/// The name given to a group conversation whose request names none.
pub const UNNAMED_GROUP: &'static str = "Unnamed Group";

/// `user` is one of `participants`.
pub open spec fn has_member(participants: Seq<String>, user: Seq<char>) -> bool {
    exists|i: int| 0 <= i < participants.len() && participants[i]@ == user
}

/// No user appears twice among `participants`.
pub open spec fn members_distinct(participants: Seq<String>) -> bool {
    forall|i: int, j: int|
        0 <= i < participants.len() && 0 <= j < participants.len() && i != j
            ==> participants[i]@ != participants[j]@
}

/// What `str::trim` leaves of `s`.
pub uninterp spec fn trimmed(s: Seq<char>) -> Seq<char>;

/// Relies on str::trim: leading and trailing white space removed; the result
/// depends on the characters alone.
#[verifier::external_body]
pub(crate) fn trim_str(s: &str) -> (r: &str)
    ensures
        r@ == trimmed(s@),
{
    s.trim()
}

/// The group name that a request asks for, if it names one that is not blank.
pub open spec fn named_group(given: Option<String>) -> bool {
    match given {
        Some(g) => trimmed(g@).len() > 0,
        None => false,
    }
}

impl Conversation {
    /// The invariants of a stored conversation: participants non-empty and
    /// distinct, the group flag set exactly when there are more than two, and
    /// last activity no earlier than creation.
    pub open spec fn wf(&self) -> bool {
        &&& self.participants@.len() > 0
        &&& members_distinct(self.participants@)
        &&& self.is_group == (self.participants@.len() > 2)
        &&& self.created_at <= self.last_message_at
    }

    /// Whether `user_id` is a participant.
    pub fn is_participant(&self, user_id: &String) -> (r: bool)
        ensures
            r == has_member(self.participants@, user_id@),
    {
        contains_member(&self.participants, user_id)
    }

    /// Moves last activity forward to `at`; an earlier `at` changes nothing.
    pub fn record_activity(&mut self, at: i64)
        ensures
            final(self).last_message_at == if at > old(self).last_message_at {
                at
            } else {
                old(self).last_message_at
            },
            final(self).id_chat == old(self).id_chat,
            final(self).participants == old(self).participants,
            final(self).is_group == old(self).is_group,
            final(self).group_name == old(self).group_name,
            final(self).created_at == old(self).created_at,
    {
        if at > self.last_message_at {
            self.last_message_at = at;
        }
    }
}

/// Whether `user_id` is among `participants`.
pub fn contains_member(participants: &Vec<String>, user_id: &String) -> (r: bool)
    ensures
        r == has_member(participants@, user_id@),
{
    let mut i: usize = 0;
    while i < participants.len()
        invariant
            i <= participants@.len(),
            forall|k: int| 0 <= k < i ==> participants@[k]@ != user_id@,
        decreases participants@.len() - i,
    {
        if participants[i] == *user_id {
            return true;
        }
        i = i + 1;
    }
    false
}

/// Whether some user appears twice among `participants`.
fn has_duplicate(participants: &Vec<String>) -> (r: bool)
    ensures
        r == !members_distinct(participants@),
{
    let n = participants.len();
    let mut i: usize = 0;
    while i < n
        invariant
            n == participants@.len(),
            i <= n,
            forall|a: int, b: int| 0 <= a < i && 0 <= b < n && a != b ==> participants@[a]@ != participants@[b]@,
        decreases n - i,
    {
        let mut j: usize = 0;
        while j < n
            invariant
                n == participants@.len(),
                i < n,
                j <= n,
                forall|b: int| 0 <= b < j && b != i ==> participants@[i as int]@ != participants@[b]@,
            decreases n - j,
        {
            if j != i && participants[i] == participants[j] {
                return true;
            }
            j = j + 1;
        }
        i = i + 1;
    }
    false
}

/// The group name a new conversation carries: none for a 1:1 conversation,
/// else the requested name when it is not blank, else `UNNAMED_GROUP`.
pub fn group_name_for(is_group: bool, given: &Option<String>) -> (r: Option<String>)
    ensures
        !is_group ==> r is None,
        is_group && named_group(*given) ==> r == *given,
        is_group && !named_group(*given) ==> r is Some && r->Some_0@ == UNNAMED_GROUP@,
{
    if !is_group {
        return None;
    }
    match given {
        Some(g) => {
            if !trim_str(g.as_str()).is_empty() {
                return Some(g.clone());
            }
        },
        None => {},
    }
    Some(UNNAMED_GROUP.to_string())
}

/// Builds the conversation that `request` asks for, with id `id` and both
/// timestamps at `now`. The participant list must be non-empty and free of
/// repeats.
pub fn new_conversation(id: String, request: &CreateChatRequest, now: i64) -> (r: Result<
    Conversation,
    ConversationError,
>)
    ensures
        request.participants@.len() == 0 <==> r == Err::<Conversation, ConversationError>(
            ConversationError::NoParticipants,
        ),
        (request.participants@.len() > 0 && !members_distinct(request.participants@)) <==> r
            == Err::<Conversation, ConversationError>(ConversationError::DuplicateParticipant),
        r matches Ok(c) ==> {
            &&& c.wf()
            &&& c.id_chat == id
            &&& c.participants@ == request.participants@
            &&& c.is_group == (request.participants@.len() > 2)
            &&& c.created_at == now
            &&& c.last_message_at == now
            &&& (!c.is_group ==> c.group_name is None)
            &&& (c.is_group && named_group(request.group_name) ==> c.group_name
                == request.group_name)
            &&& (c.is_group && !named_group(request.group_name) ==> c.group_name is Some
                && c.group_name->Some_0@ == UNNAMED_GROUP@)
        },
{
    if request.participants.len() == 0 {
        return Err(ConversationError::NoParticipants);
    }
    if has_duplicate(&request.participants) {
        return Err(ConversationError::DuplicateParticipant);
    }
    let is_group = request.participants.len() > 2;
    let group_name = group_name_for(is_group, &request.group_name);
    Ok(
        Conversation {
            id_chat: id,
            participants: request.participants.clone(),
            is_group,
            group_name,
            created_at: now,
            last_message_at: now,
        },
    )
}

/// Opens the conversation that `request` asks for, under a freshly minted id
/// and the current time.
pub fn open_conversation(request: &CreateChatRequest) -> (r: Result<Conversation, ConversationError>)
    ensures
        request.participants@.len() == 0 <==> r == Err::<Conversation, ConversationError>(
            ConversationError::NoParticipants,
        ),
        (request.participants@.len() > 0 && !members_distinct(request.participants@)) <==> r
            == Err::<Conversation, ConversationError>(ConversationError::DuplicateParticipant),
        r matches Ok(c) ==> {
            &&& c.wf()
            &&& c.id_chat@.len() == 36
            &&& c.participants@ == request.participants@
            &&& c.is_group == (request.participants@.len() > 2)
            &&& c.created_at == c.last_message_at
            &&& (!c.is_group ==> c.group_name is None)
            &&& (c.is_group && named_group(request.group_name) ==> c.group_name
                == request.group_name)
            &&& (c.is_group && !named_group(request.group_name) ==> c.group_name is Some
                && c.group_name->Some_0@ == UNNAMED_GROUP@)
        },
{
    let id = fresh_id();
    let now = now_millis();
    new_conversation(id, request, now)
}

/// Why a conversation may not be deleted.
#[derive(Debug, Clone, Copy, PartialEq, Eq, Structural)]
pub enum RemovalError {
    /// No authenticated user.
    Unauthenticated,
    /// The conversation does not exist.
    ConversationAbsent,
    /// The user is not a participant.
    NotParticipant,
    /// The chat store failed.
    StoreUnavailable,
}

/// The HTTP status that reports `e`.
pub open spec fn removal_status_of(e: RemovalError) -> u16 {
    match e {
        RemovalError::Unauthenticated => 401,
        RemovalError::ConversationAbsent => 404,
        RemovalError::NotParticipant => 401,
        RemovalError::StoreUnavailable => 500,
    }
}

impl RemovalError {
    /// The HTTP status that reports this error.
    pub fn status_code(&self) -> (r: u16)
        ensures
            r == removal_status_of(*self),
    {
        match self {
            RemovalError::Unauthenticated => 401,
            RemovalError::ConversationAbsent => 404,
            RemovalError::NotParticipant => 401,
            RemovalError::StoreUnavailable => 500,
        }
    }
}

/// Whether `user` may delete the conversation the store returned: a
/// participant may; the deletion then purges the conversation's messages too.
pub fn check_removal(user: &Option<String>, conversation: &StoreLookup<Conversation>) -> (r: Result<
    (),
    RemovalError,
>)
    ensures
        match user {
            None => r == Err::<(), RemovalError>(RemovalError::Unauthenticated),
            Some(u) => match conversation {
                StoreLookup::Found(c) => if has_member(c.participants@, u@) {
                    r is Ok
                } else {
                    r == Err::<(), RemovalError>(RemovalError::NotParticipant)
                },
                StoreLookup::Absent => r == Err::<(), RemovalError>(
                    RemovalError::ConversationAbsent,
                ),
                StoreLookup::Failed => r == Err::<(), RemovalError>(
                    RemovalError::StoreUnavailable,
                ),
            },
        },
{
    match user {
        None => Err(RemovalError::Unauthenticated),
        Some(u) => match conversation {
            StoreLookup::Found(c) => {
                if c.is_participant(u) {
                    Ok(())
                } else {
                    Err(RemovalError::NotParticipant)
                }
            },
            StoreLookup::Absent => Err(RemovalError::ConversationAbsent),
            StoreLookup::Failed => Err(RemovalError::StoreUnavailable),
        },
    }
}

} // verus!

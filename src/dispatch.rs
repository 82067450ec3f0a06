use vstd::prelude::*;
use crate::conversation::{Conversation, has_member};
use crate::frame::{chat_push_frame, chat_push_text};
use crate::registry::{EndpointId, SessionRegistry, endpoints_of};

verus! {

/// The result of asking the chat store for a conversation.
pub enum StoreLookup<T> {
    Found(T),
    Absent,
    Failed,
}

/// The endpoints that a chat push from `sender` to a conversation with
/// `participants` must reach: every live endpoint of every other participant.
pub open spec fn chat_targets(
    owners: Map<EndpointId, Seq<char>>,
    participants: Seq<String>,
    sender: Seq<char>,
) -> Set<EndpointId> {
    Set::new(
        |e: EndpointId|
            owners.contains_key(e) && owners[e] != sender && has_member(participants, owners[e]),
    )
}

/// The endpoints that a signal from `originator` reaches when it names no
/// conversation that exists: every live endpoint of every other user.
pub open spec fn broadcast_targets(owners: Map<EndpointId, Seq<char>>, originator: Seq<char>) -> Set<
    EndpointId,
> {
    Set::new(|e: EndpointId| owners.contains_key(e) && owners[e] != originator)
}

/// `e` belongs to one of the first `i` participants, other than `sender`.
spec fn reached_before(
    owners: Map<EndpointId, Seq<char>>,
    participants: Seq<String>,
    sender: Seq<char>,
    i: int,
    e: EndpointId,
) -> bool {
    exists|k: int|
        0 <= k < i && participants[k]@ != sender && owners.contains_key(e) && owners[e]
            == participants[k]@
}

/// Whether `e` is in `v`.
fn contains_endpoint(v: &Vec<EndpointId>, e: EndpointId) -> (r: bool)
    ensures
        r == v@.contains(e),
{
    let mut i: usize = 0;
    while i < v.len()
        invariant
            i <= v@.len(),
            forall|k: int| 0 <= k < i ==> v@[k] != e,
        decreases v@.len() - i,
    {
        if v[i] == e {
            return true;
        }
        i = i + 1;
    }
    false
}

/// The endpoints a chat push from `sender_id` reaches, each once: for every
/// participant other than the sender, the endpoints that the registry holds
/// for that participant.
pub fn chat_recipients(
    registry: &SessionRegistry,
    participants: &Vec<String>,
    sender_id: &String,
) -> (r: Vec<EndpointId>)
    requires
        registry.wf(),
    ensures
        r@.no_duplicates(),
        r@.to_set() == chat_targets(registry@, participants@, sender_id@),
{
    let ghost owners = registry@;
    let ghost ps = participants@;
    let mut out: Vec<EndpointId> = Vec::new();
    let mut i: usize = 0;
    while i < participants.len()
        invariant
            owners == registry@,
            ps == participants@,
            registry.wf(),
            i <= ps.len(),
            out@.no_duplicates(),
            forall|e: EndpointId|
                #[trigger] out@.contains(e) <==> reached_before(owners, ps, sender_id@, i as int, e),
        decreases ps.len() - i,
    {
        if participants[i] != *sender_id {
            let eps = registry.lookup_endpoints(&participants[i]);
            let ghost start = out@;
            let mut j: usize = 0;
            while j < eps.len()
                invariant
                    owners == registry@,
                    ps == participants@,
                    i < ps.len(),
                    ps[i as int]@ != sender_id@,
                    eps@.to_set() == endpoints_of(owners, ps[i as int]@),
                    j <= eps@.len(),
                    out@.no_duplicates(),
                    forall|e: EndpointId|
                        #[trigger] out@.contains(e) <==> (start.contains(e) || exists|m: int|
                            0 <= m < j && eps@[m] == e),
                    forall|e: EndpointId|
                        #[trigger] start.contains(e) <==> reached_before(owners, ps, sender_id@, i as int, e),
                decreases eps@.len() - j,
            {
                let e = eps[j];
                let ghost before = out@;
                if !contains_endpoint(&out, e) {
                    out.push(e);
                    assert forall|x: EndpointId| #[trigger] out@.contains(x) <==> (before.contains(x) || x == e) by {
                        if out@.contains(x) {
                            let k = choose|k: int| 0 <= k < out@.len() && out@[k] == x;
                            if k < before.len() {
                                assert(before[k] == x);
                            }
                        }
                        if before.contains(x) {
                            let k = choose|k: int| 0 <= k < before.len() && before[k] == x;
                            assert(out@[k] == x);
                        }
                        if x == e {
                            assert(out@[before.len() as int] == e);
                        }
                    }
                }
                assert forall|x: EndpointId| #[trigger] out@.contains(x) <==> (start.contains(x) || exists|m: int|
                            0 <= m < j + 1 && eps@[m] == x) by {
                    if x == e {
                        assert(eps@[j as int] == x);
                    }
                    if exists|m: int| 0 <= m < j + 1 && eps@[m] == x {
                        let m = choose|m: int| 0 <= m < j + 1 && eps@[m] == x;
                        if m < j {
                        } else {
                            assert(x == e);
                        }
                    }
                }
                j = j + 1;
            }
            assert forall|e: EndpointId|
                #[trigger] out@.contains(e) <==> reached_before(owners, ps, sender_id@, i + 1, e) by {
                if exists|m: int| 0 <= m < j && eps@[m] == e {
                    let m = choose|m: int| 0 <= m < j && eps@[m] == e;
                    assert(eps@.to_set().contains(e));
                    assert(endpoints_of(owners, ps[i as int]@).contains(e));
                }
                if reached_before(owners, ps, sender_id@, i + 1, e) && !reached_before(owners, ps, sender_id@, i as int, e) {
                    assert(endpoints_of(owners, ps[i as int]@).contains(e));
                    assert(eps@.to_set().contains(e));
                    let m = choose|m: int| 0 <= m < eps@.len() && eps@[m] == e;
                }
                if reached_before(owners, ps, sender_id@, i as int, e) {
                    let k = choose|k: int|
                        0 <= k < i && ps[k]@ != sender_id@ && owners.contains_key(e) && owners[e]
                            == ps[k]@;
                }
            }
        } else {
            assert forall|e: EndpointId|
                #[trigger] out@.contains(e) <==> reached_before(owners, ps, sender_id@, i + 1, e) by {
                if reached_before(owners, ps, sender_id@, i + 1, e) {
                    let k = choose|k: int|
                        0 <= k < i + 1 && ps[k]@ != sender_id@ && owners.contains_key(e) && owners[e]
                            == ps[k]@;
                    assert(k != i);
                }
                if reached_before(owners, ps, sender_id@, i as int, e) {
                    let k = choose|k: int|
                        0 <= k < i && ps[k]@ != sender_id@ && owners.contains_key(e) && owners[e]
                            == ps[k]@;
                }
            }
        }
        i = i + 1;
    }
    proof {
        assert forall|e: EndpointId|
            #[trigger] out@.to_set().contains(e) == chat_targets(owners, ps, sender_id@).contains(e) by {
            if chat_targets(owners, ps, sender_id@).contains(e) {
                let k = choose|k: int| 0 <= k < ps.len() && ps[k]@ == owners[e];
                assert(reached_before(owners, ps, sender_id@, i as int, e));
            }
            if out@.contains(e) {
                assert(reached_before(owners, ps, sender_id@, i as int, e));
                let k = choose|k: int|
                    0 <= k < i && ps[k]@ != sender_id@ && owners.contains_key(e) && owners[e]
                        == ps[k]@;
                assert(has_member(ps, owners[e]));
            }
        }
        assert(out@.to_set() =~= chat_targets(owners, ps, sender_id@));
    }
    out
}


/// One frame and the endpoints it is to be pushed to, each once.
pub struct Dispatch {
    pub endpoints: Vec<EndpointId>,
    pub frame: String,
}

/// The fan-out of a chat message from `sender_id` into `conversation`: the chat
/// push, to every live endpoint of every participant but the sender.
pub fn chat_dispatch(
    registry: &SessionRegistry,
    conversation: &Conversation,
    sender_id: &String,
    content: &String,
) -> (d: Dispatch)
    requires
        registry.wf(),
    ensures
        d.endpoints@.no_duplicates(),
        d.endpoints@.to_set() == chat_targets(registry@, conversation.participants@, sender_id@),
        d.frame@ == chat_push_text(conversation.id_chat@, sender_id@, content@),
{
    let endpoints = chat_recipients(registry, &conversation.participants, sender_id);
    let frame = chat_push_frame(&conversation.id_chat, sender_id, content);
    Dispatch { endpoints, frame }
}

/// The fan-out of a signal from `originator` naming `chat_id`, given what the
/// store answered for that conversation. An empty `chat_id`, or one that names
/// no conversation, reaches every live endpoint of every other user; a
/// conversation that exists restricts it to its other participants, and drops
/// it when the originator is not one of them; a store failure drops it too.
/// The payload is relayed as it came.
pub fn signal_dispatch(
    registry: &SessionRegistry,
    originator: &String,
    chat_id: &String,
    conversation: &StoreLookup<Conversation>,
    payload: &String,
) -> (r: Option<Dispatch>)
    requires
        registry.wf(),
    ensures
        r is None <==> chat_id@.len() > 0 && match conversation {
            StoreLookup::Found(c) => !has_member(c.participants@, originator@),
            StoreLookup::Absent => false,
            StoreLookup::Failed => true,
        },
        r matches Some(d) ==> {
            &&& d.frame@ == payload@
            &&& d.endpoints@.no_duplicates()
            &&& d.endpoints@.to_set() == match conversation {
                StoreLookup::Found(c) => if chat_id@.len() > 0 {
                    chat_targets(registry@, c.participants@, originator@)
                } else {
                    broadcast_targets(registry@, originator@)
                },
                _ => broadcast_targets(registry@, originator@),
            }
        },
{
    let broadcast = chat_id.as_str().is_empty() || matches!(conversation, StoreLookup::Absent);
    if !broadcast {
        match conversation {
            StoreLookup::Found(c) => {
                if !c.is_participant(originator) {
                    return None;
                }
                let endpoints = chat_recipients(registry, &c.participants, originator);
                return Some(Dispatch { endpoints, frame: payload.clone() });
            },
            _ => {
                return None;
            },
        }
    }
    let endpoints = registry.endpoints_except(originator);
    assert(endpoints@.to_set() =~= broadcast_targets(registry@, originator@));
    Some(Dispatch { endpoints, frame: payload.clone() })
}

/// A chat push reaches every live endpoint of every participant other than the
/// sender exactly once: given endpoints as `chat_dispatch` lists them, each
/// such endpoint stands in the list at exactly one position.
pub proof fn law_each_recipient_endpoint_pushed_once(
    owners: Map<EndpointId, Seq<char>>,
    participants: Seq<String>,
    sender: Seq<char>,
    pushed: Seq<EndpointId>,
    recipient: Seq<char>,
    endpoint: EndpointId,
)
    requires
        pushed.no_duplicates(),
        pushed.to_set() == chat_targets(owners, participants, sender),
        has_member(participants, recipient),
        recipient != sender,
        owners.contains_key(endpoint),
        owners[endpoint] == recipient,
    ensures
        exists|i: int|
            0 <= i < pushed.len() && pushed[i] == endpoint && forall|j: int|
                0 <= j < pushed.len() && #[trigger] pushed[j] == endpoint ==> j == i,
{
    assert(chat_targets(owners, participants, sender).contains(endpoint));
    assert(pushed.to_set().contains(endpoint));
    let i = choose|i: int| 0 <= i < pushed.len() && pushed[i] == endpoint;
    assert forall|j: int| 0 <= j < pushed.len() && #[trigger] pushed[j] == endpoint implies j == i by {
    }
}

/// A user with no live socket is pushed nothing: no endpoint that a chat push
/// or a broadcast signal reaches belongs to that user.
pub proof fn law_offline_user_gets_no_push(
    owners: Map<EndpointId, Seq<char>>,
    participants: Seq<String>,
    sender: Seq<char>,
    user: Seq<char>,
)
    requires
        endpoints_of(owners, user) == Set::<EndpointId>::empty(),
    ensures
        forall|e: EndpointId| #[trigger]
            chat_targets(owners, participants, sender).contains(e) ==> owners[e] != user,
        forall|e: EndpointId| #[trigger]
            broadcast_targets(owners, sender).contains(e) ==> owners[e] != user,
{
    assert forall|e: EndpointId| #[trigger]
        chat_targets(owners, participants, sender).contains(e) implies owners[e] != user by {
        assert(!endpoints_of(owners, user).contains(e));
    }
    assert forall|e: EndpointId| #[trigger]
        broadcast_targets(owners, sender).contains(e) implies owners[e] != user by {
        assert(!endpoints_of(owners, user).contains(e));
    }
}

/// No push reaches an endpoint of the user who produced it, be it a chat push
/// or a signal, routed to a conversation or broadcast.
pub proof fn law_originator_excluded(
    owners: Map<EndpointId, Seq<char>>,
    participants: Seq<String>,
    originator: Seq<char>,
)
    ensures
        forall|e: EndpointId| #[trigger]
            chat_targets(owners, participants, originator).contains(e) ==> owners[e]
                != originator,
        forall|e: EndpointId| #[trigger]
            broadcast_targets(owners, originator).contains(e) ==> owners[e] != originator,
{
}

} // verus!

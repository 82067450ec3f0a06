use vstd::prelude::*;
use crate::frame::{InboundFrame, classify_frame, frame_of, json_object_members};
use crate::registry::{EndpointId, SessionRegistry, deregistered, registered};

verus! {

/// Where a socket session stands in its life.
#[derive(Debug, Clone, Copy, PartialEq, Eq, Structural)]
pub enum SessionState {
    /// Upgrade accepted, endpoint not yet registered.
    Opening,
    /// Registered; inbound frames are read one at a time.
    Live,
    /// Closed by the peer or the transport; still registered.
    Closing,
    /// Deregistered (or never registered): nothing more happens.
    Closed,
}

/// One socket of one user.
pub struct SocketSession {
    user_id: String,
    endpoint: EndpointId,
    state: SessionState,
}

impl SocketSession {
    /// The user who holds the socket.
    pub closed spec fn user(&self) -> Seq<char> {
        self.user_id@
    }

    /// The socket's endpoint.
    pub closed spec fn held_endpoint(&self) -> EndpointId {
        self.endpoint
    }

    /// The session's state.
    pub closed spec fn phase(&self) -> SessionState {
        self.state
    }

    /// The endpoint is registered for the user exactly while the session is
    /// live or closing.
    pub open spec fn holds_registration(&self) -> bool {
        self.phase() == SessionState::Live || self.phase() == SessionState::Closing
    }

    /// A session for `user_id` on `endpoint`, just upgraded.
    pub fn open(user_id: String, endpoint: EndpointId) -> (s: SocketSession)
        ensures
            s.user() == user_id@,
            s.held_endpoint() == endpoint,
            s.phase() == SessionState::Opening,
    {
        SocketSession { user_id, endpoint, state: SessionState::Opening }
    }

    /// The session's current state.
    pub fn state(&self) -> (r: SessionState)
        ensures
            r == self.phase(),
    {
        self.state
    }

    /// The user who holds the socket.
    pub fn user_id(&self) -> (r: &String)
        ensures
            r@ == self.user(),
    {
        &self.user_id
    }

    /// The socket's endpoint.
    pub fn endpoint(&self) -> (r: EndpointId)
        ensures
            r == self.held_endpoint(),
    {
        self.endpoint
    }

    /// Registers the endpoint and goes live. An endpoint that another user
    /// holds is refused, and the session closes without having registered.
    pub fn start(&mut self, registry: &mut SessionRegistry)
        requires
            old(self).phase() == SessionState::Opening,
            old(registry).wf(),
        ensures
            final(registry).wf(),
            final(registry)@ == registered(old(registry)@, old(self).user(), old(self).held_endpoint()),
            final(self).user() == old(self).user(),
            final(self).held_endpoint() == old(self).held_endpoint(),
            final(self).phase() == if old(registry)@.contains_key(old(self).held_endpoint())
                && old(registry)@[old(self).held_endpoint()] != old(self).user() {
                SessionState::Closed
            } else {
                SessionState::Live
            },
    {
        if registry.register(&self.user_id, self.endpoint) {
            self.state = SessionState::Live;
        } else {
            self.state = SessionState::Closed;
        }
    }

    /// Reads one inbound text frame; the session stays live.
    pub fn receive(&self, text: &String) -> (r: InboundFrame)
        requires
            self.phase() == SessionState::Live,
        ensures
            frame_of(r, json_object_members(text@), text@),
    {
        classify_frame(text)
    }

    /// A close frame or a transport fault: a live session starts closing, one
    /// still opening closes at once, and a closing or closed one stays as it is.
    pub fn close(&mut self)
        ensures
            final(self).user() == old(self).user(),
            final(self).held_endpoint() == old(self).held_endpoint(),
            final(self).phase() == match old(self).phase() {
                SessionState::Opening => SessionState::Closed,
                SessionState::Live => SessionState::Closing,
                other => other,
            },
    {
        match self.state {
            SessionState::Opening => {
                self.state = SessionState::Closed;
            },
            SessionState::Live => {
                self.state = SessionState::Closing;
            },
            _ => {},
        }
    }

    /// Ends the session. A session that holds its registration gives up its
    /// own endpoint, once; every other endpoint stays. A session that holds no
    /// registration leaves the registry alone.
    pub fn finish(&mut self, registry: &mut SessionRegistry)
        requires
            old(registry).wf(),
        ensures
            final(registry).wf(),
            final(registry)@ == if old(self).holds_registration() {
                deregistered(old(registry)@, old(self).user(), old(self).held_endpoint())
            } else {
                old(registry)@
            },
            final(self).user() == old(self).user(),
            final(self).held_endpoint() == old(self).held_endpoint(),
            final(self).phase() == SessionState::Closed,
    {
        match self.state {
            SessionState::Live | SessionState::Closing => {
                registry.deregister(&self.user_id, self.endpoint);
            },
            _ => {},
        }
        self.state = SessionState::Closed;
    }
}

/// A session that registers a fresh endpoint and later ends leaves the registry
/// as it found it; ending removes that endpoint alone, and only once: a second
/// deregistration changes nothing, and every other endpoint keeps its owner.
pub proof fn law_session_end_undoes_its_registration(
    owners: Map<EndpointId, Seq<char>>,
    user: Seq<char>,
    endpoint: EndpointId,
)
    ensures
        !owners.contains_key(endpoint) ==> deregistered(
            registered(owners, user, endpoint),
            user,
            endpoint,
        ) == owners,
        deregistered(deregistered(owners, user, endpoint), user, endpoint) == deregistered(
            owners,
            user,
            endpoint,
        ),
        forall|e: EndpointId|
            e != endpoint ==> (#[trigger] deregistered(owners, user, endpoint).contains_key(e)
                == owners.contains_key(e) && (owners.contains_key(e) ==> deregistered(
                owners,
                user,
                endpoint,
            )[e] == owners[e])),
{
    if !owners.contains_key(endpoint) {
        assert(deregistered(registered(owners, user, endpoint), user, endpoint) =~= owners);
    }
}

} // verus!

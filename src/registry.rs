use vstd::prelude::*;

verus! {

/// Opaque handle through which the server pushes frames to one open socket.
pub type EndpointId = u64;

/// One open endpoint together with the user who holds it.
pub struct Registration {
    pub endpoint: EndpointId,
    pub user_id: String,
}

/// The owner of each registered endpoint, read off a list of registrations.
pub open spec fn registrations_map(regs: Seq<Registration>) -> Map<EndpointId, Seq<char>> {
    Map::new(
        |e: EndpointId| exists|i: int| 0 <= i < regs.len() && regs[i].endpoint == e,
        |e: EndpointId|
            regs[choose|i: int| 0 <= i < regs.len() && regs[i].endpoint == e].user_id@,
    )
}

/// No endpoint appears twice in a list of registrations.
pub open spec fn endpoints_distinct(regs: Seq<Registration>) -> bool {
    forall|i: int, j: int|
        0 <= i < regs.len() && 0 <= j < regs.len() && i != j ==> regs[i].endpoint
            != regs[j].endpoint
}

/// The endpoints that `user` holds in a registry whose owner map is `owners`.
pub open spec fn endpoints_of(owners: Map<EndpointId, Seq<char>>, user: Seq<char>) -> Set<
    EndpointId,
> {
    Set::new(|e: EndpointId| owners.contains_key(e) && owners[e] == user)
}

/// The owner map after `user` registers `endpoint`: an endpoint held by another
/// user stays with that user.
pub open spec fn registered(
    owners: Map<EndpointId, Seq<char>>,
    user: Seq<char>,
    endpoint: EndpointId,
) -> Map<EndpointId, Seq<char>> {
    if owners.contains_key(endpoint) && owners[endpoint] != user {
        owners
    } else {
        owners.insert(endpoint, user)
    }
}

/// The owner map after `user` gives up `endpoint`: only an endpoint that `user`
/// holds is removed.
pub open spec fn deregistered(
    owners: Map<EndpointId, Seq<char>>,
    user: Seq<char>,
    endpoint: EndpointId,
) -> Map<EndpointId, Seq<char>> {
    if owners.contains_key(endpoint) && owners[endpoint] == user {
        owners.remove(endpoint)
    } else {
        owners
    }
}

/// Some registration before position `i` holds `e`, with an owner that is
/// `user` exactly when `owned`.
spec fn selected_before(
    regs: Seq<Registration>,
    i: int,
    e: EndpointId,
    user: Seq<char>,
    owned: bool,
) -> bool {
    exists|j: int| 0 <= j < i && regs[j].endpoint == e && (regs[j].user_id@ == user) == owned
}

proof fn lemma_owner_at(regs: Seq<Registration>, i: int)
    requires
        endpoints_distinct(regs),
        0 <= i < regs.len(),
    ensures
        registrations_map(regs).contains_key(regs[i].endpoint),
        registrations_map(regs)[regs[i].endpoint] == regs[i].user_id@,
{
    let e = regs[i].endpoint;
    assert(registrations_map(regs).dom().contains(e));
    let j = choose|j: int| 0 <= j < regs.len() && regs[j].endpoint == e;
    assert(j == i);
}

/// Registering an endpoint a second time changes nothing: no endpoint is
/// held twice, so no push goes out twice.
pub proof fn law_register_idempotent(
    owners: Map<EndpointId, Seq<char>>,
    user: Seq<char>,
    endpoint: EndpointId,
)
    ensures
        registered(registered(owners, user, endpoint), user, endpoint) == registered(
            owners,
            user,
            endpoint,
        ),
{
    assert(registered(registered(owners, user, endpoint), user, endpoint) =~= registered(
        owners,
        user,
        endpoint,
    ));
}

/// Deregistering an endpoint that is not registered changes nothing.
pub proof fn law_deregister_absent_is_noop(
    owners: Map<EndpointId, Seq<char>>,
    user: Seq<char>,
    endpoint: EndpointId,
)
    requires
        !owners.contains_key(endpoint),
    ensures
        deregistered(owners, user, endpoint) == owners,
{
}

/// The session registry: for each user, the endpoints through which that user
/// can be pushed to right now. Each endpoint has exactly one owner.
pub struct SessionRegistry {
    registrations: Vec<Registration>,
}

impl View for SessionRegistry {
    type V = Map<EndpointId, Seq<char>>;

    closed spec fn view(&self) -> Map<EndpointId, Seq<char>> {
        registrations_map(self.registrations@)
    }
}

impl SessionRegistry {
    /// The registry's internal invariant.
    pub closed spec fn wf(&self) -> bool {
        endpoints_distinct(self.registrations@)
    }

    /// An empty registry.
    pub fn new() -> (r: SessionRegistry)
        ensures
            r.wf(),
            r@ == Map::<EndpointId, Seq<char>>::empty(),
    {
        let r = SessionRegistry { registrations: Vec::new() };
        assert(r@ =~= Map::<EndpointId, Seq<char>>::empty());
        r
    }

    /// Finds the position of `endpoint` among the registrations.
    fn position_of(&self, endpoint: EndpointId) -> (r: Option<usize>)
        requires
            self.wf(),
        ensures
            match r {
                Some(i) => i < self.registrations@.len() && self.registrations@[i as int].endpoint
                    == endpoint,
                None => !self@.contains_key(endpoint),
            },
    {
        let mut i: usize = 0;
        while i < self.registrations.len()
            invariant
                i <= self.registrations@.len(),
                forall|k: int| 0 <= k < i ==> self.registrations@[k].endpoint != endpoint,
            decreases self.registrations@.len() - i,
        {
            if self.registrations[i].endpoint == endpoint {
                return Some(i);
            }
            i = i + 1;
        }
        None
    }

    /// Registers `endpoint` for `user_id`. Registering an endpoint that the user
    /// already holds changes nothing. An endpoint held by another user is
    /// refused: the registry is left as it was and `false` is returned.
    pub fn register(&mut self, user_id: &String, endpoint: EndpointId) -> (accepted: bool)
        requires
            old(self).wf(),
        ensures
            final(self).wf(),
            accepted == !(old(self)@.contains_key(endpoint) && old(self)@[endpoint] != user_id@),
            final(self)@ == registered(old(self)@, user_id@, endpoint),
    {
        match self.position_of(endpoint) {
            Some(i) => {
                proof {
                    lemma_owner_at(self.registrations@, i as int);
                }
                let same = self.registrations[i].user_id == *user_id;
                if same {
                    assert(self@ =~= registered(old(self)@, user_id@, endpoint));
                }
                same
            },
            None => {
                let ghost before = self.registrations@;
                self.registrations.push(Registration { endpoint, user_id: user_id.clone() });
                let ghost after = self.registrations@;
                assert(endpoints_distinct(after)) by {
                    assert forall|i: int, j: int|
                        0 <= i < after.len() && 0 <= j < after.len() && i != j implies after[i].endpoint
                        != after[j].endpoint by {
                        if i == before.len() as int {
                            assert(!registrations_map(before).dom().contains(endpoint));
                        } else if j == before.len() as int {
                            assert(!registrations_map(before).dom().contains(endpoint));
                        }
                    }
                }
                proof {
                    lemma_owner_at(after, before.len() as int);
                    assert forall|e: EndpointId| #[trigger]
                        registrations_map(after).contains_key(e) == registrations_map(before).insert(endpoint, user_id@).contains_key(e)
                        by {
                        if e != endpoint {
                            if registrations_map(before).contains_key(e) {
                                let k = choose|k: int| 0 <= k < before.len() && before[k].endpoint == e;
                                assert(after[k].endpoint == e);
                            }
                            if registrations_map(after).contains_key(e) {
                                let k = choose|k: int| 0 <= k < after.len() && after[k].endpoint == e;
                                assert(before[k].endpoint == e);
                            }
                        }
                    }
                    assert forall|e: EndpointId| #[trigger] registrations_map(after).contains_key(e) && e != endpoint
                        implies registrations_map(after)[e] == registrations_map(before)[e] by {
                        let k = choose|k: int| 0 <= k < after.len() && after[k].endpoint == e;
                        lemma_owner_at(after, k);
                        lemma_owner_at(before, k);
                    }
                    assert(registrations_map(after) =~= registrations_map(before).insert(endpoint, user_id@));
                }
                true
            },
        }
    }

    /// Removes `endpoint` if `user_id` holds it. An endpoint that is absent, or
    /// held by another user, is left alone.
    pub fn deregister(&mut self, user_id: &String, endpoint: EndpointId)
        requires
            old(self).wf(),
        ensures
            final(self).wf(),
            final(self)@ == deregistered(old(self)@, user_id@, endpoint),
    {
        match self.position_of(endpoint) {
            Some(i) => {
                proof {
                    lemma_owner_at(self.registrations@, i as int);
                }
                if self.registrations[i].user_id == *user_id {
                    let ghost before = self.registrations@;
                    self.registrations.remove(i);
                    let ghost after = self.registrations@;
                    assert(after =~= before.remove(i as int));
                    assert(endpoints_distinct(after)) by {
                        assert forall|a: int, b: int|
                            0 <= a < after.len() && 0 <= b < after.len() && a != b implies after[a].endpoint
                            != after[b].endpoint by {
                            let a0 = if a < i { a } else { a + 1 };
                            let b0 = if b < i { b } else { b + 1 };
                            assert(after[a] == before[a0]);
                            assert(after[b] == before[b0]);
                        }
                    }
                    proof {
                        assert forall|e: EndpointId| #[trigger]
                            registrations_map(after).contains_key(e) == registrations_map(before).remove(endpoint).contains_key(e)
                            by {
                            if registrations_map(after).contains_key(e) {
                                let k = choose|k: int| 0 <= k < after.len() && after[k].endpoint == e;
                                let k0 = if k < i { k } else { k + 1 };
                                assert(before[k0] == after[k]);
                                assert(k0 != i);
                            }
                            if e != endpoint && registrations_map(before).contains_key(e) {
                                let k = choose|k: int| 0 <= k < before.len() && before[k].endpoint == e;
                                assert(k != i);
                                let k1 = if k < i { k } else { k - 1 };
                                assert(after[k1] == before[k]);
                            }
                        }
                        assert forall|e: EndpointId| #[trigger] registrations_map(after).contains_key(e)
                            implies registrations_map(after)[e] == registrations_map(before)[e] by {
                            let k = choose|k: int| 0 <= k < after.len() && after[k].endpoint == e;
                            let k0 = if k < i { k } else { k + 1 };
                            assert(before[k0] == after[k]);
                            lemma_owner_at(after, k);
                            lemma_owner_at(before, k0);
                        }
                        assert(registrations_map(after) =~= registrations_map(before).remove(endpoint));
                    }
                }
            },
            None => {},
        }
    }

    /// The endpoints whose owner is `user_id` (when `owned`) or is not (otherwise), each once.
    fn select_endpoints(&self, user_id: &String, owned: bool) -> (r: Vec<EndpointId>)
        requires
            self.wf(),
        ensures
            r@.no_duplicates(),
            forall|e: EndpointId| #[trigger]
                r@.contains(e) <==> (self@.contains_key(e) && (self@[e] == user_id@) == owned),
    {
        let mut out: Vec<EndpointId> = Vec::new();
        let mut i: usize = 0;
        let ghost regs = self.registrations@;
        while i < self.registrations.len()
            invariant
                regs == self.registrations@,
                self.wf(),
                i <= regs.len(),
                out@.no_duplicates(),
                forall|k: int|
                    0 <= k < out@.len() ==> selected_before(
                        regs,
                        i as int,
                        #[trigger] out@[k],
                        user_id@,
                        owned,
                    ),
                forall|j: int|
                    0 <= j < i && (regs[j].user_id@ == user_id@) == owned ==> out@.contains(
                        #[trigger] regs[j].endpoint,
                    ),
            decreases regs.len() - i,
        {
            let same = self.registrations[i].user_id == *user_id;
            if same == owned {
                let e = self.registrations[i].endpoint;
                assert(!out@.contains(e)) by {
                    if out@.contains(e) {
                        let k = choose|k: int| 0 <= k < out@.len() && out@[k] == e;
                        let j = choose|j: int|
                            0 <= j < i && regs[j].endpoint == out@[k] && (regs[j].user_id@
                                == user_id@) == owned;
                        assert(regs[j].endpoint == regs[i as int].endpoint);
                    }
                }
                let ghost before = out@;
                out.push(e);
                proof {
                    assert forall|j: int|
                        0 <= j < i + 1 && (regs[j].user_id@ == user_id@) == owned implies out@.contains(
                        #[trigger] regs[j].endpoint,
                    ) by {
                        if j < i {
                            let k = choose|k: int| 0 <= k < before.len() && before[k] == regs[j].endpoint;
                            assert(out@[k] == before[k]);
                        } else {
                            assert(out@[before.len() as int] == e);
                        }
                    }
                    assert forall|k: int| 0 <= k < out@.len() implies selected_before(
                        regs,
                        i + 1,
                        #[trigger] out@[k],
                        user_id@,
                        owned,
                    ) by {
                        if k < before.len() {
                            assert(out@[k] == before[k]);
                            let j = choose|j: int|
                                0 <= j < i && regs[j].endpoint == before[k] && (regs[j].user_id@
                                    == user_id@) == owned;
                            assert(regs[j].endpoint == out@[k]);
                        } else {
                            assert(regs[i as int].endpoint == out@[k]);
                        }
                    }
                }
            } else {
                assert forall|k: int| 0 <= k < out@.len() implies selected_before(
                    regs,
                    i + 1,
                    #[trigger] out@[k],
                    user_id@,
                    owned,
                ) by {
                    let j = choose|j: int|
                        0 <= j < i && regs[j].endpoint == out@[k] && (regs[j].user_id@
                            == user_id@) == owned;
                }
            }
            i = i + 1;
        }
        proof {
            assert forall|e: EndpointId|
                self@.contains_key(e) && (self@[e] == user_id@) == owned implies #[trigger] out@.contains(e) by {
                let j = choose|j: int| 0 <= j < regs.len() && regs[j].endpoint == e;
                lemma_owner_at(regs, j);
            }
            assert forall|e: EndpointId| #[trigger] out@.contains(e) implies (self@.contains_key(e)
                && (self@[e] == user_id@) == owned) by {
                let k = choose|k: int| 0 <= k < out@.len() && out@[k] == e;
                let j = choose|j: int|
                    0 <= j < i && regs[j].endpoint == out@[k] && (regs[j].user_id@ == user_id@)
                        == owned;
                lemma_owner_at(regs, j);
            }
        }
        out
    }

    /// The endpoints that `user_id` holds, each once: a snapshot.
    pub fn lookup_endpoints(&self, user_id: &String) -> (r: Vec<EndpointId>)
        requires
            self.wf(),
        ensures
            r@.no_duplicates(),
            r@.to_set() == endpoints_of(self@, user_id@),
    {
        let r = self.select_endpoints(user_id, true);
        assert(r@.to_set() =~= endpoints_of(self@, user_id@));
        r
    }

    /// Every registered endpoint whose owner is not `user_id`, each once.
    pub fn endpoints_except(&self, user_id: &String) -> (r: Vec<EndpointId>)
        requires
            self.wf(),
        ensures
            r@.no_duplicates(),
            forall|e: EndpointId| #[trigger]
                r@.contains(e) <==> (self@.contains_key(e) && self@[e] != user_id@),
    {
        self.select_endpoints(user_id, false)
    }
}

} // verus!

use vstd::prelude::*;
use crate::dispatch::Dispatch;
use crate::registry::EndpointId;

verus! {

/// One frame bound for one endpoint.
pub struct Push {
    pub endpoint: EndpointId,
    pub frame: String,
}

/// The pushes that a dispatch of `frame` to `endpoints` produces, in order.
pub open spec fn pushes_of(endpoints: Seq<EndpointId>, frame: Seq<char>) -> Seq<
    (EndpointId, Seq<char>),
> {
    endpoints.map_values(|e: EndpointId| (e, frame))
}

/// The hub's egress queue: pushes leave in the order in which their
/// dispatches were enqueued.
pub struct Outbox {
    queue: Vec<Push>,
}

impl View for Outbox {
    type V = Seq<(EndpointId, Seq<char>)>;

    closed spec fn view(&self) -> Seq<(EndpointId, Seq<char>)> {
        self.queue@.map_values(|p: Push| (p.endpoint, p.frame@))
    }
}

impl Outbox {
    /// An empty queue.
    pub fn new() -> (r: Outbox)
        ensures
            r@ == Seq::<(EndpointId, Seq<char>)>::empty(),
    {
        let r = Outbox { queue: Vec::new() };
        assert(r@ =~= Seq::<(EndpointId, Seq<char>)>::empty());
        r
    }

    /// Appends the pushes of `d` behind everything already queued.
    pub fn enqueue(&mut self, d: &Dispatch)
        ensures
            final(self)@ == old(self)@ + pushes_of(d.endpoints@, d.frame@),
    {
        let mut i: usize = 0;
        while i < d.endpoints.len()
            invariant
                i <= d.endpoints@.len(),
                self@ == old(self)@ + pushes_of(d.endpoints@.subrange(0, i as int), d.frame@),
            decreases d.endpoints@.len() - i,
        {
            let ghost before = self@;
            self.queue.push(Push { endpoint: d.endpoints[i], frame: d.frame.clone() });
            assert(d.endpoints@.subrange(0, i + 1) =~= d.endpoints@.subrange(0, i as int).push(
                d.endpoints@[i as int],
            ));
            assert(self@ =~= before.push((d.endpoints@[i as int], d.frame@)));
            assert(pushes_of(d.endpoints@.subrange(0, i + 1), d.frame@) =~= pushes_of(
                d.endpoints@.subrange(0, i as int),
                d.frame@,
            ).push((d.endpoints@[i as int], d.frame@)));
            i = i + 1;
        }
        assert(d.endpoints@.subrange(0, i as int) =~= d.endpoints@);
    }

    /// Hands out everything queued, oldest first, and empties the queue.
    pub fn drain(&mut self) -> (r: Vec<Push>)
        ensures
            r@.map_values(|p: Push| (p.endpoint, p.frame@)) == old(self)@,
            final(self)@ == Seq::<(EndpointId, Seq<char>)>::empty(),
    {
        let mut out: Vec<Push> = Vec::new();
        std::mem::swap(&mut out, &mut self.queue);
        assert(self@ =~= Seq::<(EndpointId, Seq<char>)>::empty());
        out
    }
}

/// Pushes to one endpoint keep the order of their dispatches: when `first` is
/// enqueued before `second` and both reach `endpoint`, the push of `first` to
/// it stands before the push of `second`, among the pushes of `first`, while
/// that of `second` stands among the pushes of `second`.
pub proof fn law_dispatch_order_kept(
    queued: Seq<(EndpointId, Seq<char>)>,
    first: Seq<EndpointId>,
    first_frame: Seq<char>,
    second: Seq<EndpointId>,
    second_frame: Seq<char>,
    endpoint: EndpointId,
)
    requires
        first.contains(endpoint),
        second.contains(endpoint),
    ensures
        ({
            let q = queued + pushes_of(first, first_frame) + pushes_of(second, second_frame);
            exists|i: int, j: int|
                0 <= i < j < q.len() && q[i] == (endpoint, first_frame) && q[j] == (
                    endpoint,
                    second_frame,
                ) && i < queued.len() + first.len() <= j
        }),
{
    let q = queued + pushes_of(first, first_frame) + pushes_of(second, second_frame);
    let a = choose|a: int| 0 <= a < first.len() && first[a] == endpoint;
    let b = choose|b: int| 0 <= b < second.len() && second[b] == endpoint;
    let i = queued.len() + a;
    let j = queued.len() + first.len() + b;
    assert(q[i] == (endpoint, first_frame));
    assert(q[j] == (endpoint, second_frame));
}

} // verus!

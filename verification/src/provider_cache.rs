//! The per-network client cache: one live chain client per configured
//! network, filled once at startup and read ever after.

use vstd::prelude::*;
use crate::network::Network;

verus! {

/// What startup found for one configured network.
pub struct Endpoint<C> {
    pub network: Network,
    /// Whether the facilitator may start without this network.
    pub required: bool,
    /// The client, or `None` where the endpoint is missing or unreachable.
    pub client: Option<C>,
}

/// Why the cache could not be built.
#[derive(Clone, Copy, Debug, PartialEq, Eq, Structural)]
pub enum CacheError {
    /// A required network has no live client.
    Unavailable(Network),
}

/// Entry `i` holds a live client for `network`.
pub open spec fn live_at<C>(endpoints: Seq<Endpoint<C>>, i: int, network: Network) -> bool {
    0 <= i < endpoints.len() && endpoints[i].network == network && endpoints[i].client.is_some()
}

/// Entry `i` is the first that holds a live client for `network`.
pub open spec fn first_live_at<C>(endpoints: Seq<Endpoint<C>>, i: int, network: Network) -> bool {
    live_at(endpoints, i, network) && forall|j: int| 0 <= j < i ==> !live_at(endpoints, j, network)
}

/// Entry `i` is a required network without a client.
pub open spec fn missing_at<C>(endpoints: Seq<Endpoint<C>>, i: int) -> bool {
    0 <= i < endpoints.len() && endpoints[i].required && endpoints[i].client.is_none()
}

/// Entry `i` is the first required network without a client.
pub open spec fn first_missing_at<C>(endpoints: Seq<Endpoint<C>>, i: int) -> bool {
    missing_at(endpoints, i) && forall|j: int| 0 <= j < i ==> !missing_at(endpoints, j)
}

/// One client per network that is served. The cache is never changed after
/// it is built.
pub struct ProviderCache<C> {
    slots: Vec<Option<C>>,
}

impl<C> ProviderCache<C> {
    #[verifier::type_invariant]
    spec fn inv(self) -> bool {
        self.slots@.len() == 4
    }

    /// The cache holds a client for `network`.
    pub closed spec fn holds(self, network: Network) -> bool {
        self.slots@.len() == 4 && self.slots@[network.position()].is_some()
    }

    /// The client held for `network`, where `self.holds(network)`.
    pub closed spec fn client(self, network: Network) -> C {
        self.slots@[network.position()].unwrap()
    }

    /// A cache without any client.
    pub fn empty() -> (r: ProviderCache<C>)
        ensures
            forall|n: Network| !r.holds(n),
    {
        let mut slots: Vec<Option<C>> = Vec::new();
        slots.push(None);
        slots.push(None);
        slots.push(None);
        slots.push(None);
        ProviderCache { slots }
    }

    /// Builds the cache from what startup found. Fails where a required
    /// network has no client, naming the first such network; else holds, for
    /// each network, the first client found for it.
    pub fn build(endpoints: Vec<Endpoint<C>>) -> (r: Result<ProviderCache<C>, CacheError>)
        ensures
            r.is_err() <==> exists|i: int| missing_at(endpoints@, i),
            r matches Err(CacheError::Unavailable(n)) ==> exists|i: int|
                first_missing_at(endpoints@, i) && endpoints@[i].network == n,
            r matches Ok(cache) ==> {
                &&& forall|n: Network|
                    cache.holds(n) <==> exists|i: int| live_at(endpoints@, i, n)
                &&& forall|n: Network, i: int| #[trigger]
                    first_live_at(endpoints@, i, n) ==> cache.holds(n) && Some(cache.client(n))
                        == endpoints@[i].client
            },
    {
        let ghost all = endpoints@;
        let mut rest = endpoints;
        let mut slots: Vec<Option<C>> = Vec::new();
        slots.push(None);
        slots.push(None);
        slots.push(None);
        slots.push(None);
        let mut failed: Option<Network> = None;
        while rest.len() > 0
            invariant
                slots@.len() == 4,
                rest@.len() <= all.len(),
                rest@ == all.subrange(0, rest@.len() as int),
                forall|n: Network| (#[trigger] slots@[n.position()]).is_some() <==> exists|i: int|
                    rest@.len() <= i && live_at(all, i, n),
                forall|n: Network, i: int|
                    rest@.len() <= i && #[trigger] live_at(all, i, n) && (forall|j: int|
                        rest@.len() <= j < i ==> !live_at(all, j, n)) ==> slots@[n.position()]
                        == all[i].client,
                failed.is_some() <==> exists|i: int| rest@.len() <= i && missing_at(all, i),
                failed matches Some(n) ==> exists|i: int|
                    rest@.len() <= i && missing_at(all, i) && all[i].network == n && (forall|
                        j: int,
                    | rest@.len() <= j < i ==> !missing_at(all, j)),
            decreases rest@.len(),
        {
            let ghost k = rest@.len() - 1;
            let ghost old_slots = slots@;
            let ghost old_failed = failed;
            let entry = rest.pop().unwrap();
            assert(entry == all[k]);
            let network = entry.network;
            match entry.client {
                Some(client) => {
                    slots.set(network.index(), Some(client));
                    proof {
                        assert(live_at(all, k, network));
                        assert forall|n: Network| (#[trigger] slots@[n.position()]).is_some()
                            <==> exists|i: int| k <= i && live_at(all, i, n) by {
                            if n == network {
                                assert(live_at(all, k, n));
                            } else {
                                assert(slots@[n.position()] == old_slots[n.position()]);
                                if exists|i: int| k <= i && live_at(all, i, n) {
                                    let i = choose|i: int| k <= i && live_at(all, i, n);
                                    assert(i != k);
                                    assert(k + 1 <= i && live_at(all, i, n));
                                }
                            }
                        }
                        assert forall|n: Network, i: int|
                            k <= i && #[trigger] live_at(all, i, n) && (forall|j: int|
                                k <= j < i ==> !live_at(all, j, n)) implies slots@[n.position()]
                            == all[i].client by {
                            if n == network {
                                if i != k {
                                    assert(!live_at(all, k, n));
                                }
                            } else {
                                assert(slots@[n.position()] == old_slots[n.position()]);
                                assert(i != k);
                            }
                        }
                        assert forall|i: int| k <= i && missing_at(all, i) implies k + 1 <= i by {
                            assert(!missing_at(all, k));
                        }
                    }
                },
                None => {
                    if entry.required {
                        failed = Some(network);
                        proof {
                            assert(missing_at(all, k));
                        }
                    } else {
                        proof {
                            assert(!missing_at(all, k));
                            assert forall|i: int| k <= i && missing_at(all, i) implies k + 1
                                <= i by {
                                assert(i != k);
                            }
                            if let Some(n) = failed {
                                let i = choose|i: int|
                                    k + 1 <= i && missing_at(all, i) && all[i].network == n
                                        && (forall|j: int| k + 1 <= j < i ==> !missing_at(all, j));
                                assert(k <= i && missing_at(all, i) && all[i].network == n
                                    && (forall|j: int| k <= j < i ==> !missing_at(all, j)));
                            }
                        }
                    }
                    proof {
                        assert(!live_at(all, k, network));
                        assert forall|n: Network| (#[trigger] slots@[n.position()]).is_some()
                            <==> exists|i: int| k <= i && live_at(all, i, n) by {
                            if exists|i: int| k <= i && live_at(all, i, n) {
                                let i = choose|i: int| k <= i && live_at(all, i, n);
                                assert(!live_at(all, k, n));
                                assert(k + 1 <= i && live_at(all, i, n));
                            }
                        }
                        assert forall|n: Network, i: int|
                            k <= i && #[trigger] live_at(all, i, n) && (forall|j: int|
                                k <= j < i ==> !live_at(all, j, n)) implies slots@[n.position()]
                            == all[i].client by {
                            assert(!live_at(all, k, n));
                            assert(i != k);
                        }
                    }
                },
            }
            proof {
                assert(rest@ =~= all.subrange(0, k));
            }
        }
        match failed {
            Some(n) => {
                proof {
                    let i = choose|i: int|
                        0 <= i && missing_at(all, i) && all[i].network == n && (forall|j: int|
                            0 <= j < i ==> !missing_at(all, j));
                    assert(first_missing_at(all, i) && all[i].network == n);
                }
                Err(CacheError::Unavailable(n))
            },
            None => {
                let cache = ProviderCache { slots };
                proof {
                    assert forall|n: Network| cache.holds(n) <==> exists|i: int|
                        live_at(all, i, n) by {
                        if exists|i: int| live_at(all, i, n) {
                            let i = choose|i: int| live_at(all, i, n);
                            assert(0 <= i && live_at(all, i, n));
                        }
                    }
                    assert forall|n: Network, i: int| #[trigger]
                        first_live_at(all, i, n) implies cache.holds(n) && Some(cache.client(n))
                        == all[i].client by {
                        assert(0 <= i && live_at(all, i, n));
                    }
                }
                Ok(cache)
            },
        }
    }

    /// The client for `network`, shared with every other caller.
    pub fn client_for(&self, network: Network) -> (r: Option<&C>)
        ensures
            r.is_some() <==> self.holds(network),
            r matches Some(c) ==> *c == self.client(network),
    {
        proof {
            use_type_invariant(self);
        }
        self.slots[network.index()].as_ref()
    }

    /// Whether the cache holds a client for `network`.
    pub fn supports(&self, network: Network) -> (r: bool)
        ensures
            r == self.holds(network),
    {
        proof {
            use_type_invariant(self);
        }
        self.slots[network.index()].is_some()
    }

    /// Exactly the networks with a live client, in the registry's order.
    pub fn supported_networks(&self) -> (r: Vec<Network>)
        ensures
            forall|n: Network| r@.contains(n) <==> self.holds(n),
            forall|i: int, j: int|
                0 <= i < j < r@.len() ==> r@[i].position() < r@[j].position(),
    {
        proof {
            use_type_invariant(self);
        }
        let all = Network::variants();
        let mut out: Vec<Network> = Vec::new();
        let mut k: usize = 0;
        while k < 4
            invariant
                0 <= k <= 4,
                all@ == crate::network::all_networks(),
                self.slots@.len() == 4,
                forall|n: Network| out@.contains(n) <==> (self.holds(n) && n.position() < k),
                forall|i: int| 0 <= i < out@.len() ==> (#[trigger] out@[i]).position() < k,
                forall|i: int, j: int|
                    0 <= i < j < out@.len() ==> out@[i].position() < out@[j].position(),
            decreases 4 - k,
        {
            let n = all[k];
            assert(n.position() == k);
            let ghost before = out@;
            if self.slots[k].is_some() {
                out.push(n);
                proof {
                    assert(out@[before.len() as int] == n);
                    assert forall|m: Network| out@.contains(m) <==> (self.holds(m) && m.position()
                        < k + 1) by {
                        if out@.contains(m) {
                            let i = choose|i: int| 0 <= i < out@.len() && out@[i] == m;
                            if i < before.len() {
                                assert(before[i] == m);
                                assert(before.contains(m));
                            }
                        }
                        if self.holds(m) && m.position() < k + 1 {
                            if m.position() < k {
                                assert(before.contains(m));
                                let i = choose|i: int| 0 <= i < before.len() && before[i] == m;
                                assert(out@[i] == m);
                            } else {
                                assert(m == n);
                            }
                        }
                    }
                }
            } else {
                proof {
                    assert forall|m: Network| out@.contains(m) <==> (self.holds(m) && m.position()
                        < k + 1) by {
                        if self.holds(m) && m.position() < k + 1 {
                            assert(m.position() != k);
                        }
                    }
                }
            }
            k = k + 1;
        }
        out
    }
}

} // verus!

//! The throttle on connection requests: a client that asks again within the
//! cooldown after its previous request is turned away, and every request,
//! admitted or not, starts the cooldown anew.

use std::collections::HashMap;
use vstd::prelude::*;

verus! {

broadcast use vstd::std_specs::hash::group_hash_axioms;

/// The time from `since` to `now`, or zero where `now` comes first.
pub open spec fn elapsed(since: u128, now: u128) -> int {
    if now >= since {
        now - since
    } else {
        0
    }
}

/// Whether a request from `client` at `now` is admitted, given the time of
/// each client's latest request: it is the client's first, or more than
/// `cooldown` has passed since its latest.
pub open spec fn spec_allows(last: Map<u128, u128>, client: u128, now: u128, cooldown: u128) -> bool {
    !last.contains_key(client) || elapsed(last[client], now) > cooldown
}

/// The time of the latest connection request of each client, clients keyed by
/// their address and times in a unit of the caller's choice.
pub struct ConnectionThrottle {
    last_request: HashMap<u128, u128>,
}

impl View for ConnectionThrottle {
    type V = Map<u128, u128>;

    closed spec fn view(&self) -> Map<u128, u128> {
        self.last_request@
    }
}

impl ConnectionThrottle {
    /// A throttle that has seen no request.
    pub fn new() -> (r: Self)
        ensures
            r@ == Map::<u128, u128>::empty(),
    {
        ConnectionThrottle { last_request: HashMap::new() }
    }

    /// Records a request from `client` at `now` and says whether it is
    /// admitted.
    pub fn register(&mut self, client: u128, now: u128, cooldown: u128) -> (r: bool)
        ensures
            r == spec_allows(old(self)@, client, now, cooldown),
            final(self)@ == old(self)@.insert(client, now),
    {
        let allowed = match self.last_request.get(&client) {
            Some(last) => {
                let waited = if now >= *last {
                    now - *last
                } else {
                    0
                };
                waited > cooldown
            },
            None => true,
        };
        self.last_request.insert(client, now);
        allowed
    }
}

/// A client's first request is admitted.
pub proof fn lemma_first_request_allowed(
    last: Map<u128, u128>,
    client: u128,
    now: u128,
    cooldown: u128,
)
    requires
        !last.contains_key(client),
    ensures
        spec_allows(last, client, now, cooldown),
{
}

/// A request that comes within the cooldown after the same client's previous
/// request is turned away, whether that one was admitted or not.
pub proof fn lemma_request_within_cooldown_refused(
    last: Map<u128, u128>,
    client: u128,
    earlier: u128,
    now: u128,
    cooldown: u128,
)
    requires
        earlier <= now,
        now - earlier <= cooldown,
    ensures
        !spec_allows(last.insert(client, earlier), client, now, cooldown),
{
}

/// A request that comes more than the cooldown after the same client's
/// previous request is admitted.
pub proof fn lemma_request_after_cooldown_allowed(
    last: Map<u128, u128>,
    client: u128,
    earlier: u128,
    now: u128,
    cooldown: u128,
)
    requires
        earlier <= now,
        now - earlier > cooldown,
    ensures
        spec_allows(last.insert(client, earlier), client, now, cooldown),
{
}

/// A request from one client does not change what is decided for another.
pub proof fn lemma_clients_independent(
    last: Map<u128, u128>,
    client: u128,
    at: u128,
    other: u128,
    now: u128,
    cooldown: u128,
)
    requires
        client != other,
    ensures
        spec_allows(last.insert(client, at), other, now, cooldown) == spec_allows(
            last,
            other,
            now,
            cooldown,
        ),
{
}

/// Exactly how a request is decided, given the time `earlier` of the same
/// client's previous request: allowed when more than the cooldown has passed
/// since it, refused otherwise, and refused when the clock reads before it
/// (no time has passed).
pub proof fn lemma_request_decision_exact(
    last: Map<u128, u128>,
    client: u128,
    earlier: u128,
    now: u128,
    cooldown: u128,
)
    ensures
        earlier <= now ==> (spec_allows(last.insert(client, earlier), client, now, cooldown) <==> now
            - earlier > cooldown),
        now < earlier ==> !spec_allows(last.insert(client, earlier), client, now, cooldown),
        !last.contains_key(client) ==> spec_allows(last, client, now, cooldown),
{
}

} // verus!

//! A sticky-session load balancer: each caller is sent to a backend node
//! picked at random the first time it calls, and to that same backend on
//! every later call.
use vstd::prelude::*;
use rand::Rng;
use rand::rngs::ThreadRng;
use crate::decimal::{decimal, decimal_reads_back, is_digit, numeral_value, to_decimal};
use crate::control_plane;
use crate::bootstrap;
use vstd::hash_map::StringHashMap;

verus! {

#[verifier::external_type_specification]
#[verifier::external_body]
pub struct ExThreadRng(rand::rngs::ThreadRng);

/// The random number generator of the current thread, from `rand::thread_rng`.
#[verifier::external_body]
fn thread_rng() -> (rng: ThreadRng) {
    rand::thread_rng()
}

/// A number below `n` drawn from `rng`, from `Rng::gen_range(0..n)`,
/// given back with the end `n` of the range it was drawn from.
///
/// `gen_range` panics on an empty range, so `n` must be positive; which
/// number comes back is left to chance, and only its range is claimed.
#[verifier::external_body]
fn random_index(rng: &mut ThreadRng, n: usize) -> (draw: (usize, usize))
    requires
        n > 0,
    ensures
        draw.0 < n,
        draw.1 == n,
{
    (rng.gen_range(0..n), n)
}

/// The address of a backend: its host name, `:`, and its port in decimal.
pub open spec fn addr_spec(hostname: Seq<char>, port: nat) -> Seq<char> {
    hostname + seq![':'] + decimal(port)
}

/// A backend address has the form host `:` port: the host name, then `:`,
/// then at least one decimal digit, and those digits read back as the port.
pub proof fn backend_addr_parts(hostname: Seq<char>, port: nat)
    ensures
        addr_spec(hostname, port).len() > hostname.len() + 1,
        addr_spec(hostname, port).take(hostname.len() as int) == hostname,
        addr_spec(hostname, port)[hostname.len() as int] == ':',
        forall|i: int|
            hostname.len() + 1 <= i < addr_spec(hostname, port).len() ==> is_digit(
                #[trigger] addr_spec(hostname, port)[i],
            ),
        numeral_value(addr_spec(hostname, port).skip(hostname.len() as int + 1)) == port,
{
    decimal_reads_back(port);
    let a = addr_spec(hostname, port);
    assert(a.take(hostname.len() as int) =~= hostname);
    assert(a.skip(hostname.len() as int + 1) =~= decimal(port));
    assert forall|i: int| hostname.len() + 1 <= i < a.len() implies is_digit(#[trigger] a[i]) by {
        assert(a[i] == decimal(port)[i - hostname.len() - 1]);
    }
}

/// The address of a backend, as `format!("{}:{}", hostname, port)`.
pub fn backend_addr(hostname: &str, port: u32) -> (addr: String)
    ensures
        addr@ == addr_spec(hostname@, port as nat),
        addr@.len() > hostname@.len() + 1,
        addr@.take(hostname@.len() as int) == hostname@,
        addr@[hostname@.len() as int] == ':',
        numeral_value(addr@.skip(hostname@.len() as int + 1)) == port,
{
    proof {
        backend_addr_parts(hostname@, port as nat);
    }
    let mut addr = hostname.to_owned();
    proof {
        reveal_strlit(":");
    }
    addr.append(":");
    let digits = to_decimal(port);
    addr.append(digits.as_str());
    addr
}

/// The backend that a caller is routed to: the one recorded for it, or
/// else the backend at index `pick` of the pool.
pub open spec fn route_spec(
    sessions: Map<Seq<char>, Seq<char>>,
    backends: Seq<Seq<char>>,
    caller: Seq<char>,
    pick: int,
) -> Seq<char> {
    if sessions.contains_key(caller) {
        sessions[caller]
    } else {
        backends[pick]
    }
}

/// A route can be taken: the caller has a session, or `pick` indexes the pool.
pub open spec fn can_route(
    sessions: Map<Seq<char>, Seq<char>>,
    backends: Seq<Seq<char>>,
    caller: Seq<char>,
    pick: int,
) -> bool {
    sessions.contains_key(caller) || 0 <= pick < backends.len()
}

/// Every recorded session leads to a backend of the pool.
pub open spec fn sessions_in_pool(sessions: Map<Seq<char>, Seq<char>>, backends: Seq<Seq<char>>) -> bool {
    forall|k: Seq<char>| #[trigger] sessions.contains_key(k) ==> backends.contains(sessions[k])
}

/// The backend addresses of a control plane's node pool, in pool order.
pub open spec fn pool_addrs(nodes: Seq<control_plane::Node>) -> Seq<Seq<char>> {
    nodes.map_values(|n: control_plane::Node| addr_spec(n.hostname@, n.port as nat))
}

/// The backend addresses of a local cluster's node pool, in pool order.
pub open spec fn local_pool_addrs(nodes: Seq<bootstrap::Node>) -> Seq<Seq<char>> {
    nodes.map_values(|n: bootstrap::Node| addr_spec(n.hostname@, n.port as nat))
}

/// Sessions are sticky: once a caller has been routed, routing it again
/// gives the same backend, whatever index would be picked the second
/// time, and leaves the sessions as they were.
pub proof fn sticky_routing(
    sessions: Map<Seq<char>, Seq<char>>,
    backends: Seq<Seq<char>>,
    caller: Seq<char>,
    first_pick: int,
    second_pick: int,
)
    requires
        can_route(sessions, backends, caller, first_pick),
    ensures
        ({
            let first = route_spec(sessions, backends, caller, first_pick);
            let after = sessions.insert(caller, first);
            &&& route_spec(after, backends, caller, second_pick) == first
            &&& after.insert(caller, route_spec(after, backends, caller, second_pick)) == after
        }),
{
    let first = route_spec(sessions, backends, caller, first_pick);
    let after = sessions.insert(caller, first);
    assert(after.insert(caller, route_spec(after, backends, caller, second_pick)) =~= after);
}

/// Routing one caller leaves the session of every other caller as it was.
pub proof fn routing_keeps_other_sessions(
    sessions: Map<Seq<char>, Seq<char>>,
    backends: Seq<Seq<char>>,
    caller: Seq<char>,
    pick: int,
    other: Seq<char>,
)
    requires
        other != caller,
    ensures
        ({
            let after = sessions.insert(caller, route_spec(sessions, backends, caller, pick));
            &&& after.contains_key(other) == sessions.contains_key(other)
            &&& sessions.contains_key(other) ==> after[other] == sessions[other]
        }),
{
}

/// A caller is only ever routed to a backend of the pool: a route taken
/// from sessions that all lead into the pool leads into the pool, and so
/// do the sessions after it.
pub proof fn routes_stay_in_pool(
    sessions: Map<Seq<char>, Seq<char>>,
    backends: Seq<Seq<char>>,
    caller: Seq<char>,
    pick: int,
)
    requires
        sessions_in_pool(sessions, backends),
        can_route(sessions, backends, caller, pick),
    ensures
        backends.contains(route_spec(sessions, backends, caller, pick)),
        sessions_in_pool(sessions.insert(caller, route_spec(sessions, backends, caller, pick)), backends),
{
    let r = route_spec(sessions, backends, caller, pick);
    if !sessions.contains_key(caller) {
        assert(backends[pick] == r);
    }
    assert forall|k: Seq<char>| #[trigger] sessions.insert(caller, r).contains_key(k) implies backends.contains(
        sessions.insert(caller, r)[k]) by {
        if k != caller {
            assert(sessions.contains_key(k));
        }
    }
}

/// Routes callers, identified by their address, to backends.
pub struct Balancer {
    backends: Vec<String>,
    sessions: StringHashMap<String>,
    rng: ThreadRng,
    draw: Ghost<Option<(int, int)>>,
}

impl Balancer {
    /// The addresses of the backends, in pool order.
    pub closed spec fn backend_addrs(&self) -> Seq<Seq<char>> {
        self.backends@.map_values(|s: String| s@)
    }

    /// The sticky sessions: the backend recorded for each caller so far.
    pub closed spec fn sessions(&self) -> Map<Seq<char>, Seq<char>> {
        self.sessions@.map_values(|s: String| s@)
    }

    /// The latest random draw: the index drawn, and the end of the range
    /// `0..end` that it was drawn from; none before the first draw.
    pub closed spec fn last_draw(&self) -> Option<(int, int)> {
        self.draw@
    }

    /// Every recorded session leads to a backend of the pool.
    #[verifier::type_invariant]
    spec fn wf(&self) -> bool {
        sessions_in_pool(self.sessions(), self.backend_addrs())
    }

    fn with_backends(backends: Vec<String>) -> (b: Balancer)
        ensures
            b.backend_addrs() == backends@.map_values(|s: String| s@),
            b.sessions() == Map::<Seq<char>, Seq<char>>::empty(),
            sessions_in_pool(b.sessions(), b.backend_addrs()),
            b.last_draw() == None::<(int, int)>,
    {
        let b = Balancer { backends, sessions: StringHashMap::new(), rng: thread_rng(), draw: Ghost(None) };
        assert(b.sessions() =~= Map::<Seq<char>, Seq<char>>::empty());
        b
    }

    /// A balancer over a control plane's node pool, with no sessions yet.
    pub fn for_pool(nodes: &Vec<control_plane::Node>) -> (b: Balancer)
        ensures
            b.backend_addrs() == pool_addrs(nodes@),
            b.sessions() == Map::<Seq<char>, Seq<char>>::empty(),
            sessions_in_pool(b.sessions(), b.backend_addrs()),
            b.last_draw() == None::<(int, int)>,
    {
        let mut backends: Vec<String> = Vec::new();
        let mut i: usize = 0;
        while i < nodes.len()
            invariant
                i <= nodes.len(),
                backends.len() == i,
                forall|j: int| 0 <= j < i ==> #[trigger] backends[j]@ == addr_spec(nodes[j].hostname@, nodes[j].port as nat),
            decreases nodes.len() - i,
        {
            let addr = backend_addr(nodes[i].hostname.as_str(), nodes[i].port);
            backends.push(addr);
            i = i + 1;
        }
        assert(backends@.map_values(|s: String| s@) =~= pool_addrs(nodes@));
        Self::with_backends(backends)
    }

    /// A balancer over a local cluster's node pool, with no sessions yet.
    pub fn for_local_pool(nodes: &Vec<bootstrap::Node>) -> (b: Balancer)
        ensures
            b.backend_addrs() == local_pool_addrs(nodes@),
            b.sessions() == Map::<Seq<char>, Seq<char>>::empty(),
            sessions_in_pool(b.sessions(), b.backend_addrs()),
            b.last_draw() == None::<(int, int)>,
    {
        let mut backends: Vec<String> = Vec::new();
        let mut i: usize = 0;
        while i < nodes.len()
            invariant
                i <= nodes.len(),
                backends.len() == i,
                forall|j: int| 0 <= j < i ==> #[trigger] backends[j]@ == addr_spec(nodes[j].hostname@, nodes[j].port as nat),
            decreases nodes.len() - i,
        {
            let addr = backend_addr(nodes[i].hostname.as_str(), nodes[i].port as u32);
            backends.push(addr);
            i = i + 1;
        }
        assert(backends@.map_values(|s: String| s@) =~= local_pool_addrs(nodes@));
        Self::with_backends(backends)
    }

    /// The number of backends in the pool.
    pub fn pool_len(&self) -> (n: usize)
        ensures
            n == self.backend_addrs().len(),
    {
        self.backends.len()
    }

    /// Whether `caller` has a recorded session.
    pub fn has_session(&self, caller: &String) -> (b: bool)
        ensures
            b == self.sessions().contains_key(caller@),
    {
        self.sessions.contains_key(caller.as_str())
    }

    /// The backend recorded for `caller`, if any.
    pub fn lookup(&self, caller: &String) -> (r: Option<String>)
        ensures
            match r {
                Some(b) => self.sessions().contains_key(caller@) && b@ == self.sessions()[caller@],
                None => !self.sessions().contains_key(caller@),
            },
    {
        match self.sessions.get(caller.as_str()) {
            Some(b) => Some(b.clone()),
            None => None,
        }
    }

    /// Routes `caller` to the backend recorded for it, or else to the
    /// backend at index `pick`, and records that backend for the caller.
    pub fn route_with_pick(&mut self, caller: String, pick: usize) -> (backend: String)
        requires
            can_route(old(self).sessions(), old(self).backend_addrs(), caller@, pick as int),
        ensures
            backend@ == route_spec(old(self).sessions(), old(self).backend_addrs(), caller@, pick as int),
            final(self).sessions() == old(self).sessions().insert(caller@, backend@),
            final(self).backend_addrs() == old(self).backend_addrs(),
            sessions_in_pool(final(self).sessions(), final(self).backend_addrs()),
            final(self).last_draw() == old(self).last_draw(),
    {
        proof {
            use_type_invariant(&*self);
        }
        let backend = match self.lookup(&caller) {
            Some(b) => b,
            None => self.backends[pick].clone(),
        };
        let ghost sessions = self.sessions();
        let ghost addrs = self.backend_addrs();
        proof {
            routes_stay_in_pool(sessions, addrs, caller@, pick as int);
        }
        let ghost caller_view = caller@;
        // The sessions are taken out of the balancer, updated, and put back.
        let mut recorded = StringHashMap::new();
        std::mem::swap(&mut recorded, &mut self.sessions);
        recorded.insert(caller, backend.clone());
        assert(recorded@.map_values(|s: String| s@) =~= sessions.insert(caller_view, backend@));
        assert(self.backend_addrs() == addrs);
        self.sessions = recorded;
        backend
    }

    /// Routes `caller`: to the backend recorded for it, or else to a
    /// backend of the pool picked at random, which is then recorded for it.
    pub fn route(&mut self, caller: String) -> (backend: String)
        requires
            old(self).sessions().contains_key(caller@) || old(self).backend_addrs().len() > 0,
        ensures
            old(self).sessions().contains_key(caller@) ==> backend@ == old(self).sessions()[caller@],
            !old(self).sessions().contains_key(caller@) ==> old(self).backend_addrs().contains(backend@),
            final(self).sessions() == old(self).sessions().insert(caller@, backend@),
            final(self).backend_addrs() == old(self).backend_addrs(),
            sessions_in_pool(final(self).sessions(), final(self).backend_addrs()),
            old(self).sessions().contains_key(caller@) ==> final(self).last_draw() == old(self).last_draw(),
            !old(self).sessions().contains_key(caller@) ==> ({
                &&& final(self).last_draw() matches Some((pick, end))
                &&& end == old(self).backend_addrs().len()
                &&& 0 <= pick < end
                &&& backend@ == old(self).backend_addrs()[pick]
            }),
    {
        proof {
            use_type_invariant(&*self);
        }
        let n = self.backends.len();
        let pick = if self.has_session(&caller) {
            0
        } else {
            // The generator is taken out of the balancer for the draw, and
            // put back after it.
            let mut rng = thread_rng();
            std::mem::swap(&mut rng, &mut self.rng);
            let (i, end) = random_index(&mut rng, n);
            self.rng = rng;
            self.draw = Ghost(Some((i as int, end as int)));
            i
        };
        let ghost addrs = self.backend_addrs();
        let backend = self.route_with_pick(caller, pick);
        proof {
            if !old(self).sessions().contains_key(caller@) {
                assert(addrs[pick as int] == backend@);
            }
        }
        backend
    }
}

} // verus!

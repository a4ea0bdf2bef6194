//! Wireless egress bookkeeping: the host (/32) routes this service owns on
//! the wireless interface, the metric suppression, and the settle wait.
//! It decides and keeps the ledger; the system calls go through
//! [`EgressOps`], implemented by the routing adapter of the shell.

use vstd::prelude::*;

verus! {

broadcast use vstd::seq_lib::lemma_seq_contains_after_push;

/// Wait after writing the host routes before they carry traffic (ms).
pub const ROUTE_SETTLE_MS: u64 = 3_000;

/// Gateway and interface of the wireless link.
#[derive(Debug, Clone, Copy, PartialEq, Eq)]
pub struct WlanEndpoint {
    pub gateway: [u8; 4],
    pub ifindex: u32,
}

/// A route change as the routing adapter records it.
#[derive(Debug, Clone, Copy, PartialEq, Eq)]
pub enum RouteChange {
    Add { dest: [u8; 4], gateway: [u8; 4], ifindex: u32 },
    Delete { dest: [u8; 4], gateway: [u8; 4], ifindex: u32 },
}

/// A metric change as the routing adapter records it.
#[derive(Debug, Clone, Copy, PartialEq, Eq)]
pub struct MetricChange {
    pub ifindex: u32,
    pub metric: u32,
}

/// A call made on the routing adapter.
#[derive(Debug, Clone, Copy, PartialEq, Eq)]
pub enum EgressCall {
    AddRoute(RouteRow),
    DeleteRoute(RouteRow),
    SuppressMetric { ifindex: u32, target: u32 },
    RestoreMetric(u32),
}

/// The system side of the egress: route and metric changes.
pub trait EgressOps {
    /// The calls made on this adapter so far, oldest first. An adapter that
    /// keeps no record of them leaves this empty, and then does not meet the
    /// contracts below; the ledger's own contracts speak of this record.
    closed spec fn calls(&self) -> Seq<EgressCall> {
        Seq::empty()
    }

    fn add_route(&mut self, dest: [u8; 4], gateway: [u8; 4], ifindex: u32)
        ensures
            final(self).calls() == old(self).calls().push(EgressCall::AddRoute((dest, gateway, ifindex))),
    ;

    fn delete_route(&mut self, dest: [u8; 4], gateway: [u8; 4], ifindex: u32)
        ensures
            final(self).calls() == old(self).calls().push(EgressCall::DeleteRoute((dest, gateway, ifindex))),
    ;

    fn suppress_metric(&mut self, ifindex: u32, target: u32)
        ensures
            final(self).calls() == old(self).calls().push(EgressCall::SuppressMetric { ifindex, target }),
    ;

    fn restore_metric(&mut self, ifindex: u32)
        ensures
            final(self).calls() == old(self).calls().push(EgressCall::RestoreMetric(ifindex)),
    ;
}

/// Deletion calls for `rows`, in order.
pub open spec fn delete_calls(rows: Seq<RouteRow>) -> Seq<EgressCall> {
    rows.map_values(|t: RouteRow| EgressCall::DeleteRoute(t))
}

/// The restoring call for the applied endpoint, if there is one.
pub open spec fn restore_calls(applied: Option<WlanEndpoint>) -> Seq<EgressCall> {
    match applied {
        Some(ep) => seq![EgressCall::RestoreMetric(ep.ifindex)],
        None => Seq::empty(),
    }
}

/// The rows, in order, whose destination is in `dests` (`owned`) or is not.
pub open spec fn rows_owned(rows: Seq<RouteRow>, dests: Seq<[u8; 4]>, owned: bool) -> Seq<RouteRow>
    decreases rows.len(),
{
    if rows.len() == 0 {
        Seq::empty()
    } else {
        let rest = rows_owned(rows.drop_last(), dests, owned);
        if dests.contains(rows.last().0) == owned {
            rest.push(rows.last())
        } else {
            rest
        }
    }
}

/// The rows, in order, whose destination is `d` (`to_d`) or is not.
pub open spec fn rows_to(rows: Seq<RouteRow>, d: [u8; 4], to_d: bool) -> Seq<RouteRow>
    decreases rows.len(),
{
    if rows.len() == 0 {
        Seq::empty()
    } else {
        let rest = rows_to(rows.drop_last(), d, to_d);
        if (rows.last().0 == d) == to_d {
            rest.push(rows.last())
        } else {
            rest
        }
    }
}

/// Routing destination `d` over `ep`: nothing when the route is there;
/// otherwise every route to `d` is deleted, in ledger order, and the route
/// over `ep` is added. Gives the new ledger and the calls.
pub open spec fn acquire_step(rows: Seq<RouteRow>, d: [u8; 4], ep: WlanEndpoint) -> (Seq<RouteRow>, Seq<EgressCall>) {
    let want: RouteRow = (d, ep.gateway, ep.ifindex);
    if rows.contains(want) {
        (rows, Seq::empty())
    } else {
        (
            rows_to(rows, d, false).push(want),
            delete_calls(rows_to(rows, d, true)).push(EgressCall::AddRoute(want)),
        )
    }
}

/// Routing each destination of `dests` over `ep`, in order.
pub open spec fn acquire_plan(dests: Seq<[u8; 4]>, rows: Seq<RouteRow>, ep: WlanEndpoint) -> (Seq<RouteRow>, Seq<EgressCall>)
    decreases dests.len(),
{
    if dests.len() == 0 {
        (rows, Seq::empty())
    } else {
        let prev = acquire_plan(dests.drop_last(), rows, ep);
        let step = acquire_step(prev.0, dests.last(), ep);
        (step.0, prev.1 + step.1)
    }
}

/// A route owned by the service: destination, gateway, interface.
pub type RouteRow = ([u8; 4], [u8; 4], u32);

/// Ledger of the wireless egress.
pub struct WirelessEgress<T: EgressOps> {
    ops: T,
    dests: Vec<[u8; 4]>,
    added: Vec<RouteRow>,
    applied_endpoint: Option<WlanEndpoint>,
}

fn same_ip(a: [u8; 4], b: [u8; 4]) -> (r: bool)
    ensures
        r == (a == b),
{
    let r = a[0] == b[0] && a[1] == b[1] && a[2] == b[2] && a[3] == b[3];
    if r {
        assert(a =~= b);
    }
    r
}

fn same_row(a: RouteRow, b: RouteRow) -> (r: bool)
    ensures
        r == (a == b),
{
    same_ip(a.0, b.0) && same_ip(a.1, b.1) && a.2 == b.2
}

fn owned(dests: &Vec<[u8; 4]>, d: [u8; 4]) -> (r: bool)
    ensures
        r == dests@.contains(d),
{
    let mut i: usize = 0;
    while i < dests.len()
        invariant
            i <= dests@.len(),
            forall|j: int| 0 <= j < i ==> dests@[j] != d,
        decreases dests.len() - i,
    {
        if same_ip(dests[i], d) {
            return true;
        }
        i = i + 1;
    }
    false
}

fn has_row(rows: &Vec<RouteRow>, t: RouteRow) -> (r: bool)
    ensures
        r == rows@.contains(t),
{
    let mut i: usize = 0;
    while i < rows.len()
        invariant
            i <= rows@.len(),
            forall|j: int| 0 <= j < i ==> rows@[j] != t,
        decreases rows.len() - i,
    {
        if same_row(rows[i], t) {
            return true;
        }
        i = i + 1;
    }
    false
}

/// At most one route per destination.
pub open spec fn unique_dests(rows: Seq<RouteRow>) -> bool {
    forall|a: int, b: int| 0 <= a < b < rows.len() ==> (#[trigger] rows[a]).0 != (#[trigger] rows[b]).0
}

proof fn lemma_push_unique(kept: Seq<RouteRow>, before: Seq<RouteRow>, k: int)
    requires
        0 <= k < before.len(),
        unique_dests(kept),
        unique_dests(before),
        forall|x: RouteRow| kept.contains(x) ==> before.take(k).contains(x),
    ensures
        unique_dests(kept.push(before[k])),
{
    let row = before[k];
    let n = kept.push(row);
    assert forall|a: int, b: int| 0 <= a < b < n.len() implies (#[trigger] n[a]).0 != (#[trigger] n[b]).0 by {
        if b == kept.len() {
            assert(kept.contains(kept[a]));
            assert(before.take(k).contains(kept[a]));
            let j = choose|j: int| 0 <= j < before.take(k).len() && before.take(k)[j] == kept[a];
            assert(before[j] == kept[a]);
        } else {
            assert(n[a] == kept[a] && n[b] == kept[b]);
        }
    }
}

impl<T: EgressOps> WirelessEgress<T> {
    /// The ledger holds at most one route per destination.
    pub closed spec fn wf(&self) -> bool {
        unique_dests(self.added@)
    }

    /// Destinations the service owns.
    pub closed spec fn dests(&self) -> Seq<[u8; 4]> {
        self.dests@
    }

    /// Routes the service has added and not deleted.
    pub closed spec fn added(&self) -> Seq<RouteRow> {
        self.added@
    }

    /// The adapter the ledger drives.
    pub closed spec fn adapter(&self) -> T {
        self.ops
    }

    /// Endpoint of the last acquisition or metric suppression.
    pub closed spec fn applied_endpoint(&self) -> Option<WlanEndpoint> {
        self.applied_endpoint
    }

    /// An empty ledger.
    pub fn new(ops: T) -> (r: Self)
        ensures
            r.wf(),
            r.dests() == Seq::<[u8; 4]>::empty(),
            r.added() == Seq::<RouteRow>::empty(),
            r.applied_endpoint() is None,
            r.adapter() == ops,
    {
        WirelessEgress { ops, dests: Vec::new(), added: Vec::new(), applied_endpoint: None }
    }

    /// Declares the destinations the service owns; routes to any other
    /// destination are deleted.
    pub fn own_destinations(&mut self, dests: &[[u8; 4]])
        requires
            old(self).wf(),
        ensures
            final(self).wf(),
            final(self).dests() == dests@,
            forall|t: RouteRow|
                final(self).added().contains(t) <==> (old(self).added().contains(t) && dests@.contains(
                    t.0,
                )),
            final(self).applied_endpoint() == old(self).applied_endpoint(),
            final(self).added() == rows_owned(old(self).added(), dests@, true),
            final(self).adapter().calls() == old(self).adapter().calls() + delete_calls(
                rows_owned(old(self).added(), dests@, false),
            ),
    {
        let mut owned_dests: Vec<[u8; 4]> = Vec::new();
        let mut i: usize = 0;
        while i < dests.len()
            invariant
                i <= dests@.len(),
                owned_dests@ == dests@.take(i as int),
            decreases dests.len() - i,
        {
            owned_dests.push(dests[i]);
            assert(owned_dests@ =~= dests@.take(i + 1));
            i = i + 1;
        }
        assert(dests@.take(dests@.len() as int) =~= dests@);
        self.dests = owned_dests;
        let ghost before = self.added@;
        let mut kept: Vec<RouteRow> = Vec::new();
        let mut k: usize = 0;
        while k < self.added.len()
            invariant
                k <= self.added@.len(),
                self.added@ == before,
                self.dests@ == dests@,
                self.applied_endpoint == old(self).applied_endpoint,
                unique_dests(before),
                unique_dests(kept@),
                forall|t: RouteRow|
                    kept@.contains(t) <==> (before.take(k as int).contains(t) && dests@.contains(t.0)),
                kept@ == rows_owned(before.take(k as int), dests@, true),
                self.ops.calls() == old(self).ops.calls() + delete_calls(
                    rows_owned(before.take(k as int), dests@, false),
                ),
            decreases self.added.len() - k,
        {
            let row = self.added[k];
            assert(before.take(k + 1) =~= before.take(k as int).push(row));
            assert(before.take(k + 1).drop_last() =~= before.take(k as int));
            let ghost gone = rows_owned(before.take(k as int), dests@, false);
            if owned(&self.dests, row.0) {
                proof {
                    lemma_push_unique(kept@, before, k as int);
                }
                kept.push(row);
            } else {
                self.ops.delete_route(row.0, row.1, row.2);
                assert(old(self).ops.calls() + delete_calls(gone.push(row)) =~= (old(self).ops.calls()
                    + delete_calls(gone)).push(EgressCall::DeleteRoute(row)));
            }
            k = k + 1;
        }
        assert(before.take(before.len() as int) =~= before);
        self.added = kept;
    }

    /// Acquires the egress over `endpoint`: every owned destination gets a
    /// route over it, replacing a route to it over another gateway or
    /// interface; other routes stay. Returns the settle wait (ms).
    pub fn acquire(&mut self, endpoint: WlanEndpoint) -> (r: u64)
        requires
            old(self).wf(),
        ensures
            final(self).wf(),
            r == ROUTE_SETTLE_MS,
            final(self).dests() == old(self).dests(),
            forall|t: RouteRow|
                final(self).added().contains(t) <==> if old(self).dests().contains(t.0) {
                    t.1 == endpoint.gateway && t.2 == endpoint.ifindex
                } else {
                    old(self).added().contains(t)
                },
            final(self).applied_endpoint() == Some(endpoint),
            final(self).added() == acquire_plan(old(self).dests(), old(self).added(), endpoint).0,
            final(self).adapter().calls() == old(self).adapter().calls() + acquire_plan(
                old(self).dests(),
                old(self).added(),
                endpoint,
            ).1,
    {
        let ghost before = self.added@;
        let mut i: usize = 0;
        while i < self.dests.len()
            invariant
                i <= self.dests@.len(),
                self.dests@ == old(self).dests@,
                self.applied_endpoint == old(self).applied_endpoint,
                unique_dests(self.added@),
                forall|t: RouteRow|
                    self.added@.contains(t) <==> if self.dests@.take(i as int).contains(t.0) {
                        t.1 == endpoint.gateway && t.2 == endpoint.ifindex
                    } else {
                        before.contains(t)
                    },
                self.added@ == acquire_plan(self.dests@.take(i as int), before, endpoint).0,
                self.ops.calls() == old(self).ops.calls() + acquire_plan(
                    self.dests@.take(i as int),
                    before,
                    endpoint,
                ).1,
            decreases self.dests.len() - i,
        {
            let dest = self.dests[i];
            let want: RouteRow = (dest, endpoint.gateway, endpoint.ifindex);
            assert(self.dests@.take(i + 1) =~= self.dests@.take(i as int).push(dest));
            assert(self.dests@.take(i + 1).drop_last() =~= self.dests@.take(i as int));
            let ghost prev = acquire_plan(self.dests@.take(i as int), before, endpoint);
            if has_row(&self.added, want) {
                assert(old(self).ops.calls() + (prev.1 + Seq::<EgressCall>::empty()) =~= old(self).ops.calls()
                    + prev.1);
                assert forall|t: RouteRow| self.added@.contains(t) && t.0 == dest implies t == want by {
                    let a = choose|a: int| 0 <= a < self.added@.len() && self.added@[a] == t;
                    let b = choose|b: int| 0 <= b < self.added@.len() && self.added@[b] == want;
                    if a != b {
                        if a < b {
                            assert(self.added@[a].0 != self.added@[b].0);
                        } else {
                            assert(self.added@[b].0 != self.added@[a].0);
                        }
                    }
                }
            } else {
                let ghost cur = self.added@;
                let ghost calls_before = self.ops.calls();
                let mut kept: Vec<RouteRow> = Vec::new();
                let mut k: usize = 0;
                while k < self.added.len()
                    invariant
                        k <= self.added@.len(),
                        self.added@ == cur,
                        i < self.dests@.len(),
                        self.dests@ == old(self).dests@,
                        self.applied_endpoint == old(self).applied_endpoint,
                        unique_dests(cur),
                        unique_dests(kept@),
                        forall|t: RouteRow| kept@.contains(t) ==> t.0 != dest,
                        forall|t: RouteRow|
                            kept@.contains(t) <==> (cur.take(k as int).contains(t) && t.0 != dest),
                        kept@ == rows_to(cur.take(k as int), dest, false),
                        self.ops.calls() == calls_before + delete_calls(rows_to(cur.take(k as int), dest, true)),
                    decreases self.added.len() - k,
                {
                    let row = self.added[k];
                    assert(cur.take(k + 1) =~= cur.take(k as int).push(row));
                    assert(cur.take(k + 1).drop_last() =~= cur.take(k as int));
                    let ghost gone = rows_to(cur.take(k as int), dest, true);
                    if same_ip(row.0, dest) {
                        self.ops.delete_route(row.0, row.1, row.2);
                        assert(calls_before + delete_calls(gone.push(row)) =~= (calls_before + delete_calls(
                            gone,
                        )).push(EgressCall::DeleteRoute(row)));
                    } else {
                        proof {
                            lemma_push_unique(kept@, cur, k as int);
                        }
                        kept.push(row);
                    }
                    k = k + 1;
                }
                assert(cur.take(cur.len() as int) =~= cur);
                self.ops.add_route(dest, endpoint.gateway, endpoint.ifindex);
                assert(old(self).ops.calls() + (prev.1 + delete_calls(rows_to(cur, dest, true)).push(
                    EgressCall::AddRoute(want),
                )) =~= (old(self).ops.calls() + prev.1 + delete_calls(rows_to(cur, dest, true))).push(
                    EgressCall::AddRoute(want),
                ));
                proof {
                    assert forall|a: int, b: int| 0 <= a < b < kept@.push(want).len() implies (#[trigger] kept@.push(want)[a]).0 != (#[trigger] kept@.push(want)[b]).0 by {
                        if b == kept@.len() {
                            assert(kept@.contains(kept@[a]));
                        }
                    }
                }
                kept.push(want);
                self.added = kept;
            }
            i = i + 1;
        }
        assert(self.dests@.take(self.dests@.len() as int) =~= self.dests@);
        self.applied_endpoint = Some(endpoint);
        ROUTE_SETTLE_MS
    }

    /// The settle wait (ms).
    pub fn wait_ready(&self) -> (r: u64)
        ensures
            r == ROUTE_SETTLE_MS,
    {
        ROUTE_SETTLE_MS
    }

    /// Raises the WLAN metric to `target` (zero leaves it alone).
    pub fn suppress_metric(&mut self, endpoint: WlanEndpoint, target: u32)
        requires
            old(self).wf(),
        ensures
            final(self).wf(),
            final(self).dests() == old(self).dests(),
            final(self).added() == old(self).added(),
            final(self).applied_endpoint() == if target == 0 {
                old(self).applied_endpoint()
            } else {
                Some(endpoint)
            },
            final(self).adapter().calls() == if target == 0 {
                old(self).adapter().calls()
            } else {
                old(self).adapter().calls().push(
                    EgressCall::SuppressMetric { ifindex: endpoint.ifindex, target },
                )
            },
    {
        if target == 0 {
            return;
        }
        self.ops.suppress_metric(endpoint.ifindex, target);
        self.applied_endpoint = Some(endpoint);
    }

    /// Restores the metric of the applied endpoint, if any.
    pub fn release_metric(&mut self)
        requires
            old(self).wf(),
        ensures
            final(self).wf(),
            final(self).dests() == old(self).dests(),
            final(self).added() == old(self).added(),
            final(self).applied_endpoint() == old(self).applied_endpoint(),
            final(self).adapter().calls() == old(self).adapter().calls() + restore_calls(
                old(self).applied_endpoint(),
            ),
    {
        match self.applied_endpoint {
            Some(endpoint) => self.ops.restore_metric(endpoint.ifindex),
            None => {},
        }
    }

    /// Releases everything: the routes and the metric; the ledger can be used again.
    pub fn release(&mut self)
        requires
            old(self).wf(),
        ensures
            final(self).wf(),
            final(self).dests() == old(self).dests(),
            final(self).added() == Seq::<RouteRow>::empty(),
            final(self).applied_endpoint() is None,
            final(self).adapter().calls() == old(self).adapter().calls() + delete_calls(old(self).added())
                + restore_calls(old(self).applied_endpoint()),
    {
        let mut k: usize = 0;
        while k < self.added.len()
            invariant
                k <= self.added@.len(),
                self.dests@ == old(self).dests@,
                self.added@ == old(self).added@,
                self.applied_endpoint == old(self).applied_endpoint,
                self.ops.calls() == old(self).ops.calls() + delete_calls(self.added@.take(k as int)),
            decreases self.added.len() - k,
        {
            let row = self.added[k];
            self.ops.delete_route(row.0, row.1, row.2);
            assert(self.added@.take(k + 1) =~= self.added@.take(k as int).push(row));
            assert(old(self).ops.calls() + delete_calls(self.added@.take(k + 1)) =~= (old(self).ops.calls()
                + delete_calls(self.added@.take(k as int))).push(EgressCall::DeleteRoute(row)));
            k = k + 1;
        }
        assert(self.added@.take(self.added@.len() as int) =~= self.added@);
        self.added = Vec::new();
        self.release_metric();
        self.applied_endpoint = None;
    }

    /// The adapter, for inspection.
    pub fn ops(&self) -> (r: &T)
        ensures
            *r == self.adapter(),
    {
        &self.ops
    }
}

/// Acquiring twice over the same endpoint changes nothing the second time,
/// and acquiring over a new endpoint keeps no route over the old one to an
/// owned destination.
pub proof fn lemma_acquire_replaces(
    dests: Seq<[u8; 4]>,
    before: Seq<RouteRow>,
    after: Seq<RouteRow>,
    endpoint: WlanEndpoint,
    t: RouteRow,
)
    requires
        forall|u: RouteRow|
            after.contains(u) <==> if dests.contains(u.0) {
                u.1 == endpoint.gateway && u.2 == endpoint.ifindex
            } else {
                before.contains(u)
            },
        dests.contains(t.0),
        t.1 != endpoint.gateway || t.2 != endpoint.ifindex,
    ensures
        !after.contains(t),
{
}

/// One IPv4 route of the system's forwarding table, as sampled by the shell.
#[derive(Debug, Clone, Copy, PartialEq, Eq)]
pub struct ForwardRoute {
    /// Created by network management (as the service's host routes are).
    pub netmgmt: bool,
    pub prefix_len: u8,
    pub dest: [u8; 4],
    pub next_hop: [u8; 4],
    pub ifindex: u32,
}

/// A route left over from an earlier run: a host route made by network
/// management to a destination the service owns.
pub open spec fn is_stale(r: ForwardRoute, dests: Seq<[u8; 4]>) -> bool {
    r.netmgmt && r.prefix_len == 32 && dests.contains(r.dest)
}

/// The leftover routes of a table, in table order, to delete at start.
pub open spec fn spec_stale_routes(table: Seq<ForwardRoute>, dests: Seq<[u8; 4]>) -> Seq<RouteRow>
    decreases table.len(),
{
    if table.len() == 0 {
        Seq::empty()
    } else {
        let rest = spec_stale_routes(table.drop_last(), dests);
        let r = table.last();
        if is_stale(r, dests) {
            rest.push((r.dest, r.next_hop, r.ifindex))
        } else {
            rest
        }
    }
}

fn owns(dests: &[[u8; 4]], d: [u8; 4]) -> (r: bool)
    ensures
        r == dests@.contains(d),
{
    let mut i: usize = 0;
    while i < dests.len()
        invariant
            i <= dests@.len(),
            forall|j: int| 0 <= j < i ==> dests@[j] != d,
        decreases dests.len() - i,
    {
        let x = dests[i];
        if x[0] == d[0] && x[1] == d[1] && x[2] == d[2] && x[3] == d[3] {
            assert(x =~= d);
            assert(dests@[i as int] == d);
            return true;
        }
        i = i + 1;
    }
    false
}

/// The routes to delete when the service starts: host routes made by
/// network management to an owned destination.
pub fn stale_routes(table: &[ForwardRoute], dests: &[[u8; 4]]) -> (r: Vec<RouteRow>)
    ensures
        r@ == spec_stale_routes(table@, dests@),
{
    let mut out: Vec<RouteRow> = Vec::new();
    let mut i: usize = 0;
    while i < table.len()
        invariant
            i <= table@.len(),
            out@ == spec_stale_routes(table@.take(i as int), dests@),
        decreases table.len() - i,
    {
        let r = table[i];
        assert(table@.take(i + 1).drop_last() =~= table@.take(i as int));
        if r.netmgmt && r.prefix_len == 32 && owns(dests, r.dest) {
            out.push((r.dest, r.next_hop, r.ifindex));
        }
        i = i + 1;
    }
    assert(table@.take(table@.len() as int) =~= table@);
    out
}

} // verus!

use std::cell::RefCell;
use std::rc::Rc;

use gdut_net::egress::{
    stale_routes, EgressOps, ForwardRoute, MetricChange, WirelessEgress, WlanEndpoint, ROUTE_SETTLE_MS,
};

#[derive(Default)]
struct Ledger {
    routes: Vec<([u8; 4], [u8; 4], u32)>,
    metrics: Vec<MetricChange>,
    released: Vec<u32>,
}

struct ScriptedOps {
    ledger: Rc<RefCell<Ledger>>,
}

impl EgressOps for ScriptedOps {
    fn add_route(&mut self, dest: [u8; 4], gateway: [u8; 4], ifindex: u32) {
        self.ledger.borrow_mut().routes.push((dest, gateway, ifindex));
    }

    fn delete_route(&mut self, dest: [u8; 4], gateway: [u8; 4], ifindex: u32) {
        self.ledger
            .borrow_mut()
            .routes
            .retain(|row| *row != (dest, gateway, ifindex));
    }

    fn suppress_metric(&mut self, ifindex: u32, metric: u32) {
        self.ledger
            .borrow_mut()
            .metrics
            .push(MetricChange { ifindex, metric });
    }

    fn restore_metric(&mut self, ifindex: u32) {
        self.ledger.borrow_mut().released.push(ifindex);
    }
}

fn ip(n: u8) -> [u8; 4] {
    [10, 0, 3, n]
}

fn endpoint(ifindex: u32) -> WlanEndpoint {
    WlanEndpoint {
        gateway: ip(1),
        ifindex,
    }
}

fn egress() -> (WirelessEgress<ScriptedOps>, Rc<RefCell<Ledger>>) {
    let ledger = Rc::new(RefCell::new(Ledger::default()));
    let mut egress = WirelessEgress::new(ScriptedOps {
        ledger: ledger.clone(),
    });
    egress.own_destinations(&[ip(2), ip(3)]);
    (egress, ledger)
}

#[test]
fn acquire_adds_owned_destinations_and_returns_ready_wait() {
    let (mut egress, ledger) = egress();
    assert_eq!(egress.acquire(endpoint(15)), ROUTE_SETTLE_MS);
    assert_eq!(
        ledger.borrow().routes,
        vec![(ip(2), ip(1), 15), (ip(3), ip(1), 15)]
    );
    assert_eq!(egress.wait_ready(), ROUTE_SETTLE_MS);
}

#[test]
fn reacquire_migrates_only_changed_tuples() {
    let (mut egress, ledger) = egress();
    egress.acquire(endpoint(15));
    egress.acquire(endpoint(16));
    assert_eq!(
        ledger.borrow().routes,
        vec![(ip(2), ip(1), 16), (ip(3), ip(1), 16)]
    );
}

#[test]
fn release_deletes_routes_and_restores_metric_once() {
    let (mut egress, ledger) = egress();
    egress.acquire(endpoint(15));
    egress.suppress_metric(endpoint(15), 100);
    egress.release();
    egress.release();
    assert!(ledger.borrow().routes.is_empty());
    assert_eq!(ledger.borrow().released, vec![15]);
}

#[test]
fn zero_metric_remains_unmanaged() {
    let (mut egress, ledger) = egress();
    egress.suppress_metric(endpoint(15), 0);
    assert!(ledger.borrow().metrics.is_empty());
    egress.release();
    assert!(ledger.borrow().released.is_empty());
}

#[test]
fn reacquire_over_the_same_endpoint_changes_nothing() {
    let (mut egress, ledger) = egress();
    egress.acquire(endpoint(15));
    egress.acquire(endpoint(15));
    assert_eq!(
        ledger.borrow().routes,
        vec![(ip(2), ip(1), 15), (ip(3), ip(1), 15)]
    );
}

#[test]
fn disowned_destination_loses_its_route() {
    let (mut egress, ledger) = egress();
    egress.acquire(endpoint(15));
    egress.own_destinations(&[ip(3)]);
    assert_eq!(ledger.borrow().routes, vec![(ip(3), ip(1), 15)]);
    egress.release();
    assert!(ledger.borrow().routes.is_empty());
}

#[test]
fn leftover_host_routes_to_owned_destinations_are_found() {
    let route = |netmgmt: bool, prefix_len: u8, dest: [u8; 4]| ForwardRoute {
        netmgmt,
        prefix_len,
        dest,
        next_hop: [172, 16, 0, 1],
        ifindex: 9,
    };
    let table = vec![
        route(true, 32, [10, 0, 3, 2]),
        route(false, 32, [10, 0, 3, 2]),
        route(true, 24, [10, 0, 3, 0]),
        route(true, 32, [8, 8, 8, 8]),
        route(true, 32, [223, 5, 5, 5]),
    ];
    let owned = [[10, 0, 3, 2], [223, 5, 5, 5]];
    assert_eq!(
        stale_routes(&table, &owned),
        vec![([10, 0, 3, 2], [172, 16, 0, 1], 9), ([223, 5, 5, 5], [172, 16, 0, 1], 9)]
    );
    assert!(stale_routes(&table, &[]).is_empty());
}

#[test]
fn explicit_release_before_scope_exit_removes_routes() {
    let (mut egress, ledger) = egress();
    egress.acquire(endpoint(15));
    {
        let mut owned = egress;
        owned.release();
    }
    assert!(ledger.borrow().routes.is_empty());
}

struct OrderedOps {
    log: Rc<RefCell<Vec<String>>>,
}

impl EgressOps for OrderedOps {
    fn add_route(&mut self, dest: [u8; 4], gateway: [u8; 4], ifindex: u32) {
        self.log.borrow_mut().push(format!("add {:?} {:?} {}", dest, gateway, ifindex));
    }

    fn delete_route(&mut self, dest: [u8; 4], gateway: [u8; 4], ifindex: u32) {
        self.log.borrow_mut().push(format!("delete {:?} {:?} {}", dest, gateway, ifindex));
    }

    fn suppress_metric(&mut self, ifindex: u32, metric: u32) {
        self.log.borrow_mut().push(format!("suppress {} {}", ifindex, metric));
    }

    fn restore_metric(&mut self, ifindex: u32) {
        self.log.borrow_mut().push(format!("restore {}", ifindex));
    }
}

#[test]
fn release_deletes_in_ledger_order_then_restores() {
    let log = Rc::new(RefCell::new(Vec::new()));
    let mut egress = WirelessEgress::new(OrderedOps { log: log.clone() });
    egress.own_destinations(&[ip(2), ip(3)]);
    egress.acquire(endpoint(15));
    egress.suppress_metric(endpoint(15), 100);
    egress.acquire(endpoint(16));
    egress.release();
    assert_eq!(
        *log.borrow(),
        vec![
            "add [10, 0, 3, 2] [10, 0, 3, 1] 15".to_string(),
            "add [10, 0, 3, 3] [10, 0, 3, 1] 15".to_string(),
            "suppress 15 100".to_string(),
            "delete [10, 0, 3, 2] [10, 0, 3, 1] 15".to_string(),
            "add [10, 0, 3, 2] [10, 0, 3, 1] 16".to_string(),
            "delete [10, 0, 3, 3] [10, 0, 3, 1] 15".to_string(),
            "add [10, 0, 3, 3] [10, 0, 3, 1] 16".to_string(),
            "delete [10, 0, 3, 2] [10, 0, 3, 1] 16".to_string(),
            "delete [10, 0, 3, 3] [10, 0, 3, 1] 16".to_string(),
            "restore 16".to_string(),
        ]
    );
}

struct ReleaseOnDrop(WirelessEgress<ScriptedOps>);

impl Drop for ReleaseOnDrop {
    fn drop(&mut self) {
        self.0.release();
    }
}

#[test]
fn drop_releases_routes_after_scope_exit() {
    let (mut egress, ledger) = egress();
    egress.acquire(endpoint(15));
    {
        let _owned = ReleaseOnDrop(egress);
    }
    assert!(ledger.borrow().routes.is_empty());
}

use pktio::port::{link_pair, BackendKind, PortState};
use pktio::registry::{disable_ipv6, BindOutcome, Params, PortError, Registry};
use pktio::shared_queue::RecycleQueue;

#[test]
fn duplicate_interface_is_refused() {
    let mut glob = Registry::new();
    let (end_a, end_b) = link_pair(2);
    let q = RecycleQueue::with_capacity(2);
    let first = glob
        .add(Params {
            name: String::from("r2_eth1"),
            hw: BackendKind::AfPacket,
            link: end_a,
            recycle: q.share(),
            bind: BindOutcome::Bound,
        })
        .expect("first bind succeeds");
    assert_eq!(first.state(), PortState::Up);

    let second = glob.add(Params {
        name: String::from("r2_eth1"),
        hw: BackendKind::AfPacket,
        link: end_b,
        recycle: q.share(),
        bind: BindOutcome::Bound,
    });
    match second {
        Err(PortError::DuplicateInterface) => {},
        other => panic!("expected a duplicate-interface error, got {:?}", other.map(|p| p.state())),
    }

    // The first port is untouched by the refused bind.
    assert_eq!(first.state(), PortState::Up);
    assert_eq!(first.name().as_str(), "r2_eth1");
}

#[test]
fn distinct_interfaces_both_bind() {
    let mut glob = Registry::new();
    let (end_a, end_b) = link_pair(2);
    let q = RecycleQueue::with_capacity(2);
    let a = glob
        .add(Params {
            name: String::from("r2_eth1"),
            hw: BackendKind::AfPacket,
            link: end_a,
            recycle: q.share(),
            bind: BindOutcome::Bound,
        })
        .expect("first bind succeeds");
    let b = glob
        .add(Params {
            name: String::from("r2_eth2"),
            hw: BackendKind::Dpdk,
            link: end_b,
            recycle: q.share(),
            bind: BindOutcome::Bound,
        })
        .expect("second bind succeeds");
    assert_eq!(a.name().as_str(), "r2_eth1");
    assert_eq!(b.name().as_str(), "r2_eth2");
}

#[test]
fn ipv6_sysctl_key_is_exact() {
    assert_eq!(disable_ipv6("r2_eth1"), "net.ipv6.conf.r2_eth1.disable_ipv6=1");
    assert_eq!(disable_ipv6("r2_eth2"), "net.ipv6.conf.r2_eth2.disable_ipv6=1");
    assert_eq!(disable_ipv6(""), "net.ipv6.conf..disable_ipv6=1");
}

#[test]
fn failed_bind_surfaces_its_error_and_records_nothing() {
    let mut glob = Registry::new();
    let q = RecycleQueue::with_capacity(2);

    let (end_a, end_b) = link_pair(2);
    let r = glob.add(Params {
        name: String::from("r2_eth3"),
        hw: BackendKind::AfPacket,
        link: end_a,
        recycle: q.share(),
        bind: BindOutcome::InterfaceMissing,
    });
    assert_eq!(r.map(|p| p.state()), Err(PortError::InterfaceMissing));

    // Nothing was recorded: the same name binds once the bind succeeds.
    let r = glob.add(Params {
        name: String::from("r2_eth3"),
        hw: BackendKind::AfPacket,
        link: end_b,
        recycle: q.share(),
        bind: BindOutcome::Bound,
    });
    assert_eq!(r.expect("second try binds").state(), PortState::Up);
}

#[test]
fn permission_denied_and_backend_init_map_through() {
    let mut glob = Registry::new();
    let q = RecycleQueue::with_capacity(2);
    let (end_a, end_b) = link_pair(2);
    let r = glob.add(Params {
        name: String::from("r2_eth4"),
        hw: BackendKind::AfPacket,
        link: end_a,
        recycle: q.share(),
        bind: BindOutcome::PermissionDenied,
    });
    assert_eq!(r.map(|p| p.state()), Err(PortError::PermissionDenied));
    let r = glob.add(Params {
        name: String::from("r2_eth4"),
        hw: BackendKind::Dpdk,
        link: end_b,
        recycle: q.share(),
        bind: BindOutcome::BackendInit,
    });
    assert_eq!(r.map(|p| p.state()), Err(PortError::BackendInit));
}

#[test]
fn duplicate_refused_before_the_bind_outcome_is_read() {
    let mut glob = Registry::new();
    let q = RecycleQueue::with_capacity(2);
    let (end_a, end_b) = link_pair(2);
    glob.add(Params {
        name: String::from("r2_eth5"),
        hw: BackendKind::Dpdk,
        link: end_a,
        recycle: q.share(),
        bind: BindOutcome::Bound,
    })
    .expect("first bind succeeds");
    let r = glob.add(Params {
        name: String::from("r2_eth5"),
        hw: BackendKind::Dpdk,
        link: end_b,
        recycle: q.share(),
        bind: BindOutcome::BackendInit,
    });
    assert_eq!(r.map(|p| p.state()), Err(PortError::DuplicateInterface));
}

use corgi::balancer::{backend_addr, Balancer};
use corgi::{bootstrap, control_plane};

fn pool() -> Vec<control_plane::Node> {
    vec![
        control_plane::Node { id: 1, hostname: "localhost".to_string(), port: 5510 },
        control_plane::Node { id: 2, hostname: "localhost".to_string(), port: 5511 },
        control_plane::Node { id: 3, hostname: "otherhost".to_string(), port: 70000 },
    ]
}

#[test]
fn backend_addresses_are_host_and_port() {
    assert_eq!(backend_addr("localhost", 5510), "localhost:5510");
    assert_eq!(backend_addr("", 0), ":0");
    assert_eq!(backend_addr("h", u32::MAX), "h:4294967295");
}

#[test]
fn new_caller_gets_the_picked_backend() {
    let mut b = Balancer::for_pool(&pool());
    assert_eq!(b.pool_len(), 3);
    assert_eq!(b.lookup(&"1.2.3.4:99".to_string()), None);
    assert_eq!(b.route_with_pick("1.2.3.4:99".to_string(), 2), "otherhost:70000");
    assert_eq!(b.lookup(&"1.2.3.4:99".to_string()), Some("otherhost:70000".to_string()));
}

#[test]
fn sessions_are_sticky() {
    let mut b = Balancer::for_pool(&pool());
    let first = b.route_with_pick("c".to_string(), 1);
    assert_eq!(first, "localhost:5511");
    assert_eq!(b.route_with_pick("c".to_string(), 0), first);
    assert_eq!(b.route_with_pick("c".to_string(), 2), first);
    for _ in 0..10 {
        assert_eq!(b.route("c".to_string()), first);
    }
}

#[test]
fn other_callers_keep_their_sessions() {
    let mut b = Balancer::for_pool(&pool());
    b.route_with_pick("a".to_string(), 0);
    b.route_with_pick("b".to_string(), 2);
    assert_eq!(b.lookup(&"a".to_string()), Some("localhost:5510".to_string()));
    assert_eq!(b.lookup(&"b".to_string()), Some("otherhost:70000".to_string()));
    assert!(b.has_session(&"a".to_string()));
    assert!(!b.has_session(&"z".to_string()));
}

#[test]
fn random_routes_stay_in_the_pool() {
    let addrs: Vec<String> = pool().iter().map(|n| format!("{}:{}", n.hostname, n.port)).collect();
    let mut b = Balancer::for_pool(&pool());
    for i in 0..100 {
        let caller = format!("10.0.0.{}:4000", i);
        let backend = b.route(caller.clone());
        assert!(addrs.contains(&backend));
        assert_eq!(b.route(caller), backend);
    }
}

#[test]
fn local_pool_addresses() {
    let nodes = bootstrap::node_pool(2, "localhost", 5510);
    let mut b = Balancer::for_local_pool(&nodes);
    assert_eq!(b.pool_len(), 2);
    assert_eq!(b.route_with_pick("x".to_string(), 1), "localhost:5511");
    assert_eq!(b.route_with_pick("y".to_string(), 0), "localhost:5510");
}

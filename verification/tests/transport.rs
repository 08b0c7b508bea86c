use aleph_ordering::network::{peer_port, Recipient, SimpleNetwork};

fn endpoints(n: usize) -> Vec<String> {
    let mut v = Vec::new();
    for i in 0..n {
        v.push(format!("127.0.0.1:{}", 9900 + i));
    }
    v
}

#[test]
fn lookups_succeed_for_every_participant_after_startup() {
    let mut net = SimpleNetwork::new(1);
    let eps = endpoints(4);
    net.populate(&eps);
    for (i, ep) in eps.iter().enumerate() {
        assert_eq!(net.get_address(i), Some(ep));
    }
}

#[test]
fn lookup_of_unregistered_index_is_none() {
    let mut net = SimpleNetwork::new(0);
    net.populate(&endpoints(3));
    assert_eq!(net.get_address(3), None);
    assert_eq!(net.get_address(100), None);
}

#[test]
fn add_address_overwrites_and_grows() {
    let mut net = SimpleNetwork::new(0);
    net.add_address(2, "127.0.0.1:9000".to_string());
    assert_eq!(net.get_address(0), None);
    assert_eq!(net.get_address(1), None);
    assert_eq!(net.get_address(2), Some(&"127.0.0.1:9000".to_string()));
    net.add_address(2, "127.0.0.1:9001".to_string());
    assert_eq!(net.get_address(2), Some(&"127.0.0.1:9001".to_string()));
}

#[test]
fn broadcast_targets_everyone_but_self() {
    let mut net = SimpleNetwork::new(1);
    net.populate(&endpoints(4));
    let targets = net.send_targets(&Recipient::Everyone);
    assert_eq!(targets, vec![0, 2, 3]);
}

#[test]
fn single_recipient_target_is_that_node() {
    let mut net = SimpleNetwork::new(1);
    net.populate(&endpoints(4));
    let targets = net.send_targets(&Recipient::Node(2));
    assert_eq!(targets, vec![2]);
}

#[test]
fn unknown_single_recipient_is_a_no_op() {
    let mut net = SimpleNetwork::new(1);
    net.populate(&endpoints(4));
    let targets = net.send_targets(&Recipient::Node(9));
    assert!(targets.is_empty());
}

#[test]
fn self_as_single_recipient_is_still_addressed() {
    // Self-exclusion applies to broadcasts only; a directed send to the own
    // index resolves like any other registered recipient.
    let mut net = SimpleNetwork::new(1);
    net.populate(&endpoints(4));
    assert_eq!(net.send_targets(&Recipient::Node(1)), vec![1]);
}

#[test]
fn peer_ports_are_base_plus_index() {
    assert_eq!(peer_port(0), 9900);
    assert_eq!(peer_port(4), 9904);
}

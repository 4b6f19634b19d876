use portfwd::relay::{Direction, Flow, Relay, Side};

#[test]
fn outbound_copies_from_client_to_destination() {
    assert_eq!(Direction::Outbound.source(), Side::Client);
    assert_eq!(Direction::Outbound.sink(), Side::Destination);
}

#[test]
fn inbound_copies_from_destination_to_client() {
    assert_eq!(Direction::Inbound.source(), Side::Destination);
    assert_eq!(Direction::Inbound.sink(), Side::Client);
}

#[test]
fn directions_are_opposite_to_each_other() {
    assert_eq!(Direction::Outbound.opposite(), Direction::Inbound);
    assert_eq!(Direction::Inbound.opposite(), Direction::Outbound);
    for direction in [Direction::Outbound, Direction::Inbound] {
        assert_eq!(direction.opposite().opposite(), direction);
        assert_eq!(direction.opposite().source(), direction.sink());
        assert_eq!(direction.opposite().sink(), direction.source());
        assert_ne!(direction.source(), direction.sink());
    }
}

#[test]
fn ending_is_closed_when_clean_and_failed_when_not() {
    assert_eq!(Flow::ending(true), Flow::Closed);
    assert_eq!(Flow::ending(false), Flow::Failed);
}

#[test]
fn new_relay_copies_both_ways() {
    let relay = Relay::new();
    assert_eq!(relay.flow(Direction::Outbound), Flow::Open);
    assert_eq!(relay.flow(Direction::Inbound), Flow::Open);
    assert!(relay.is_live());
}

#[test]
fn client_half_close_leaves_inbound_copying() {
    let mut relay = Relay::new();
    relay.end(Direction::Outbound, true);
    assert_eq!(relay.flow(Direction::Outbound), Flow::Closed);
    assert_eq!(relay.flow(Direction::Inbound), Flow::Open);
    assert!(relay.is_live());
}

#[test]
fn destination_half_close_leaves_outbound_copying() {
    let mut relay = Relay::new();
    relay.end(Direction::Inbound, true);
    assert_eq!(relay.flow(Direction::Inbound), Flow::Closed);
    assert_eq!(relay.flow(Direction::Outbound), Flow::Open);
    assert!(relay.is_live());
}

#[test]
fn failure_of_one_direction_leaves_the_other_copying() {
    for direction in [Direction::Outbound, Direction::Inbound] {
        let mut relay = Relay::new();
        relay.end(direction, false);
        assert_eq!(relay.flow(direction), Flow::Failed);
        assert_eq!(relay.flow(direction.opposite()), Flow::Open);
        assert!(relay.is_live());
    }
}

#[test]
fn relay_is_over_when_both_directions_have_ended() {
    let mut relay = Relay::new();
    relay.end(Direction::Outbound, true);
    relay.end(Direction::Inbound, false);
    assert_eq!(relay, Relay { outbound: Flow::Closed, inbound: Flow::Failed });
    assert!(!relay.is_live());
}

#[test]
fn directions_may_end_in_either_order() {
    for first in [false, true] {
        for second in [false, true] {
            let mut one = Relay::new();
            one.end(Direction::Outbound, first);
            one.end(Direction::Inbound, second);
            let mut other = Relay::new();
            other.end(Direction::Inbound, second);
            other.end(Direction::Outbound, first);
            assert_eq!(one, other);
            assert!(!one.is_live());
        }
    }
}

#[test]
fn an_ended_direction_keeps_its_first_ending() {
    let mut relay = Relay::new();
    relay.end(Direction::Outbound, false);
    relay.end(Direction::Outbound, true);
    assert_eq!(relay.flow(Direction::Outbound), Flow::Failed);
    assert_eq!(relay.flow(Direction::Inbound), Flow::Open);

    let mut relay = Relay::new();
    relay.end(Direction::Inbound, true);
    relay.end(Direction::Inbound, false);
    assert_eq!(relay.flow(Direction::Inbound), Flow::Closed);
}

use portfwd::datagram::{
    receive_buffer, Datagram, DatagramAction, DatagramEvent, DatagramLoop, DATAGRAM_CAPACITY,
};
use portfwd::endpoint::ListenEndpoint;
use portfwd::fault::Fault;
use portfwd::features::Protocol;

type Event = DatagramEvent<String>;
type Action = DatagramAction<String>;

/// Stands in for the socket: puts as much of `wire` as fits at the start of a
/// fresh receive buffer and gives the buffer with the number of bytes put.
fn receive(wire: &[u8]) -> (Vec<u8>, usize) {
    let mut buffer = receive_buffer();
    let size = wire.len().min(buffer.len());
    buffer[..size].copy_from_slice(&wire[..size]);
    (buffer, size)
}

fn datagram(wire: &[u8]) -> Datagram {
    let (buffer, size) = receive(wire);
    match Datagram::new(buffer, size) {
        Some(datagram) => datagram,
        None => panic!("a receive buffer and its size make a datagram"),
    }
}

fn pattern(len: usize) -> Vec<u8> {
    (0..len).map(|i| (i * 7 + 3) as u8).collect()
}

fn sent(action: Action) -> Vec<u8> {
    match action {
        DatagramAction::Send(datagram) => datagram.payload().to_vec(),
        other => panic!("expected a send, got {:?}", other),
    }
}

#[test]
fn capacity_is_1024_bytes() {
    assert_eq!(DATAGRAM_CAPACITY, 1024);
}

#[test]
fn receive_buffer_is_1024_zero_bytes() {
    let buffer = receive_buffer();
    assert_eq!(buffer.len(), 1024);
    assert!(buffer.iter().all(|byte| *byte == 0));
}

#[test]
fn datagram_holds_the_bytes_received() {
    let mut buffer = receive_buffer();
    buffer[0] = 10;
    buffer[1] = 20;
    buffer[2] = 30;
    buffer[3] = 40;
    let datagram = Datagram::new(buffer, 3).expect("size within the buffer");
    assert_eq!(datagram.payload(), &[10u8, 20, 30][..]);
    assert_eq!(datagram.len(), 3);
}

#[test]
fn empty_datagram_is_relayed_empty() {
    let datagram = datagram(&[]);
    assert_eq!(datagram.len(), 0);
    assert_eq!(datagram.payload(), &[0u8; 0][..]);
}

#[test]
fn datagram_needs_size_within_the_buffer() {
    assert!(Datagram::new(receive_buffer(), 1024).is_some());
    assert!(Datagram::new(receive_buffer(), 1025).is_none());
    assert!(Datagram::new(receive_buffer(), usize::MAX).is_none());
}

#[test]
fn datagram_needs_a_buffer_of_the_capacity() {
    assert!(Datagram::new(vec![0u8; 1023], 10).is_none());
    assert!(Datagram::new(vec![0u8; 1025], 10).is_none());
    assert!(Datagram::new(Vec::new(), 0).is_none());
    assert!(Datagram::new(vec![0u8; 2048], 2048).is_none());
    assert!(Datagram::new(vec![1u8; 1024], 10).is_some());
}

#[test]
fn small_datagram_is_relayed_whole() {
    let wire = b"hello, destination".to_vec();
    let datagram = datagram(&wire);
    assert_eq!(datagram.payload(), &wire[..]);
    assert_eq!(datagram.len(), 18);
}

#[test]
fn datagram_of_exactly_the_capacity_is_relayed_whole() {
    let wire = pattern(1024);
    let datagram = datagram(&wire);
    assert_eq!(datagram.len(), 1024);
    assert_eq!(datagram.payload(), &wire[..]);
}

#[test]
fn datagram_one_byte_over_is_cut_to_1024() {
    let wire = pattern(1025);
    let datagram = datagram(&wire);
    assert_eq!(datagram.len(), 1024);
    assert_eq!(datagram.payload(), &wire[..1024]);
}

#[test]
fn long_datagram_is_cut_to_its_first_1024_bytes() {
    let wire = pattern(1500);
    let datagram = datagram(&wire);
    assert_eq!(datagram.len(), 1024);
    assert_eq!(datagram.payload(), &wire[..1024]);
    assert_eq!(datagram.payload()[1023], wire[1023]);
}

#[test]
fn datagram_loop_starts_by_binding_udp_loopback() {
    let (state, action): (DatagramLoop, Action) = DatagramLoop::start(53);
    assert_eq!(state, DatagramLoop::Unbound);
    match action {
        DatagramAction::Bind(endpoint) => assert_eq!(
            endpoint,
            ListenEndpoint { protocol: Protocol::Udp, octets: [127, 0, 0, 1], port: 53 }
        ),
        other => panic!("expected a bind, got {:?}", other),
    }
    assert!(!state.is_stopped());
}

#[test]
fn bound_loop_receives() {
    let (state, action) = DatagramLoop::Unbound.step::<String>(DatagramEvent::Bound);
    assert_eq!(state, DatagramLoop::Receiving);
    assert!(matches!(action, DatagramAction::Receive));
}

#[test]
fn received_datagram_is_sent_unchanged() {
    let wire = pattern(300);
    let (state, action) =
        DatagramLoop::Receiving.step::<String>(DatagramEvent::Received(datagram(&wire)));
    assert_eq!(state, DatagramLoop::Sending);
    assert_eq!(sent(action), wire);
}

#[test]
fn sent_datagram_is_followed_by_a_receive() {
    let (state, action) = DatagramLoop::Sending.step::<String>(DatagramEvent::Sent);
    assert_eq!(state, DatagramLoop::Receiving);
    assert!(matches!(action, DatagramAction::Receive));
}

#[test]
fn each_datagram_is_sent_once_and_in_order() {
    let wires: Vec<Vec<u8>> = vec![pattern(1), pattern(512), pattern(1024), pattern(2000), vec![]];
    let mut state = DatagramLoop::Unbound;
    let (next, action) = state.step::<String>(DatagramEvent::Bound);
    state = next;
    assert!(matches!(action, DatagramAction::Receive));
    let mut forwarded: Vec<Vec<u8>> = Vec::new();
    for wire in &wires {
        let (next, action) = state.step::<String>(DatagramEvent::Received(datagram(wire)));
        state = next;
        assert_eq!(state, DatagramLoop::Sending);
        forwarded.push(sent(action));
        let (next, action) = state.step::<String>(DatagramEvent::Sent);
        state = next;
        assert_eq!(state, DatagramLoop::Receiving);
        assert!(matches!(action, DatagramAction::Receive));
    }
    assert_eq!(forwarded.len(), 5);
    assert_eq!(forwarded[0], wires[0]);
    assert_eq!(forwarded[1], wires[1]);
    assert_eq!(forwarded[2], wires[2]);
    assert_eq!(forwarded[3], wires[3][..1024].to_vec());
    assert_eq!(forwarded[4], Vec::<u8>::new());
}

#[test]
fn bind_failure_stops_the_datagram_loop() {
    let event: Event = DatagramEvent::Failed("address in use".to_string());
    let (state, action) = DatagramLoop::Unbound.step(event);
    assert_eq!(state, DatagramLoop::Stopped);
    assert!(matches!(action, DatagramAction::Stop(Fault::Io(error)) if error == "address in use"));
    assert!(state.is_stopped());
}

#[test]
fn receive_failure_stops_the_datagram_loop() {
    let event: Event = DatagramEvent::Failed("receive failed".to_string());
    let (state, action) = DatagramLoop::Receiving.step(event);
    assert_eq!(state, DatagramLoop::Stopped);
    assert!(matches!(action, DatagramAction::Stop(Fault::Io(error)) if error == "receive failed"));
}

#[test]
fn send_failure_stops_the_datagram_loop() {
    let event: Event = DatagramEvent::Failed("network unreachable".to_string());
    let (state, action) = DatagramLoop::Sending.step(event);
    assert_eq!(state, DatagramLoop::Stopped);
    assert!(
        matches!(action, DatagramAction::Stop(Fault::Io(error)) if error == "network unreachable")
    );
}

#[test]
fn datagram_event_out_of_turn_stops_the_loop() {
    let (state, action) = DatagramLoop::Unbound.step::<String>(DatagramEvent::Sent);
    assert_eq!(state, DatagramLoop::Stopped);
    assert!(matches!(action, DatagramAction::Stop(Fault::OutOfTurn)));

    let (state, action) =
        DatagramLoop::Sending.step::<String>(DatagramEvent::Received(datagram(b"again")));
    assert_eq!(state, DatagramLoop::Stopped);
    assert!(matches!(action, DatagramAction::Stop(Fault::OutOfTurn)));

    let (state, action) = DatagramLoop::Receiving.step::<String>(DatagramEvent::Bound);
    assert_eq!(state, DatagramLoop::Stopped);
    assert!(matches!(action, DatagramAction::Stop(Fault::OutOfTurn)));
}

#[test]
fn stopped_datagram_loop_sends_nothing_more() {
    let mut state = DatagramLoop::Stopped;
    let events: Vec<Event> = vec![
        DatagramEvent::Bound,
        DatagramEvent::Received(datagram(b"late")),
        DatagramEvent::Sent,
        DatagramEvent::Failed("late".to_string()),
    ];
    for event in events {
        let (next, action) = state.step(event);
        state = next;
        assert_eq!(state, DatagramLoop::Stopped);
        assert!(matches!(action, DatagramAction::Stop(Fault::OutOfTurn)));
    }
}

use bitswap_net::events::{BitswapEvent, OutEvent};
use bitswap_net::model::{Cid, PeerId};
use bitswap_net::network::{Network, QUEUE_CAPACITY};

#[test]
fn enqueue_at_capacity_fails_immediately() {
    let mut net = Network::new(PeerId(0));
    // Fill the queue to its fixed capacity; every enqueue must succeed.
    for i in 0..QUEUE_CAPACITY {
        assert!(net.provide(Cid(i as u64)).is_ok());
    }
    // One more request returns synchronously with a full-queue error.
    assert!(net.provide(Cid(9_999)).is_err());
    // The queue is unchanged: draining yields exactly the accepted requests.
    let mut drained = 0;
    while net.poll().is_some() {
        drained += 1;
    }
    assert_eq!(drained, QUEUE_CAPACITY);
}

#[test]
fn poll_is_fifo_across_operations() {
    let mut net = Network::new(PeerId(7));
    let t_dial = net.begin_dial(PeerId(1)).unwrap();
    net.provide(Cid(5)).unwrap();
    let t_ping = net.begin_ping(&PeerId(2)).unwrap();

    match net.poll() {
        Some(OutEvent::Dial { peer, ticket }) => {
            assert_eq!(peer, PeerId(1));
            assert_eq!(ticket, t_dial);
        }
        other => panic!("expected the dial first, got {:?}", discriminant_name(&other)),
    }
    match net.poll() {
        Some(OutEvent::GenerateEvent(BitswapEvent::Provide { key })) => {
            assert_eq!(key, Cid(5));
        }
        other => panic!("expected the provide second, got {:?}", discriminant_name(&other)),
    }
    match net.poll() {
        Some(OutEvent::GenerateEvent(BitswapEvent::Ping { peer, ticket })) => {
            assert_eq!(peer, PeerId(2));
            assert_eq!(ticket, t_ping);
        }
        other => panic!("expected the ping third, got {:?}", discriminant_name(&other)),
    }
    assert!(net.poll().is_none());
}

#[test]
fn tickets_are_never_reused() {
    let mut net = Network::new(PeerId(3));
    let a = net.begin_dial(PeerId(1)).unwrap();
    let b = net.begin_ping(&PeerId(2)).unwrap();
    let c = net.find_providers(Cid(4)).unwrap();
    assert!(a != b && b != c && a != c);
}

#[test]
fn poll_on_empty_returns_none_immediately() {
    let mut net = Network::new(PeerId(0));
    assert!(net.poll().is_none());
    assert!(net.poll().is_none());
}

fn discriminant_name(ev: &Option<OutEvent>) -> &'static str {
    match ev {
        None => "nothing",
        Some(OutEvent::Dial { .. }) => "a dial",
        Some(OutEvent::SendMessage { .. }) => "a send",
        Some(OutEvent::GenerateEvent(BitswapEvent::Ping { .. })) => "a ping",
        Some(OutEvent::GenerateEvent(BitswapEvent::FindProviders { .. })) => "a provider query",
        Some(OutEvent::GenerateEvent(BitswapEvent::Provide { .. })) => "a provide",
    }
}

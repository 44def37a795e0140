use bitswap_net::events::{OutEvent, SendError};
use bitswap_net::model::{BitswapMessage, ConnectionId, PeerId};
use bitswap_net::network::{Network, QUEUE_CAPACITY};
use bitswap_net::retry::{
    run_send_script, RetrySend, SendMessageError, SendReply, SendStep, TransientError,
};

fn message() -> BitswapMessage {
    BitswapMessage::new(vec![1, 2, 3])
}

#[test]
fn fatal_first_reply_single_attempt() {
    // A fatal reply on the first attempt: one attempt, no backoff.
    for retries in [1usize, 2, 3, 7] {
        let mut net = Network::new(PeerId(0));
        let replies = vec![
            SendReply::Failed(SendError::ProtocolNotSupported),
            SendReply::Delivered,
            SendReply::Delivered,
            SendReply::Delivered,
            SendReply::Delivered,
            SendReply::Delivered,
            SendReply::Delivered,
        ];
        let out = run_send_script(&mut net, PeerId(9), None, message(), retries, 100, replies);
        assert_eq!(out.attempts, 1);
        assert_eq!(out.backoffs, 0);
        assert!(matches!(out.result, Err(SendMessageError::ProtocolNotSupported)));
    }
}

#[test]
fn all_transient_exhausts_retries() {
    // Transient failures on every attempt: exactly N attempts, N-1 backoffs,
    // and all N errors aggregated in the final failure.
    for retries in [1usize, 2, 3, 5] {
        let mut net = Network::new(PeerId(0));
        let replies: Vec<SendReply> = (0..retries)
            .map(|i| SendReply::Failed(SendError::Other(format!("boom {}", i))))
            .collect();
        let out = run_send_script(&mut net, PeerId(4), None, message(), retries, 100, replies);
        assert_eq!(out.attempts, retries);
        assert_eq!(out.backoffs, retries - 1);
        match out.result {
            Err(SendMessageError::AttemptsExhausted { peer, errors }) => {
                assert_eq!(peer, PeerId(4));
                assert_eq!(errors.len(), retries);
                for (i, e) in errors.iter().enumerate() {
                    match e {
                        TransientError::Delivery(reason) => {
                            assert_eq!(reason, &format!("boom {}", i));
                        }
                        TransientError::ReplyDropped => panic!("wrong error kind recorded"),
                    }
                }
            }
            _ => panic!("expected the attempts-exhausted failure"),
        }
    }
}

#[test]
fn success_on_third_attempt() {
    let mut net = Network::new(PeerId(0));
    let replies = vec![
        SendReply::Failed(SendError::Other("timeout".to_string())),
        SendReply::Failed(SendError::Other("timeout".to_string())),
        SendReply::Delivered,
    ];
    let out = run_send_script(&mut net, PeerId(2), None, message(), 3, 50, replies);
    assert_eq!(out.attempts, 3);
    assert_eq!(out.backoffs, 2);
    assert!(out.result.is_ok());
}

#[test]
fn dropped_reply_counts_as_transient() {
    let mut net = Network::new(PeerId(0));
    let replies = vec![SendReply::Dropped, SendReply::Delivered];
    let out = run_send_script(&mut net, PeerId(2), None, message(), 2, 50, replies);
    assert_eq!(out.attempts, 2);
    assert_eq!(out.backoffs, 1);
    assert!(out.result.is_ok());
}

#[test]
fn each_attempt_enqueues_one_send_request() {
    let mut net = Network::new(PeerId(0));
    let replies = vec![
        SendReply::Dropped,
        SendReply::Dropped,
        SendReply::Failed(SendError::Other("nope".to_string())),
    ];
    let conn = Some(ConnectionId(11));
    let out = run_send_script(&mut net, PeerId(8), conn, message(), 3, 10, replies);
    assert_eq!(out.attempts, 3);
    let mut sends = 0;
    while let Some(ev) = net.poll() {
        match ev {
            OutEvent::SendMessage { peer, message, ticket, connection_id } => {
                assert_eq!(peer, PeerId(8));
                assert_eq!(message.bytes, vec![1, 2, 3]);
                assert_eq!(ticket, sends as u64);
                assert_eq!(connection_id, conn);
                sends += 1;
            }
            _ => panic!("only send requests belong in the queue here"),
        }
    }
    assert_eq!(sends, 3);
}

#[test]
fn queue_full_aborts_whole_operation() {
    let mut net = Network::new(PeerId(0));
    for i in 0..QUEUE_CAPACITY {
        net.provide(bitswap_net::model::Cid(i as u64)).unwrap();
    }
    let mut engine = RetrySend::new(PeerId(5), None, message(), 3, 100);
    let step = engine.start_attempt(&mut net);
    match step {
        SendStep::Finished(Err(SendMessageError::QueueFull)) => {}
        _ => panic!("a full queue must abort the operation immediately"),
    }
    // The failed enqueue was not counted against the retries.
    assert_eq!(engine.attempt, 0);
    assert_eq!(engine.errors.len(), 0);
}

#[test]
fn deadline_stops_engine_and_preserves_errors() {
    let mut net = Network::new(PeerId(0));
    let mut engine = RetrySend::new(PeerId(6), None, message(), 3, 100);
    // One attempt fails transiently, then the overall deadline fires.
    match engine.start_attempt(&mut net) {
        SendStep::Await { .. } => {}
        _ => panic!("the first attempt must be enqueued"),
    }
    match engine.on_reply(SendReply::Failed(SendError::Other("late".to_string()))) {
        SendStep::Backoff { millis } => assert_eq!(millis, 100),
        _ => panic!("a transient failure with attempts left must back off"),
    }
    let step = engine.on_deadline();
    match step {
        SendStep::Finished(Err(SendMessageError::DeadlineExceeded { peer, errors })) => {
            assert_eq!(peer, PeerId(6));
            assert_eq!(errors.len(), 1);
            assert!(matches!(&errors[0], TransientError::Delivery(r) if r == "late"));
        }
        _ => panic!("the deadline must end the operation with a deadline error"),
    }
    // The engine is finished: no further attempt is ever started.
    assert_eq!(engine.attempt, 1);
}

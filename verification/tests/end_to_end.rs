use std::time::{Duration, Instant};

use bitswap_net::events::SendError;
use bitswap_net::model::{BitswapMessage, ConnectionId, PeerId, ProtocolId};
use bitswap_net::network::{finish_dial, DialError, DialReply, Network};
use bitswap_net::retry::{RetrySend, SendMessageError, SendReply, SendStep};
use bitswap_net::sender::MessageSenderConfig;

fn rt() -> tokio::runtime::Runtime {
    tokio::runtime::Builder::new_current_thread().enable_time().build().unwrap()
}

/// Drives the retry engine with real backoff sleeps against a scripted
/// driver, under the given overall deadline; the counterpart of the
/// embedding program's send loop.
async fn drive_send(
    net: &mut Network,
    mut engine: RetrySend,
    deadline: Instant,
    mut replies: Vec<SendReply>,
) -> (Result<(), SendMessageError>, usize, usize) {
    let mut attempts = 0;
    let mut backoffs = 0;
    loop {
        if Instant::now() >= deadline {
            match engine.on_deadline() {
                SendStep::Finished(r) => return (r, attempts, backoffs),
                _ => unreachable!(),
            }
        }
        let step = engine.start_attempt(net);
        match step {
            SendStep::Await { .. } => {}
            SendStep::Finished(r) => return (r, attempts, backoffs),
            SendStep::Backoff { .. } => unreachable!(),
        }
        attempts += 1;
        // The scripted driver consumes the queued request and replies at once.
        let _ev = net.poll().expect("the attempt must be queued");
        let reply = if replies.is_empty() { SendReply::Dropped } else { replies.remove(0) };
        match engine.on_reply(reply) {
            SendStep::Finished(r) => return (r, attempts, backoffs),
            SendStep::Backoff { millis } => {
                backoffs += 1;
                let remaining = deadline.saturating_duration_since(Instant::now());
                let nap = Duration::from_millis(millis).min(remaining);
                tokio::time::sleep(nap).await;
            }
            SendStep::Await { .. } => unreachable!(),
        }
    }
}

#[test]
fn sender_succeeds_on_third_attempt_with_two_backoffs() {
    // A sender with three retries, a 500 ms deadline and 50 ms backoff; the
    // driver fails the first two attempts and delivers the third.
    let rt = rt();
    rt.block_on(async {
        let mut net = Network::new(PeerId(0));
        let cfg =
            MessageSenderConfig { max_retries: 3, send_timeout: 500, send_error_backoff: 50 };
        let sender =
            net.new_message_sender(PeerId(1), cfg, ConnectionId(1), ProtocolId::Bitswap120);
        let engine = sender.send_message(BitswapMessage::new(vec![9]));
        let deadline = Instant::now() + Duration::from_millis(cfg.send_timeout as u64);
        let start = Instant::now();
        let replies = vec![
            SendReply::Failed(SendError::Other("timeout".to_string())),
            SendReply::Failed(SendError::Other("timeout".to_string())),
            SendReply::Delivered,
        ];
        let (result, attempts, backoffs) = drive_send(&mut net, engine, deadline, replies).await;
        let elapsed = start.elapsed();
        assert!(result.is_ok());
        assert_eq!(attempts, 3);
        assert_eq!(backoffs, 2);
        // Two backoff sleeps of about 50 ms each.
        assert!(elapsed >= Duration::from_millis(100), "elapsed {:?}", elapsed);
        assert!(elapsed < Duration::from_millis(450), "elapsed {:?}", elapsed);
    });
}

#[test]
fn deadline_cuts_retry_loop_short() {
    // The deadline (120 ms) elapses long before five 100 ms backoffs could:
    // the operation fails with a deadline error and stops making attempts.
    let rt = rt();
    rt.block_on(async {
        let mut net = Network::new(PeerId(0));
        let engine = RetrySend::new(PeerId(2), None, BitswapMessage::new(vec![1]), 5, 100);
        let deadline = Instant::now() + Duration::from_millis(120);
        let (result, attempts, _backoffs) =
            drive_send(&mut net, engine, deadline, Vec::new()).await;
        match result {
            Err(SendMessageError::DeadlineExceeded { peer, errors }) => {
                assert_eq!(peer, PeerId(2));
                assert_eq!(errors.len(), attempts);
            }
            _ => panic!("the deadline must end the operation"),
        }
        assert!(attempts < 5, "made {} attempts", attempts);
    });
}

#[test]
fn dial_times_out_between_100_and_200_ms() {
    // The driver never replies: the dial fails with a timeout at or after
    // 100 ms and strictly before 200 ms.
    let rt = rt();
    rt.block_on(async {
        let mut net = Network::new(PeerId(0));
        let _ticket = net.begin_dial(PeerId(7)).unwrap();
        let (_tx, rx) = tokio::sync::oneshot::channel::<DialReply>();
        let start = Instant::now();
        let awaited = tokio::time::timeout(Duration::from_millis(100), rx).await;
        let reply = match awaited {
            Err(_) => DialReply::TimedOut,
            Ok(Ok(r)) => r,
            Ok(Err(_)) => DialReply::Dropped,
        };
        let result = finish_dial(reply);
        let elapsed = start.elapsed();
        assert!(matches!(result, Err(DialError::Timeout)));
        assert!(elapsed >= Duration::from_millis(100), "elapsed {:?}", elapsed);
        assert!(elapsed < Duration::from_millis(200), "elapsed {:?}", elapsed);
    });
}

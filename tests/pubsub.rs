use ecal::error::CalError;
use ecal::format::Serializer;
use ecal::message::{Ping, Pong};
use ecal::msgpack::MessagePack;
use ecal::process::Cal;
use ecal::pubsub::{
    bounded_timeout, encode_outcome, send_outcome, topic_request, Publisher, Subscriber, RECV_FOREVER,
};

type PingPublisher = Publisher<Ping, MessagePack<Ping>>;
type PingSubscriber = Subscriber<Ping, MessagePack<Ping>>;

fn cal() -> Cal {
    Cal::new("tests", 0).unwrap()
}

fn publisher(topic: &str) -> PingPublisher {
    let req = topic_request::<MessagePack<Ping>>(&cal(), topic).unwrap();
    Publisher::new(req, 11, 1).unwrap()
}

fn subscriber(topic: &str) -> PingSubscriber {
    let req = topic_request::<MessagePack<Ping>>(&cal(), topic).unwrap();
    Subscriber::new(req, 12, 1).unwrap()
}

#[test]
fn request_carries_topic_and_type() {
    let req = topic_request::<MessagePack<Ping>>(&cal(), "ping").unwrap();
    assert_eq!(req.topic_name(), "ping");
    assert_eq!(req.topic_type(), "mpack:kpns_msgs.Ping");
    assert_eq!(req.description(), "");
}

#[test]
fn no_endpoint_after_guard_finalized() {
    let mut c = cal();
    c.finalize();
    let r = topic_request::<MessagePack<Ping>>(&c, "ping");
    assert!(matches!(r, Err(CalError::InitializationFailed)));
}

#[test]
fn topic_name_with_nul_is_refused() {
    let r = topic_request::<MessagePack<Ping>>(&cal(), "pi\0ng");
    assert!(matches!(r, Err(CalError::Unknown(_))));
}

#[test]
fn refused_creation_names_topic() {
    let req = topic_request::<MessagePack<Ping>>(&cal(), "ping").unwrap();
    let r = PingPublisher::new(req, 3, 0);
    assert!(matches!(r, Err(CalError::PublisherCreationFailed(t)) if t == "ping"));
    let req = topic_request::<MessagePack<Ping>>(&cal(), "pong").unwrap();
    let r = PingSubscriber::new(req, 3, 0);
    assert!(matches!(r, Err(CalError::SubscriberCreationFailed(t)) if t == "pong"));
}

#[test]
fn created_endpoints_keep_handle() {
    let p = publisher("ping");
    assert_eq!(p.handle(), 11);
    assert_eq!(p.topic_name(), "ping");
    let s = subscriber("ping");
    assert_eq!(s.handle(), 12);
}

#[test]
fn send_outcomes() {
    assert_eq!(send_outcome(4, 4), Ok(()));
    assert_eq!(send_outcome(3, 4), Err(CalError::PublishFailed));
    assert_eq!(send_outcome(0, 4), Err(CalError::PublishFailed));
    assert_eq!(send_outcome(-1, 0), Err(CalError::PublishFailed));
}

#[test]
fn encode_gives_serialized_bytes() {
    let p = publisher("ping");
    assert_eq!(p.encode(&Ping { sync: 1 }), Ok(vec![0x91, 0x01]));
}

#[test]
fn try_recv_with_zero_timeout_on_empty_topic() {
    let s = subscriber("ping");
    assert_eq!(s.try_recv_timeout(0), 0);
    assert_eq!(s.try_recv(0, &[]), None);
}

#[test]
fn timeouts() {
    let s = subscriber("ping");
    assert_eq!(s.recv_timeout(), RECV_FOREVER);
    assert_eq!(RECV_FOREVER, -1);
    assert_eq!(s.try_recv_timeout(500), 500);
    assert_eq!(bounded_timeout(u128::MAX), i32::MAX);
    assert_eq!(bounded_timeout(1u128 << 32), i32::MAX);
}

#[test]
fn recv_outcomes() {
    let s = subscriber("ping");
    assert_eq!(s.recv(0, &[]), Err(CalError::Timeout));
    assert!(s.recv(0, &[]).unwrap_err().is_timeout());
    assert_eq!(s.recv(2, &[0x91, 0x07]), Ok(Ping { sync: 7 }));
    assert_eq!(s.recv(1, &[0xc1]), Err(CalError::InvalidFormat));
    assert_eq!(s.try_recv(1, &[0xc1]), None);
    assert_eq!(s.try_recv(2, &[0x91, 0x07]), Some(Ping { sync: 7 }));
}

#[test]
fn one_sent_message_is_received() {
    let p = publisher("ping");
    let s = subscriber("ping");
    let bytes = p.encode(&Ping { sync: 9 }).unwrap();
    assert_eq!(s.recv(bytes.len() as i32, &bytes), Ok(Ping { sync: 9 }));
}

#[test]
fn decode_failure_keeps_callback_delivering() {
    let mut s = subscriber("ping");
    let token = s.on_recv().unwrap();
    assert_eq!(s.deliver(token, &[0xc1, 0x00]), None);
    assert_eq!(s.deliver(token, &[0x91, 0x03]), Some(Ping { sync: 3 }));
}

#[test]
fn release_drops_pending_invocations() {
    let mut s = subscriber("ping");
    let token = s.on_recv().unwrap();
    assert!(s.release());
    assert_eq!(s.deliver(token, &[0x91, 0x03]), None);
    assert!(!s.release());
    assert_eq!(s.on_recv(), None);

    let mut p = publisher("ping");
    let t = p.on_subscribed().unwrap();
    assert!(p.subscribed_event(t));
    assert!(p.release());
    assert!(!p.subscribed_event(t));
    assert!(!p.release());
    assert_eq!(p.on_subscribed(), None);
}

#[test]
fn reregistration_stales_old_token() {
    let mut s = subscriber("ping");
    let first = s.on_recv().unwrap();
    let second = s.on_recv().unwrap();
    assert_ne!(first, second);
    assert_eq!(s.deliver(first, &[0x91, 0x03]), None);
    assert_eq!(s.deliver(second, &[0x91, 0x03]), Some(Ping { sync: 3 }));
}

#[test]
fn ping_pong_exchange() {
    let mut ping = Ping { sync: 1 };
    let mut seen = Vec::new();
    for _ in 0..5 {
        let mut wire = Vec::new();
        <MessagePack<Ping> as Serializer<Ping>>::serialize(&ping, &mut wire).unwrap();
        let b = subscriber("ping").try_recv(wire.len() as i32, &wire).unwrap();
        assert_eq!(b, ping);
        let pong = Pong::reply_to(&b).unwrap();
        assert_eq!(pong.sync, ping.sync + 1);
        let req = topic_request::<MessagePack<Pong>>(&cal(), "pong").unwrap();
        let pong_pub: Publisher<Pong, MessagePack<Pong>> = Publisher::new(req, 5, 1).unwrap();
        let reply = pong_pub.encode(&pong).unwrap();
        let req = topic_request::<MessagePack<Pong>>(&cal(), "pong").unwrap();
        let a: Subscriber<Pong, MessagePack<Pong>> = Subscriber::new(req, 6, 1).unwrap();
        let got = a.try_recv(reply.len() as i32, &reply).unwrap();
        assert_eq!(got, pong);
        ping = Ping::after(&got);
        seen.push(ping.sync);
    }
    assert_eq!(seen, vec![2, 3, 4, 5, 6]);
}

#[test]
fn no_reply_when_counter_is_full() {
    assert_eq!(Pong::reply_to(&Ping { sync: u64::MAX }), None);
    assert_eq!(Pong::reply_to(&Ping { sync: 1 }), Some(Pong { sync: 2 }));
}

#[test]
fn encode_outcomes() {
    assert_eq!(encode_outcome(Ok(()), vec![0x91, 0x01]), Ok(vec![0x91, 0x01]));
    assert_eq!(encode_outcome(Ok(()), vec![]), Ok(vec![]));
    assert_eq!(
        encode_outcome(Err(CalError::Unknown("out of memory".to_string())), vec![0x91]),
        Err(CalError::Unknown("out of memory".to_string()))
    );
    assert_eq!(encode_outcome(Err(CalError::InvalidFormat), vec![]), Err(CalError::InvalidFormat));
}

#[test]
fn oversized_message_is_not_sent() {
    let big = vec![0u8; 0x8000_0000];
    assert_eq!(encode_outcome(Ok(()), big), Err(CalError::PublishFailed));
}

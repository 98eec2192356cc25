use ad_server::http::{Body, ContentType, Header, Status};
use ad_server::stream::{stream_response, Bridge, StreamEvent, HEARTBEAT_MILLIS, STREAM_MAX_AGE};

fn relay(events: Vec<StreamEvent>) -> (Vec<String>, bool) {
    let mut bridge = Bridge::open();
    let mut frames = Vec::new();
    for event in events {
        if let Some(frame) = bridge.on_event(event) {
            frames.push(frame);
        }
    }
    (frames, bridge.is_live())
}

#[test]
fn heartbeat_fires_every_second() {
    assert_eq!(HEARTBEAT_MILLIS, 1000);
}

#[test]
fn stream_is_opened_as_an_event_stream() {
    let response = stream_response();
    assert_eq!(response.status, Status::Success);
    assert_eq!(STREAM_MAX_AGE, 29);
    assert_eq!(
        response.headers,
        vec![
            Header::ContentType(ContentType::EventStream),
            Header::CachePublic(29),
            Header::KeepAlive,
        ]
    );
    assert_eq!(response.body, Body::Stream);
}

#[test]
fn quiet_second_yields_one_ping_and_no_update() {
    // 1100 ms without a change: the timer fired once.
    let ticks = 1100 / HEARTBEAT_MILLIS;
    let events: Vec<StreamEvent> = (0..ticks).map(|_| StreamEvent::Tick).collect();
    let (frames, live) = relay(events);
    assert_eq!(frames, vec!["event: ping\n\n".to_string()]);
    assert!(frames.iter().all(|frame| frame == "event: ping\n\n"));
    assert!(live);
}

#[test]
fn change_is_sent_with_its_payload_verbatim() {
    let payload = "event: update\ndata: {\"id\":\"42\"}\n\n".to_string();
    let (frames, live) = relay(vec![StreamEvent::Change(payload.clone())]);
    assert_eq!(frames, vec![payload]);
    assert!(live);
}

#[test]
fn frames_keep_the_order_of_arrival() {
    let (frames, _) = relay(vec![
        StreamEvent::Change("a".to_string()),
        StreamEvent::Tick,
        StreamEvent::Change("b".to_string()),
        StreamEvent::Change("".to_string()),
        StreamEvent::Tick,
    ]);
    assert_eq!(frames, vec!["a", "event: ping\n\n", "b", "", "event: ping\n\n"]);
}

#[test]
fn broken_subscription_ends_the_stream() {
    let (frames, live) = relay(vec![
        StreamEvent::Tick,
        StreamEvent::SubscriptionFailed,
        StreamEvent::Change("late".to_string()),
        StreamEvent::Tick,
    ]);
    assert_eq!(frames, vec!["event: ping\n\n"]);
    assert!(!live);
}

#[test]
fn disconnect_ends_the_stream() {
    let (frames, live) = relay(vec![
        StreamEvent::Change("a".to_string()),
        StreamEvent::Disconnected,
        StreamEvent::Tick,
    ]);
    assert_eq!(frames, vec!["a"]);
    assert!(!live);
}

#[test]
fn closed_stream_stays_closed() {
    let mut bridge = Bridge::open();
    assert!(bridge.is_live());
    assert_eq!(bridge.on_event(StreamEvent::Disconnected), None);
    assert!(!bridge.is_live());
    assert_eq!(bridge.on_event(StreamEvent::Tick), None);
    assert_eq!(bridge.on_event(StreamEvent::Change("x".to_string())), None);
    assert!(!bridge.is_live());
}

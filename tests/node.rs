use gossipers::links::Connections;
use gossipers::node::{
    new_chat_engine, next_action, on_loop_event, perform, Action, LoopEvent, CHAT_PAYLOAD,
    CHAT_TOPIC,
};
use libp2p::PeerId;

#[test]
fn chat_topic_and_payload() {
    assert_eq!(CHAT_TOPIC, "chat");
    assert_eq!(CHAT_PAYLOAD, "MikuMikuDance");
}

#[test]
fn tick_calls_for_publish() {
    assert_eq!(next_action(LoopEvent::Tick), Action::Publish);
}

#[test]
fn new_address_calls_for_announce() {
    assert_eq!(next_action(LoopEvent::ListeningOn), Action::Announce);
}

#[test]
fn other_event_calls_for_nothing() {
    assert_eq!(next_action(LoopEvent::Other), Action::Idle);
}

#[test]
fn perform_reports_announce_only() {
    let mut f = new_chat_engine(PeerId::random());
    let mut links = Connections::new();
    let p = PeerId::random();
    assert!(!perform(&mut f, &mut links, Action::Publish));
    assert!(perform(&mut f, &mut links, Action::Announce));
    assert!(!perform(&mut f, &mut links, Action::Idle));
    assert!(!perform(&mut f, &mut links, Action::Track(p)));
    assert!(links.contains(&p));
    assert!(!perform(&mut f, &mut links, Action::Forget(p)));
    assert!(!links.contains(&p));
}

#[test]
fn loop_events_on_fresh_engine() {
    let mut f = new_chat_engine(PeerId::random());
    let mut links = Connections::new();
    assert!(!on_loop_event(&mut f, &mut links, LoopEvent::Tick));
    assert!(!on_loop_event(&mut f, &mut links, LoopEvent::Tick));
    assert!(on_loop_event(&mut f, &mut links, LoopEvent::ListeningOn));
    assert!(!on_loop_event(&mut f, &mut links, LoopEvent::Other));
}

#[test]
fn connection_events_call_for_tracking() {
    let p = PeerId::random();
    assert_eq!(next_action(LoopEvent::Connected(p)), Action::Track(p));
    assert_eq!(next_action(LoopEvent::Closed(p, 0)), Action::Forget(p));
    assert_eq!(next_action(LoopEvent::Closed(p, 2)), Action::Idle);
}

#[test]
fn peer_stays_connected_until_last_connection_closes() {
    let mut f = new_chat_engine(PeerId::random());
    let mut links = Connections::new();
    let p = PeerId::random();
    let q = PeerId::random();
    on_loop_event(&mut f, &mut links, LoopEvent::Connected(p));
    on_loop_event(&mut f, &mut links, LoopEvent::Connected(p));
    on_loop_event(&mut f, &mut links, LoopEvent::Connected(q));
    on_loop_event(&mut f, &mut links, LoopEvent::Closed(p, 1));
    assert!(links.contains(&p));
    on_loop_event(&mut f, &mut links, LoopEvent::Closed(p, 0));
    assert!(!links.contains(&p));
    assert!(links.contains(&q));
}

#[test]
fn connections_start_empty_and_forget_unknown_peers() {
    let mut links = Connections::new();
    let p = PeerId::random();
    assert!(!links.contains(&p));
    links.remove(&p);
    assert!(!links.contains(&p));
    links.insert(p);
    links.insert(p);
    links.remove(&p);
    assert!(!links.contains(&p));
}

use run_in_roblox::message_receiver::{
    Message, MessageReceiver, MessageReceiverOptions, Reply, Request, RobloxMessage,
};

fn options(port: u16, server_id: &str) -> MessageReceiverOptions {
    MessageReceiverOptions { port, server_id: server_id.to_string() }
}

fn event(body: &str) -> RobloxMessage {
    RobloxMessage { body: body.to_string() }
}

fn request(token: &str, message: Message) -> Request {
    Request { token: Some(token.to_string()), payload: Some(message) }
}

#[test]
fn accepted_messages_come_out_first_in_first_out() {
    let mut relay = MessageReceiver::start(options(9001, "abc123"));
    assert!(relay.is_listening());
    assert_eq!(relay.pending(), 0);
    assert_eq!(relay.submit(request("abc123", Message::Start)), Reply::Accepted);
    assert_eq!(
        relay.submit(request("abc123", Message::Messages(vec![event("one"), event("two")]))),
        Reply::Accepted
    );
    assert_eq!(
        relay.submit(request("abc123", Message::Messages(vec![event("one"), event("two")]))),
        Reply::Accepted
    );
    assert_eq!(relay.submit(request("abc123", Message::Stop)), Reply::Accepted);
    assert_eq!(relay.pending(), 4);
    assert_eq!(relay.take(), Some(Message::Start));
    assert_eq!(relay.take(), Some(Message::Messages(vec![event("one"), event("two")])));
    assert_eq!(relay.take(), Some(Message::Messages(vec![event("one"), event("two")])));
    assert_eq!(relay.take(), Some(Message::Stop));
    assert_eq!(relay.take(), None);
    assert_eq!(relay.pending(), 0);
}

#[test]
fn another_token_is_turned_away() {
    let mut relay = MessageReceiver::start(options(9001, "abc123"));
    assert_eq!(relay.submit(request("abc124", Message::Start)), Reply::Unauthorized);
    assert_eq!(relay.submit(request("", Message::Start)), Reply::Unauthorized);
    assert_eq!(relay.submit(request("ABC123", Message::Stop)), Reply::Unauthorized);
    assert_eq!(relay.submit(request("abc123 ", Message::Stop)), Reply::Unauthorized);
    assert_eq!(relay.pending(), 0);
    assert_eq!(relay.take(), None);
}

#[test]
fn a_request_without_a_token_is_turned_away() {
    let mut relay = MessageReceiver::start(options(9001, ""));
    let reply = relay.submit(Request { token: None, payload: Some(Message::Start) });
    assert_eq!(reply, Reply::Unauthorized);
    assert_eq!(relay.pending(), 0);
    assert_eq!(relay.submit(request("", Message::Start)), Reply::Accepted);
}

#[test]
fn the_token_is_checked_before_the_body() {
    let mut relay = MessageReceiver::start(options(9001, "abc123"));
    let reply = relay.submit(Request { token: Some("nope".to_string()), payload: None });
    assert_eq!(reply, Reply::Unauthorized);
}

#[test]
fn a_body_that_is_no_message_is_malformed() {
    let mut relay = MessageReceiver::start(options(9001, "abc123"));
    let reply = relay.submit(Request { token: Some("abc123".to_string()), payload: None });
    assert_eq!(reply, Reply::Malformed);
    assert_eq!(relay.pending(), 0);
    assert!(relay.is_listening());
}

#[test]
fn an_empty_batch_is_malformed() {
    let mut relay = MessageReceiver::start(options(9001, "abc123"));
    assert_eq!(
        relay.submit(request("abc123", Message::Messages(Vec::new()))),
        Reply::Malformed
    );
    assert_eq!(relay.pending(), 0);
    assert!(!Message::Messages(Vec::new()).is_well_formed());
    assert!(Message::Messages(vec![event("x")]).is_well_formed());
    assert!(Message::Start.is_well_formed());
    assert!(Message::Stop.is_well_formed());
}

#[test]
fn stopping_twice_is_the_same_as_stopping_once() {
    let mut relay = MessageReceiver::start(options(9001, "abc123"));
    assert_eq!(relay.submit(request("abc123", Message::Start)), Reply::Accepted);
    relay.stop();
    assert!(!relay.is_listening());
    assert_eq!(relay.pending(), 1);
    relay.stop();
    assert!(!relay.is_listening());
    assert_eq!(relay.pending(), 1);
    assert_eq!(relay.take(), Some(Message::Start));
}

#[test]
fn stopping_a_relay_that_never_listened_does_nothing() {
    let mut relay = MessageReceiver::new(options(9001, "abc123"));
    assert!(!relay.is_listening());
    relay.stop();
    relay.stop();
    assert!(!relay.is_listening());
    assert_eq!(relay.pending(), 0);
    assert_eq!(relay.take(), None);
}

#[test]
fn a_relay_that_does_not_listen_lets_nothing_in() {
    let mut idle = MessageReceiver::new(options(9001, "abc123"));
    assert_eq!(idle.submit(request("abc123", Message::Start)), Reply::Unavailable);
    assert_eq!(idle.pending(), 0);
    let mut stopped = MessageReceiver::start(options(9001, "abc123"));
    stopped.stop();
    assert_eq!(stopped.submit(request("abc123", Message::Start)), Reply::Unavailable);
    assert_eq!(stopped.submit(request("wrong", Message::Start)), Reply::Unavailable);
    assert_eq!(stopped.pending(), 0);
}

#[test]
fn a_copied_event_equals_the_one_copied() {
    let first = event("log: hi");
    let copy = first.clone();
    assert_eq!(copy, first);
    assert_eq!(copy.body, "log: hi");
}

use actix_todo::flash::{FlashChannel, FlashMessage, Level};

#[test]
fn level_names() {
    assert_eq!(Level::Error.name(), "Error");
    assert_eq!(Level::Success.name(), "Success");
}

#[test]
fn message_constructors_set_level() {
    assert_eq!(
        FlashMessage::error("no"),
        FlashMessage { level: Level::Error, content: "no".to_string() }
    );
    assert_eq!(
        FlashMessage::success("yes"),
        FlashMessage { level: Level::Success, content: "yes".to_string() }
    );
    assert_eq!(FlashMessage::new(Level::Error, "x"), FlashMessage::error("x"));
}

#[test]
fn new_channel_has_incoming_pending_and_nothing_sent() {
    let mut channel = FlashChannel::new(vec![FlashMessage::success("a")]);
    assert_eq!(channel.iterate(), vec![FlashMessage::success("a")]);
    assert_eq!(channel.into_outgoing(), Vec::new());
}

#[test]
fn iterate_hands_out_each_message_once() {
    let mut channel =
        FlashChannel::new(vec![FlashMessage::success("a"), FlashMessage::error("b")]);
    assert_eq!(channel.iterate(), vec![FlashMessage::success("a"), FlashMessage::error("b")]);
    assert_eq!(channel.iterate(), Vec::new());
}

#[test]
fn send_keeps_order_and_does_not_touch_pending() {
    let mut channel = FlashChannel::new(vec![FlashMessage::success("old")]);
    channel.send(Level::Error, "first");
    channel.send(Level::Success, "second");
    assert_eq!(channel.iterate(), vec![FlashMessage::success("old")]);
    assert_eq!(
        channel.into_outgoing(),
        vec![FlashMessage::error("first"), FlashMessage::success("second")]
    );
}

#[test]
fn sent_message_is_pending_for_next_request_only() {
    let mut first = FlashChannel::new(Vec::new());
    first.send(Level::Success, "done");
    let mut second = FlashChannel::new(first.into_outgoing());
    assert_eq!(second.iterate(), vec![FlashMessage::success("done")]);
    let mut third = FlashChannel::new(second.into_outgoing());
    assert_eq!(third.iterate(), Vec::new());
}

#[test]
fn unread_messages_do_not_outlive_their_request() {
    let first = FlashChannel::new(vec![FlashMessage::success("unread")]);
    let mut second = FlashChannel::new(first.into_outgoing());
    assert_eq!(second.iterate(), Vec::new());
}

#[test]
fn content_is_not_escaped() {
    let mut channel = FlashChannel::new(Vec::new());
    channel.send(Level::Error, "<b>&</b>");
    assert_eq!(channel.into_outgoing()[0].content, "<b>&</b>");
}

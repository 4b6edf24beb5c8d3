use sod::socket::retry_accept;
use sod::socket::retry_read;
use sod::socket::retry_session;
use sod::socket::retry_write;
use sod::socket::retry_write_option;
use sod::socket::WsFailure;
use sod::socket::WsSessionEvent as SocketEvent;
use sod::ws::closes_after;
use sod::ws::step_after;
use sod::ws::WsFrame;
use sod::ws::WsMessage;
use sod::ws::WsSessionEvent;
use sod::ws::WsStep;
use sod::RetryError;

type Failure = WsFailure<&'static str, u8>;
type Event = WsSessionEvent<(), u16, &'static str>;

#[test]
fn a_session_writes_again_what_found_the_buffer_full() {
    assert!(matches!(
        retry_session::<&str, u8>(WsFailure::WriteBufferFull("m")),
        Ok(SocketEvent::WriteMessage("m"))
    ));
    assert!(matches!(
        retry_session::<&str, u8>(WsFailure::WouldBlock(1)),
        Ok(SocketEvent::ReadMessage)
    ));
    assert!(matches!(
        retry_session::<&str, u8>(WsFailure::Other(2)),
        Err(RetryError::ServiceError(WsFailure::Other(2)))
    ));
}

#[test]
fn a_reader_retries_only_what_would_block() {
    let blocked: Failure = WsFailure::WouldBlock(1);
    assert!(matches!(retry_read(blocked), Ok(())));
    let full: Failure = WsFailure::WriteBufferFull("m");
    assert!(matches!(
        retry_read(full),
        Err(RetryError::ServiceError(WsFailure::WriteBufferFull("m")))
    ));
    let other: Failure = WsFailure::Other(2);
    assert!(matches!(
        retry_read(other),
        Err(RetryError::ServiceError(WsFailure::Other(2)))
    ));
}

#[test]
fn a_server_retries_only_what_would_block() {
    assert!(retry_accept(true, 5u8) == Ok(()));
    assert!(retry_accept(false, 5u8) == Err(RetryError::ServiceError(5)));
}

#[test]
fn a_writer_retries_only_a_full_buffer() {
    let full: Failure = WsFailure::WriteBufferFull("m");
    assert!(matches!(retry_write(full), Ok("m")));
    let blocked: Failure = WsFailure::WouldBlock(1);
    assert!(matches!(
        retry_write(blocked),
        Err(RetryError::ServiceError(WsFailure::WouldBlock(1)))
    ));
    let full: Failure = WsFailure::WriteBufferFull("m");
    assert!(matches!(retry_write_option(full), Ok(Some("m"))));
    let other: Failure = WsFailure::Other(2);
    assert!(matches!(
        retry_write_option(other),
        Err(RetryError::ServiceError(WsFailure::Other(2)))
    ));
}

#[test]
fn a_frame_carries_a_message_or_nothing() {
    assert!(matches!(
        WsMessage::<u16>::from_frame(WsFrame::Binary(vec![1])),
        Some(WsMessage::Binary(data)) if data == vec![1]
    ));
    assert!(matches!(
        WsMessage::<u16>::from_frame(WsFrame::Ping(vec![2])),
        Some(WsMessage::Ping(data)) if data == vec![2]
    ));
    assert!(matches!(
        WsMessage::<u16>::from_frame(WsFrame::Pong(vec![3])),
        Some(WsMessage::Pong(data)) if data == vec![3]
    ));
    assert!(matches!(
        WsMessage::<u16>::from_frame(WsFrame::Text(String::from("t"))),
        Some(WsMessage::Text(text)) if text == "t"
    ));
    assert!(matches!(
        WsMessage::<u16>::from_frame(WsFrame::Close(Some(1000))),
        Some(WsMessage::Close(Some(1000)))
    ));
    assert!(WsMessage::<u16>::from_frame(WsFrame::Continuation).is_none());
    assert!(WsMessage::<u16>::from_frame(WsFrame::Nop).is_none());
}

#[test]
fn a_message_goes_out_as_the_frame_that_carries_it() {
    assert!(matches!(
        WsMessage::<u16>::Ping(vec![1]).into_frame(),
        WsFrame::Ping(data) if data == vec![1]
    ));
    assert!(matches!(
        WsMessage::<u16>::Pong(vec![1]).into_frame(),
        WsFrame::Pong(data) if data == vec![1]
    ));
    assert!(matches!(
        WsMessage::<u16>::Binary(vec![1]).into_frame(),
        WsFrame::Binary(data) if data == vec![1]
    ));
    assert!(matches!(
        WsMessage::<u16>::Text(String::from("t")).into_frame(),
        WsFrame::Text(text) if text == "t"
    ));
    assert!(matches!(
        WsMessage::<u16>::Close(None).into_frame(),
        WsFrame::Close(None)
    ));
}

#[test]
fn an_arrival_is_an_event_or_nothing() {
    assert!(matches!(
        Event::from_arrival(Ok(WsFrame::Text(String::from("t")))),
        Some(WsSessionEvent::Message(WsMessage::Text(text))) if text == "t"
    ));
    assert!(matches!(
        Event::from_arrival(Err("bad")),
        Some(WsSessionEvent::Error("bad"))
    ));
    assert!(Event::from_arrival(Ok(WsFrame::Nop)).is_none());
    assert!(Event::from_arrival(Ok(WsFrame::Continuation)).is_none());
}

#[test]
fn only_a_ping_is_answered_with_a_pong() {
    let ping: Event = WsSessionEvent::Message(WsMessage::Ping(vec![7]));
    assert_eq!(ping.ping_payload(), Some(&vec![7]));
    let pong: Event = WsSessionEvent::Message(WsMessage::Pong(vec![7]));
    assert_eq!(pong.ping_payload(), None);
    let started: Event = WsSessionEvent::Started(());
    assert_eq!(started.ping_payload(), None);
    let stopped: Event = WsSessionEvent::Stopped;
    assert_eq!(stopped.ping_payload(), None);
}

#[test]
fn the_step_after_the_answer_of_the_unit() {
    assert!(matches!(
        step_after::<u16, u8>(Ok(Some(WsMessage::Text(String::from("t"))))),
        WsStep::Send(WsMessage::Text(text)) if text == "t"
    ));
    assert!(matches!(step_after::<u16, u8>(Ok(None)), WsStep::Rest));
    assert!(matches!(step_after::<u16, u8>(Err(4)), WsStep::Handle(4)));
    assert!(!closes_after::<u8>(&Ok(())));
    assert!(closes_after::<u8>(&Err(4)));
}

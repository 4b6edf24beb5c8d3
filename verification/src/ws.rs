//! A WebSocket session served by a unit of work: the messages and events of
//! a session, and what the session's host does with what the unit answers.
//!
//! The host owns the connection. It turns each frame that arrives into an
//! event, hands the event to the unit, and carries out the step that the
//! unit's answer calls for.

use vstd::prelude::*;

verus! {

/// A message of a session. `C` is the reason that comes with a close.
#[derive(Debug)]
pub enum WsMessage<C> {
    Ping(Vec<u8>),
    Pong(Vec<u8>),
    Binary(Vec<u8>),
    Text(String),
    Close(Option<C>),
}

/// A frame as it arrives from the connection.
#[derive(Debug)]
pub enum WsFrame<C> {
    Binary(Vec<u8>),
    Ping(Vec<u8>),
    Pong(Vec<u8>),
    Close(Option<C>),
    Text(String),
    /// A part of a fragmented message.
    Continuation,
    /// A frame without meaning.
    Nop,
}

impl<C> WsMessage<C> {
    /// The message that a frame carries; a continuation or an empty frame
    /// carries none.
    pub open spec fn of_frame(frame: WsFrame<C>) -> Option<Self> {
        match frame {
            WsFrame::Binary(data) => Some(WsMessage::Binary(data)),
            WsFrame::Ping(data) => Some(WsMessage::Ping(data)),
            WsFrame::Pong(data) => Some(WsMessage::Pong(data)),
            WsFrame::Close(reason) => Some(WsMessage::Close(reason)),
            WsFrame::Text(text) => Some(WsMessage::Text(text)),
            WsFrame::Continuation => None,
            WsFrame::Nop => None,
        }
    }

    /// The message that a frame carries, if it carries one.
    pub fn from_frame(frame: WsFrame<C>) -> (message: Option<Self>)
        ensures
            message == Self::of_frame(frame),
    {
        match frame {
            WsFrame::Binary(data) => Some(WsMessage::Binary(data)),
            WsFrame::Ping(data) => Some(WsMessage::Ping(data)),
            WsFrame::Pong(data) => Some(WsMessage::Pong(data)),
            WsFrame::Close(reason) => Some(WsMessage::Close(reason)),
            WsFrame::Text(text) => Some(WsMessage::Text(text)),
            WsFrame::Continuation => None,
            WsFrame::Nop => None,
        }
    }

    /// The frame that carries this message.
    pub fn into_frame(self) -> (frame: WsFrame<C>)
        ensures
            Self::of_frame(frame) == Some(self),
    {
        match self {
            WsMessage::Ping(data) => WsFrame::Ping(data),
            WsMessage::Pong(data) => WsFrame::Pong(data),
            WsMessage::Binary(data) => WsFrame::Binary(data),
            WsMessage::Text(text) => WsFrame::Text(text),
            WsMessage::Close(reason) => WsFrame::Close(reason),
        }
    }
}

/// What a session's unit is told. `S` is the sender through which the unit
/// may write to the session at any time, `P` the error of the protocol.
#[derive(Debug)]
pub enum WsSessionEvent<S, C, P> {
    /// The session began; always the first event.
    Started(S),
    /// A message arrived.
    Message(WsMessage<C>),
    /// The connection reported an error.
    Error(P),
    /// The session ended; always the last event.
    Stopped,
}

impl<S, C, P> WsSessionEvent<S, C, P> {
    /// The event that an arrival is: a message for a frame that carries
    /// one, an error for an error, and none for a frame that carries no
    /// message.
    pub open spec fn of_arrival(arrival: Result<WsFrame<C>, P>) -> Option<Self> {
        match arrival {
            Ok(frame) => match WsMessage::of_frame(frame) {
                None => None,
                Some(message) => Some(WsSessionEvent::Message(message)),
            },
            Err(err) => Some(WsSessionEvent::Error(err)),
        }
    }

    /// The event to hand to the unit for an arrival, if any.
    pub fn from_arrival(arrival: Result<WsFrame<C>, P>) -> (event: Option<Self>)
        ensures
            event == Self::of_arrival(arrival),
    {
        match arrival {
            Ok(frame) => match WsMessage::from_frame(frame) {
                None => None,
                Some(message) => Some(WsSessionEvent::Message(message)),
            },
            Err(err) => Some(WsSessionEvent::Error(err)),
        }
    }

    /// The payload to answer with a pong before the unit sees the event: that
    /// of a ping, and none for any other event.
    pub fn ping_payload(&self) -> (payload: Option<&Vec<u8>>)
        ensures
            payload == match *self {
                WsSessionEvent::Message(WsMessage::Ping(data)) => Some(&data),
                _ => None::<&Vec<u8>>,
            },
    {
        match self {
            WsSessionEvent::Message(WsMessage::Ping(data)) => Some(data),
            _ => None,
        }
    }
}

/// What the host does after the unit has answered an event.
pub enum WsStep<C, E> {
    /// Write this message to the session.
    Send(WsMessage<C>),
    /// Nothing to write.
    Rest,
    /// Hand this failure to the error handler.
    Handle(E),
}

/// The step that the unit's answer calls for.
pub fn step_after<C, E>(answer: Result<Option<WsMessage<C>>, E>) -> (step: WsStep<C, E>)
    ensures
        step == match answer {
            Ok(Some(message)) => WsStep::<C, E>::Send(message),
            Ok(None) => WsStep::<C, E>::Rest,
            Err(err) => WsStep::<C, E>::Handle(err),
        },
{
    match answer {
        Ok(Some(message)) => WsStep::Send(message),
        Ok(None) => WsStep::Rest,
        Err(err) => WsStep::Handle(err),
    }
}

/// Whether the host closes the session, with an error code, after the error
/// handler has answered: it does where the handler hands the failure back.
pub fn closes_after<E>(handled: &Result<(), E>) -> (closes: bool)
    ensures
        closes == (*handled is Err),
{
    handled.is_err()
}

} // verus!

use vstd::prelude::*;

use crate::game::Coord;

verus! {

/// A move of the sender's paddle to `y`, in simulation units.
#[derive(Clone, Copy, Debug, PartialEq, Eq, Structural)]
pub struct MoveEvent {
    pub y: Coord,
}

/// An event that a client sends.
#[derive(Clone, Copy, Debug, PartialEq, Eq, Structural)]
pub enum ClientEventType {
    MoveEvent(MoveEvent),
    ReadyEvent,
}

/// Why an inbound frame was discarded.
#[derive(Clone, Copy, Debug, PartialEq, Eq, Structural)]
pub enum ProtocolError {
    MissingEventType,
    UnknownEventType,
    MalformedBody,
}

/// The event that a frame denotes, given its `event_type` field (where it
/// is a string) and the `y` of its body (where the body has that shape):
/// `ready` whatever the body, `move` with a body that has a `y`; any other
/// frame is a protocol error.
pub open spec fn decoded(event_type: Option<Seq<char>>, move_y: Option<Coord>) -> Result<
    ClientEventType,
    ProtocolError,
> {
    match event_type {
        None => Err(ProtocolError::MissingEventType),
        Some(t) => if t == "ready"@ {
            Ok(ClientEventType::ReadyEvent)
        } else if t == "move"@ {
            match move_y {
                Some(y) => Ok(ClientEventType::MoveEvent(MoveEvent { y: y })),
                None => Err(ProtocolError::MalformedBody),
            }
        } else {
            Err(ProtocolError::UnknownEventType)
        },
    }
}

pub open spec fn opt_str_view(s: Option<&str>) -> Option<Seq<char>> {
    match s {
        Some(t) => Some(t@),
        None => None,
    }
}

pub fn decode_event(event_type: Option<&str>, move_y: Option<Coord>) -> (r: Result<
    ClientEventType,
    ProtocolError,
>)
    ensures
        r == decoded(opt_str_view(event_type), move_y),
{
    match event_type {
        None => Err(ProtocolError::MissingEventType),
        Some(t) => {
            let t = t.to_owned();
            if t == "ready".to_owned() {
                Ok(ClientEventType::ReadyEvent)
            } else if t == "move".to_owned() {
                match move_y {
                    Some(y) => Ok(ClientEventType::MoveEvent(MoveEvent { y })),
                    None => Err(ProtocolError::MalformedBody),
                }
            } else {
                Err(ProtocolError::UnknownEventType)
            }
        },
    }
}

} // verus!

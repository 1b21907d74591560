use vstd::prelude::*;

use crate::codec::{frame_args, frame_error, frame_event, parse_frame};
use crate::handler::WsHandler;
use crate::heartbeat::HeartbeatMonitor;
use crate::registry::{dispatch_result, DispatchError, HandlerRegistry};

verus! {

/// The reason carried by a close frame.
#[derive(Clone, Debug, PartialEq, Eq)]
pub struct CloseReason {
    pub code: u16,
    pub description: Option<String>,
}

/// An inbound frame of the duplex channel.
#[derive(Debug)]
pub enum Frame {
    Text(Vec<u8>),
    Binary(Vec<u8>),
    Ping(Vec<u8>),
    Pong(Vec<u8>),
    Close(Option<CloseReason>),
    Continuation,
}

/// An outbound frame.
#[derive(Debug)]
pub enum OutMessage {
    /// The reply of a handler.
    Text(String),
    /// A message that no handler could answer.
    Error(DispatchError),
    Pong(Vec<u8>),
    Close(Option<CloseReason>),
}

/// What the connection does with one inbound frame: the frame it sends
/// back, if any, and whether processing ends.
#[derive(Debug)]
pub struct FrameReply {
    pub message: Option<OutMessage>,
    pub terminate: bool,
}

/// The reply to a text frame, as text or as an error.
pub open spec fn text_reply<H: WsHandler>(registry: HandlerRegistry<H>, data: Seq<u8>) -> Result<
    Seq<char>,
    DispatchError,
> {
    dispatch_result(registry.handler_for(frame_event(data)), frame_args(data))
}

/// Handles one inbound frame received at `now`.
pub fn handle_frame<H: WsHandler>(
    registry: &HandlerRegistry<H>,
    monitor: &mut HeartbeatMonitor,
    frame: Frame,
    now: u64,
) -> (r: FrameReply)
    ensures
        match frame {
            Frame::Ping(p) => {
                &&& r.message == Some(OutMessage::Pong(p))
                &&& !r.terminate
                &&& final(monitor).last_seen == if now > old(monitor).last_seen {
                    now
                } else {
                    old(monitor).last_seen
                }
            },
            Frame::Text(d) => {
                &&& *final(monitor) == *old(monitor)
                &&& frame_error(d@) is Some ==> r.message == Some(OutMessage::Close(None))
                    && r.terminate
                &&& frame_error(d@) is None ==> !r.terminate && match text_reply(*registry, d@) {
                    Ok(t) => r.message matches Some(OutMessage::Text(s)) && s@ == t,
                    Err(e) => r.message == Some(OutMessage::Error(e)),
                }
            },
            Frame::Binary(_) => *final(monitor) == *old(monitor) && r.message is None
                && !r.terminate,
            Frame::Close(reason) => *final(monitor) == *old(monitor) && r.message == Some(
                OutMessage::Close(reason),
            ) && r.terminate,
            _ => *final(monitor) == *old(monitor) && r.message == Some(OutMessage::Close(None))
                && r.terminate,
        },
        final(monitor).client_timeout == old(monitor).client_timeout,
        final(monitor).heartbeat_interval == old(monitor).heartbeat_interval,
{
    match frame {
        Frame::Ping(p) => {
            monitor.record_ping(now);
            FrameReply { message: Some(OutMessage::Pong(p)), terminate: false }
        },
        Frame::Text(d) => match parse_frame(d.as_slice()) {
            Err(_) => FrameReply { message: Some(OutMessage::Close(None)), terminate: true },
            Ok(msg) => match registry.dispatch(&msg) {
                Ok(text) => FrameReply { message: Some(OutMessage::Text(text)), terminate: false },
                Err(e) => FrameReply { message: Some(OutMessage::Error(e)), terminate: false },
            },
        },
        Frame::Binary(_) => FrameReply { message: None, terminate: false },
        Frame::Close(reason) => FrameReply {
            message: Some(OutMessage::Close(reason)),
            terminate: true,
        },
        _ => FrameReply { message: Some(OutMessage::Close(None)), terminate: true },
    }
}

} // verus!

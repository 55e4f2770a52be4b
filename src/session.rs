//! The per-connection loop, one received frame at a time: decode, dispatch,
//! and the frame to send back, if any. The caller reads and writes frames.

use vstd::prelude::*;
use vstd::utf8::encode_utf8;

use crate::dispatch::{route_spec, Behavior, ProtocolApi, StrategyHandler};
use crate::protocol::{needed_len, Packet, PacketHeader, ProtocolError, Urgency, HEADER_LEN};

verus! {

/// One frame of the outer transport.
#[derive(Debug, Clone, PartialEq, Eq)]
pub enum Frame {
    /// Text: a routine packet without a header.
    Text(String),
    /// Binary: an encoded packet.
    Binary(Vec<u8>),
    Ping(Vec<u8>),
    Pong(Vec<u8>),
    Close,
    /// A low-level frame that carries nothing for this protocol.
    Other,
}

/// What the transport delivered.
#[derive(Debug, Clone, PartialEq, Eq)]
pub enum Event {
    Received(Frame),
    /// The transport failed to deliver a frame.
    Failed,
}

#[derive(Debug, Clone, Copy, PartialEq, Eq, Structural)]
pub enum SessionState {
    Open,
    Closing,
    Closed,
}

/// A server echoes every frame it handled; a client does not.
#[derive(Debug, Clone, Copy, PartialEq, Eq, Structural)]
pub enum Role {
    Server,
    Client,
}

/// What handling one event did and asks of the caller.
#[derive(Debug, Clone, PartialEq, Eq)]
pub struct Outcome {
    /// The packet handed to the handler.
    pub dispatched: Option<Packet>,
    /// The behaviour it was dispatched to.
    pub handled: Option<Behavior>,
    /// The frame to send back.
    pub reply: Option<Frame>,
    /// Why a frame was dropped.
    pub dropped: Option<ProtocolError>,
}

/// One connection's protocol state.
#[derive(Debug)]
pub struct Session {
    role: Role,
    state: SessionState,
}

/// `o` asks nothing and reports nothing.
pub open spec fn quiet(o: Outcome) -> bool {
    o.dispatched is None && o.handled is None && o.reply is None && o.dropped is None
}

/// `p` is the `Green` packet that text `t` becomes.
pub open spec fn text_packet(p: Packet, t: Seq<char>) -> bool {
    &&& p.wf()
    &&& p.header == PacketHeader::spec_new(Urgency::Green, encode_utf8(t).len() as u32)
    &&& p.payload@ == encode_utf8(t)
}

/// `p` is the packet decoded from the front of `d`.
pub open spec fn decoded_packet(p: Packet, d: Seq<u8>) -> bool {
    &&& p.wf()
    &&& p.header == PacketHeader::decoding(d.subrange(0, HEADER_LEN as int))
    &&& p.payload@ == d.subrange(HEADER_LEN as int, needed_len(d))
}

/// The echo of frame `f` that `role` sends after handling it.
pub open spec fn echo(role: Role, f: Frame) -> Option<Frame> {
    match role {
        Role::Server => Some(f),
        Role::Client => None,
    }
}

/// The state after `event` arrives in state `s`.
pub open spec fn next_state(s: SessionState, event: Event) -> SessionState {
    match (s, event) {
        (SessionState::Open, Event::Received(Frame::Close)) => SessionState::Closing,
        (SessionState::Open, Event::Failed) => SessionState::Closing,
        _ => s,
    }
}

impl Session {
    pub closed spec fn role_spec(&self) -> Role {
        self.role
    }

    pub closed spec fn state_spec(&self) -> SessionState {
        self.state
    }

    /// A session that has just been opened.
    pub fn new(role: Role) -> (r: Self)
        ensures
            r.role_spec() == role,
            r.state_spec() == SessionState::Open,
    {
        Session { role, state: SessionState::Open }
    }

    pub fn role(&self) -> (r: Role)
        ensures
            r == self.role_spec(),
    {
        self.role
    }

    pub fn state(&self) -> (r: SessionState)
        ensures
            r == self.state_spec(),
    {
        self.state
    }

    pub fn is_open(&self) -> (r: bool)
        ensures
            r == (self.state_spec() == SessionState::Open),
    {
        match self.state {
            SessionState::Open => true,
            _ => false,
        }
    }

    /// End the session once its loop has stopped.
    pub fn finish(&mut self)
        ensures
            final(self).role_spec() == old(self).role_spec(),
            final(self).state_spec() == SessionState::Closed,
    {
        self.state = SessionState::Closed;
    }

    /// Handle one event. While open: a text frame becomes a `Green` packet and
    /// a binary frame is decoded, each then dispatched to `handler`, reported
    /// in `dispatched`, and, on a server, echoed; a binary frame that does not decode is dropped and the
    /// session stays open; a ping is answered with a pong of the same data;
    /// a close frame or a failed read start closing. A session that is not
    /// open ignores every event.
    pub fn receive<H: StrategyHandler>(&mut self, api: &ProtocolApi, event: Event, handler: &H) -> (o: Outcome)
        ensures
            final(self).role_spec() == old(self).role_spec(),
            final(self).state_spec() == next_state(old(self).state_spec(), event),
            old(self).state_spec() != SessionState::Open ==> quiet(o),
            old(self).state_spec() == SessionState::Open ==> match event {
                Event::Received(Frame::Text(t)) => {
                    &&& if encode_utf8(t@).len() <= u32::MAX {
                        &&& o.dispatched matches Some(p) && text_packet(p, t@)
                        &&& o.handled == Some(Behavior::Normal)
                        &&& o.reply == echo(old(self).role_spec(), Frame::Text(t))
                        &&& o.dropped is None
                    } else {
                        &&& o.dispatched is None
                        &&& o.handled is None
                        &&& o.reply is None
                        &&& o.dropped matches Some(ProtocolError::InvalidFormat(_))
                    }
                },
                Event::Received(Frame::Binary(d)) => {
                    &&& if d@.len() >= needed_len(d@) {
                        &&& o.dispatched matches Some(p) && decoded_packet(p, d@)
                        &&& o.handled == Some(
                            route_spec(
                                PacketHeader::decoding(d@.subrange(0, HEADER_LEN as int)).urgency,
                                handler.distinct_elevated(),
                            ),
                        )
                        &&& o.reply == echo(old(self).role_spec(), Frame::Binary(d))
                        &&& o.dropped is None
                    } else {
                        &&& o.dispatched is None
                        &&& o.handled is None
                        &&& o.reply is None
                        &&& o.dropped == Some(
                            ProtocolError::InsufficientData {
                                expected: needed_len(d@) as u64,
                                actual: d@.len() as u64,
                            },
                        )
                    }
                },
                Event::Received(Frame::Ping(d)) => {
                    &&& o == (Outcome { dispatched: None, handled: None, reply: Some(Frame::Pong(d)), dropped: None })
                },
                Event::Received(Frame::Pong(_)) | Event::Received(Frame::Other) => {
                    &&& quiet(o)
                },
                Event::Received(Frame::Close) | Event::Failed => {
                    &&& quiet(o)
                },
            },
    {
        let nothing = Outcome { dispatched: None, handled: None, reply: None, dropped: None };
        match self.state {
            SessionState::Open => {},
            _ => return nothing,
        }
        match event {
            Event::Received(Frame::Text(t)) => {
                let text = t.as_str();
                if text.as_bytes().len() > u32::MAX as usize {
                    return Outcome {
                        dispatched: None,
                        handled: None,
                        reply: None,
                        dropped: Some(ProtocolError::InvalidFormat(String::from_str("text frame too long for one packet"))),
                    };
                }
                let packet = api.make_packet(text, Urgency::Green);
                let b = api.dispatch(&packet, handler);
                let reply = match self.role {
                    Role::Server => Some(Frame::Text(t)),
                    Role::Client => None,
                };
                Outcome { dispatched: Some(packet), handled: Some(b), reply, dropped: None }
            },
            Event::Received(Frame::Binary(d)) => {
                match Packet::from_bytes(d.as_slice()) {
                    Ok(packet) => {
                        let b = api.dispatch(&packet, handler);
                        let reply = match self.role {
                            Role::Server => Some(Frame::Binary(d)),
                            Role::Client => None,
                        };
                        Outcome { dispatched: Some(packet), handled: Some(b), reply, dropped: None }
                    },
                    Err(e) => Outcome { dispatched: None, handled: None, reply: None, dropped: Some(e) },
                }
            },
            Event::Received(Frame::Ping(d)) => Outcome {
                dispatched: None,
                handled: None,
                reply: Some(Frame::Pong(d)),
                dropped: None,
            },
            Event::Received(Frame::Pong(_)) | Event::Received(Frame::Other) => nothing,
            Event::Received(Frame::Close) | Event::Failed => {
                self.state = SessionState::Closing;
                nothing
            },
        }
    }
}

} // verus!

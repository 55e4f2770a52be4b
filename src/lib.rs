//! A six-byte-header framing protocol with urgency-based dispatch, the
//! per-connection session state machine that drives it, and the address
//! configuration of the services that speak it.

pub mod command;
pub mod config;
pub mod dispatch;
pub mod protocol;
pub mod session;
pub mod stream;
pub mod text;

pub use command::{classify_command, parse_command, Command};
pub use config::{AddrConfig, ProtocolHint, TlsConfig};
pub use dispatch::{Behavior, ProtocolApi, StrategyHandler};
pub use protocol::{Packet, PacketHeader, ProtocolError, Urgency, HEADER_LEN, PACKET_TYPE_MESSAGE, PROTOCOL_VERSION};
pub use session::{Event, Frame, Outcome, Role, Session, SessionState};
pub use stream::{fix_message, target_track, Fix, TRACK_CHANNEL_CAPACITY, TRACK_INTERVAL_MS, TRACK_UPDATES};

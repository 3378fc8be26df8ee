//! Verified core of a chat-service load generator.
//!
//! The library is the sans-I/O heart of the tool: the wire-protocol codec
//! for the JSON message envelopes, the metrics aggregator that room loops
//! report into, and the state machines that drive room population and the
//! per-room send/collect conversation loop.  All network and timer work
//! stays outside, in a thin runner that feeds events into these machines.

pub mod client;
pub mod codec;
pub mod messages;
pub mod naming;
pub mod population;
pub mod room;
pub mod state;

pub use client::Client;
pub use client::ConnectError;
pub use client::FrameEvent;
pub use client::ReceiveError;
pub use client::SendError;
pub use client::TransportType;
pub use client::WaitStep;
pub use codec::FrameVerdict;
pub use codec::FrameVerdictView;
pub use codec::JsonShape;
pub use codec::decode_frame;
pub use codec::encode_client_message;
pub use messages::ClientMessage;
pub use messages::Message;
pub use messages::MessageView;
pub use messages::ServerMessage;
pub use naming::push_decimal;
pub use naming::room_name;
pub use naming::username_for;
pub use population::Population;
pub use room::LoopError;
pub use room::Phase;
pub use room::RoomLoop;
pub use state::State;
pub use state::StateDump;

//! Server side of the SOCKS4 proxy protocol, without the sockets.
//!
//! The crate holds the wire formats and the decisions of a SOCKS4 server as
//! verified code over plain values. Whoever drives it owns the connections:
//! it reads bytes and hands them in, performs the actions that the handler
//! asks for, and reports how each went.
//!
//! - `request`: the request of a client, decoded from a byte stream.
//! - `reply`: the eight-byte status reply, encoded and decoded.
//! - `handler`: what is done for a request, step by step: dial, reply,
//!   duplicate the connections, start the relay.
//! - `relay`: the two directions of a relay and how each of them ends.
//! - `stream`, `byte_order`, `error`: what the others stand on.
//!
//! What holds of all inputs is stated next to the code it is about, as the
//! contracts of the functions and as proof functions.

pub mod byte_order;
pub mod error;
pub mod handler;
pub mod relay;
pub mod reply;
pub mod request;
pub mod stream;

pub use byte_order::ByteOrder;
pub use error::{Outcome, Socks4Error};
pub use handler::{handle_sock4_client, ActionView, HandlerAction, HandlerState};
pub use relay::{Direction, Endpoint, Half, RelayAction, RelaySession, RelayState};
pub use reply::{Sock4Reply, Socks4ReplyCode};
pub use request::{RequestView, Sock4Request};
pub use stream::ByteStream;

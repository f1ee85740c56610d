//! The client: connecting to an endpoint and calling it.

pub mod body;
pub mod connection;
pub mod destination;
pub mod endpoint;

pub use body::{make_fut, ReceiveAction, Received, Receiving, RecvStream};
pub use connection::{call_step, CallAction, CallEvent, CallState, Connection};
pub use destination::{
    destination, select_destination, Destination, DestinationError, UriParts, DEFAULT_PORT,
};
pub use endpoint::{ConnectAction, ConnectEvent, ConnectState, Endpoint};

//! The server: it serves a connection with a service made for it, one request
//! after the other.

pub mod app;
pub mod body;
pub mod error;
pub mod serve;

pub use app::App;
pub use body::{make_fut, RecvStream};
pub use error::Error;
pub use serve::{ServeAction, ServeEvent, ServeState, Server};

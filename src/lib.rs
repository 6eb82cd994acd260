//! Client side of the ECP remote-control protocol: frame classification,
//! the challenge-response handshake, request framing, response decoding and
//! the bookkeeping of a connection to one device.

pub mod text;
pub mod codec;
pub mod message;
pub mod auth;
pub mod response;
pub mod request;
pub mod command;
pub mod query;
pub mod connection;

pub use connection::Connection;
pub use message::{ContentData, ContentType, ECPMessage, Frame};
pub use request::Request;
pub use response::Response;
pub use command::Command;
pub use query::Get;

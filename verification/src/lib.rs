//! Client logic for an anonymity-network session bridge that is reached over HTTP
//! with JSON bodies.
//!
//! Every operation is one round trip: a request envelope is posted to the bridge's
//! endpoint and the reply is read. The library builds the envelope and the endpoint
//! address and reads the reply; the round trip itself is made by a transport that
//! the caller hands in, so the library opens no connection of its own.
//!
//! [`I2PSamClient`] offers each operation as one call that takes the transport as
//! a function. A caller that has to wait for the round trip in its own way builds
//! the envelope with [`SamRequest`], posts it to [`I2PSamClient::endpoint`], and
//! reads the outcome with the functions of [`reply`]; the operations of
//! [`I2PSamClient`] do the same three steps.

pub mod client;
pub mod digits;
pub mod error;
pub mod operation;
pub mod reply;
pub mod request;
pub mod response;

pub use client::I2PSamClient;
pub use error::{OperationError, SamError};
pub use operation::Operation;
pub use request::SamRequest;
pub use response::SamResponse;

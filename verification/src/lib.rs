//! The decision logic of a point-to-point TLS tunnel.
//!
//! The crate loads PEM credentials, assembles the trust context of a client
//! or a server, decides how a session is established and when the byte pump
//! between the session and the local terminal stops. It opens no socket and
//! reads no file: a driver performs each action the crate asks for and
//! reports what came of it.

pub mod error;
pub mod pem;
pub mod trust;
pub mod session;
pub mod pump;
pub mod args;

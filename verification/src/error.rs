//! The failures a tunnel invocation can end with.
//!
//! Every failure is terminal for the invocation that met it: nothing in this
//! crate retries. What happens while bytes are being pumped is never
//! reported as an error, so no variant stands for it.

use vstd::prelude::*;

verus! {

/// Why a tunnel could not be set up.
#[derive(Clone, Copy, Debug, PartialEq, Eq, Structural)]
pub enum TunnelError {
    /// A certificate file was unreadable, was not PEM, or held no certificate.
    InvalidCert,
    /// A key file was unreadable, was not PEM, or held no RSA private key.
    InvalidKey,
    /// The trust context could not be assembled: a certificate of the custom
    /// CA is no usable trust anchor, or the identity could not be bound.
    InvalidInput,
    /// The outbound TCP connection could not be opened.
    ConnectFailed,
    /// The listening socket could not be bound.
    BindFailed,
    /// No inbound connection could be accepted.
    AcceptFailed,
    /// The host cannot serve as the name a certificate is checked against.
    InvalidServerName,
    /// The TLS negotiation broke down for a reason other than trust.
    HandshakeFailed,
    /// The peer's certificate was not accepted.
    CertificateRejected,
}

impl TunnelError {
    /// The text shown to the user for this failure, as a sequence of characters.
    pub open spec fn text(self) -> Seq<char> {
        match self {
            TunnelError::InvalidCert => "invalid cert"@,
            TunnelError::InvalidKey => "invalid key"@,
            TunnelError::InvalidInput => "invalid trust input"@,
            TunnelError::ConnectFailed => "failed to connect"@,
            TunnelError::BindFailed => "failed to bind"@,
            TunnelError::AcceptFailed => "failed to accept"@,
            TunnelError::InvalidServerName => "invalid server name"@,
            TunnelError::HandshakeFailed => "handshake failed"@,
            TunnelError::CertificateRejected => "certificate rejected"@,
        }
    }

    /// The text shown to the user for this failure.
    pub fn message(self) -> (msg: &'static str)
        ensures
            msg@ == self.text(),
    {
        match self {
            TunnelError::InvalidCert => "invalid cert",
            TunnelError::InvalidKey => "invalid key",
            TunnelError::InvalidInput => "invalid trust input",
            TunnelError::ConnectFailed => "failed to connect",
            TunnelError::BindFailed => "failed to bind",
            TunnelError::AcceptFailed => "failed to accept",
            TunnelError::InvalidServerName => "invalid server name",
            TunnelError::HandshakeFailed => "handshake failed",
            TunnelError::CertificateRejected => "certificate rejected",
        }
    }
}

} // verus!

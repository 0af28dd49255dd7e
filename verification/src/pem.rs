//! Credentials read from PEM text: certificate chains and RSA private keys.
//!
//! A caller reads the file and hands over what it got as a [`PemSource`];
//! the PEM grammar itself is `rustls_pemfile`'s.

use vstd::prelude::*;
use crate::error::TunnelError;

verus! {

/// What reading a credential file gave.
#[derive(Debug)]
pub enum PemSource {
    /// The file could not be opened or read.
    Unreadable,
    /// The bytes of the file.
    Bytes(Vec<u8>),
}

/// The byte strings held by a sequence of byte vectors.
pub open spec fn blocks_view(blocks: Seq<Vec<u8>>) -> Seq<Seq<u8>> {
    blocks.map_values(|block: Vec<u8>| block@)
}

/// The byte strings held by what a PEM parse gave.
pub open spec fn parsed_view(parsed: Option<Vec<Vec<u8>>>) -> Option<Seq<Seq<u8>>> {
    match parsed {
        Some(blocks) => Some(blocks_view(blocks@)),
        None => None,
    }
}

/// The DER contents of the `CERTIFICATE` sections of `pem`, in file order,
/// as `rustls_pemfile::certs` extracts them; `None` where it reports an error.
pub uninterp spec fn pem_certificates(pem: Seq<u8>) -> Option<Seq<Seq<u8>>>;

/// The DER contents of the `RSA PRIVATE KEY` sections of `pem`, in file
/// order, as `rustls_pemfile::rsa_private_keys` extracts them; `None` where
/// it reports an error.
pub uninterp spec fn pem_rsa_keys(pem: Seq<u8>) -> Option<Seq<Seq<u8>>>;

/// Calls `rustls_pemfile::certs` on an in-memory reader over `pem`.
///
/// Not proved: that the result is `pem_certificates(pem@)`, which only gives
/// the call's result a name; the reader is a slice, so an error can only be
/// a malformed section.
#[verifier::external_body]
fn parse_certificates(pem: &Vec<u8>) -> (parsed: Option<Vec<Vec<u8>>>)
    ensures
        parsed_view(parsed) == pem_certificates(pem@),
{
    rustls_pemfile::certs(&mut pem.as_slice()).ok()
}

/// Calls `rustls_pemfile::rsa_private_keys` on an in-memory reader over `pem`.
///
/// Not proved: that the result is `pem_rsa_keys(pem@)`, which only gives the
/// call's result a name.
#[verifier::external_body]
fn parse_rsa_keys(pem: &Vec<u8>) -> (parsed: Option<Vec<Vec<u8>>>)
    ensures
        parsed_view(parsed) == pem_rsa_keys(pem@),
{
    rustls_pemfile::rsa_private_keys(&mut pem.as_slice()).ok()
}

/// An ordered, never empty sequence of DER-encoded certificates, leaf first
/// where it is an identity.
pub struct CertificateChain {
    certs: Vec<Vec<u8>>,
}

impl View for CertificateChain {
    type V = Seq<Seq<u8>>;

    closed spec fn view(&self) -> Seq<Seq<u8>> {
        blocks_view(self.certs@)
    }
}

impl CertificateChain {
    #[verifier::type_invariant]
    spec fn never_empty(self) -> bool {
        self.certs@.len() > 0
    }

    /// How many certificates the chain holds; at least one.
    pub fn len(&self) -> (n: usize)
        ensures
            n == self@.len(),
            n > 0,
    {
        proof {
            use_type_invariant(self);
        }
        self.certs.len()
    }

    /// The DER bytes of the certificate at position `index`.
    pub fn certificate(&self, index: usize) -> (der: &Vec<u8>)
        requires
            index < self@.len(),
        ensures
            der@ == self@[index as int],
    {
        &self.certs[index]
    }

    /// The certificates as plain byte vectors, in chain order.
    pub fn into_der(self) -> (blocks: Vec<Vec<u8>>)
        ensures
            blocks_view(blocks@) == self@,
            blocks@.len() > 0,
    {
        proof {
            use_type_invariant(&self);
        }
        self.certs
    }
}

/// One DER-encoded RSA private key, with the count of the further keys that
/// its file held and that were left unused.
pub struct PrivateKey {
    der: Vec<u8>,
    unused: usize,
}

impl View for PrivateKey {
    type V = Seq<u8>;

    closed spec fn view(&self) -> Seq<u8> {
        self.der@
    }
}

impl PrivateKey {
    /// How many keys followed the first one in the file and were dropped.
    pub closed spec fn unused_keys(&self) -> nat {
        self.unused as nat
    }

    /// The DER bytes of the key.
    pub fn der(&self) -> (der: &Vec<u8>)
        ensures
            der@ == self@,
    {
        &self.der
    }

    /// How many keys followed the first one in the file and were dropped.
    /// A caller that wants no silent truncation warns when this is not zero.
    pub fn unused_key_count(&self) -> (n: usize)
        ensures
            n == self.unused_keys(),
    {
        self.unused
    }
}

/// What a certificate file yields, given what the PEM parse of it gave:
/// all the certificates in file order, and `InvalidCert` where the parse
/// failed or found none.
pub open spec fn chain_outcome(parsed: Option<Seq<Seq<u8>>>) -> Result<Seq<Seq<u8>>, TunnelError> {
    match parsed {
        Some(blocks) => if blocks.len() > 0 {
            Ok(blocks)
        } else {
            Err(TunnelError::InvalidCert)
        },
        None => Err(TunnelError::InvalidCert),
    }
}

/// What a key file yields, given what the PEM parse of it gave: the first
/// key and the number of keys after it, and `InvalidKey` where the parse
/// failed or found none.
pub open spec fn key_outcome(parsed: Option<Seq<Seq<u8>>>) -> Result<(Seq<u8>, nat), TunnelError> {
    match parsed {
        Some(blocks) => if blocks.len() > 0 {
            Ok((blocks[0], (blocks.len() - 1) as nat))
        } else {
            Err(TunnelError::InvalidKey)
        },
        None => Err(TunnelError::InvalidKey),
    }
}

/// What `load_certificates` yields for a source.
pub open spec fn certificates_of(source: PemSource) -> Result<Seq<Seq<u8>>, TunnelError> {
    match source {
        PemSource::Unreadable => Err(TunnelError::InvalidCert),
        PemSource::Bytes(pem) => chain_outcome(pem_certificates(pem@)),
    }
}

/// What `load_private_key` yields for a source.
pub open spec fn private_key_of(source: PemSource) -> Result<(Seq<u8>, nat), TunnelError> {
    match source {
        PemSource::Unreadable => Err(TunnelError::InvalidKey),
        PemSource::Bytes(pem) => key_outcome(pem_rsa_keys(pem@)),
    }
}

/// True when `loaded` is the chain, or the error, that `expected` names.
pub open spec fn chain_matches(
    loaded: Result<CertificateChain, TunnelError>,
    expected: Result<Seq<Seq<u8>>, TunnelError>,
) -> bool {
    match expected {
        Ok(blocks) => loaded matches Ok(chain) && chain@ == blocks,
        Err(error) => loaded matches Err(e) && e == error,
    }
}

/// True when `loaded` is the key, or the error, that `expected` names.
pub open spec fn key_matches(
    loaded: Result<PrivateKey, TunnelError>,
    expected: Result<(Seq<u8>, nat), TunnelError>,
) -> bool {
    match expected {
        Ok((der, unused)) => loaded matches Ok(key) && key@ == der && key.unused_keys() == unused,
        Err(error) => loaded matches Err(e) && e == error,
    }
}

/// Turns the certificates a PEM parse extracted into a chain. Every
/// certificate is kept, in the order given; no certificate at all, or a
/// failed parse, is `InvalidCert`.
pub fn chain_from_blocks(parsed: Option<Vec<Vec<u8>>>) -> (loaded: Result<
    CertificateChain,
    TunnelError,
>)
    ensures
        chain_matches(loaded, chain_outcome(parsed_view(parsed))),
{
    match parsed {
        Some(blocks) => {
            if blocks.len() > 0 {
                Ok(CertificateChain { certs: blocks })
            } else {
                Err(TunnelError::InvalidCert)
            }
        },
        None => Err(TunnelError::InvalidCert),
    }
}

/// Turns the keys a PEM parse extracted into the one key in use: the first.
/// The keys after it are counted, not kept. No key at all, or a failed
/// parse, is `InvalidKey`.
pub fn key_from_blocks(parsed: Option<Vec<Vec<u8>>>) -> (loaded: Result<PrivateKey, TunnelError>)
    ensures
        key_matches(loaded, key_outcome(parsed_view(parsed))),
{
    match parsed {
        Some(blocks) => {
            let mut blocks = blocks;
            let count = blocks.len();
            if count > 0 {
                let first = blocks.swap_remove(0);
                Ok(PrivateKey { der: first, unused: count - 1 })
            } else {
                Err(TunnelError::InvalidKey)
            }
        },
        None => Err(TunnelError::InvalidKey),
    }
}

/// Loads the certificate chain of a PEM source: all its `CERTIFICATE`
/// sections, in file order. Fails with `InvalidCert` where the source is
/// unreadable, is malformed PEM, or holds no certificate.
pub fn load_certificates(source: &PemSource) -> (loaded: Result<CertificateChain, TunnelError>)
    ensures
        chain_matches(loaded, certificates_of(*source)),
{
    match source {
        PemSource::Unreadable => Err(TunnelError::InvalidCert),
        PemSource::Bytes(pem) => chain_from_blocks(parse_certificates(pem)),
    }
}

/// Loads the private key of a PEM source: the first of its `RSA PRIVATE KEY`
/// sections. Fails with `InvalidKey` where the source is unreadable, is
/// malformed PEM, or holds no such key.
pub fn load_private_key(source: &PemSource) -> (loaded: Result<PrivateKey, TunnelError>)
    ensures
        key_matches(loaded, private_key_of(*source)),
{
    match source {
        PemSource::Unreadable => Err(TunnelError::InvalidKey),
        PemSource::Bytes(pem) => key_from_blocks(parse_rsa_keys(pem)),
    }
}

/// A file whose PEM holds N certificates loads as the chain of exactly
/// those N, in file order, where N is at least one; a file that holds none
/// does not load.
pub proof fn lemma_chain_keeps_every_certificate(pem: Vec<u8>, blocks: Seq<Seq<u8>>)
    requires
        pem_certificates(pem@) == Some(blocks),
    ensures
        blocks.len() > 0 ==> certificates_of(PemSource::Bytes(pem)) == Ok::<
            Seq<Seq<u8>>,
            TunnelError,
        >(blocks),
        blocks.len() == 0 ==> certificates_of(PemSource::Bytes(pem)) == Err::<
            Seq<Seq<u8>>,
            TunnelError,
        >(TunnelError::InvalidCert),
{
}

/// Malformed PEM never loads: a certificate file fails with `InvalidCert`
/// and a key file with `InvalidKey`. What does load is never empty.
pub proof fn lemma_malformed_pem_is_rejected(source: PemSource)
    ensures
        source matches PemSource::Bytes(pem) && pem_certificates(pem@) is None ==> certificates_of(
            source,
        ) == Err::<Seq<Seq<u8>>, TunnelError>(TunnelError::InvalidCert),
        source matches PemSource::Bytes(pem) && pem_rsa_keys(pem@) is None ==> private_key_of(
            source,
        ) == Err::<(Seq<u8>, nat), TunnelError>(TunnelError::InvalidKey),
        certificates_of(source) matches Ok(chain) ==> chain.len() > 0,
        certificates_of(source) matches Err(error) ==> error == TunnelError::InvalidCert,
        private_key_of(source) matches Err(error) ==> error == TunnelError::InvalidKey,
{
}

} // verus!

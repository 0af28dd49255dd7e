//! The trust context of one side of a tunnel.
//!
//! Trust is additive: the public roots that ship with `webpki_roots` always
//! count, and the certificates of an optional custom CA are added to them.
//! A server further binds the one identity it presents. Clients present
//! none, and servers ask for none.

use vstd::prelude::*;
use tokio_rustls::rustls::ClientConfig;
use tokio_rustls::rustls::Error;
use tokio_rustls::rustls::RootCertStore;
use tokio_rustls::rustls::ServerConfig;
use crate::error::TunnelError;
use crate::pem::{
    blocks_view, certificates_of, load_certificates, load_private_key, private_key_of,
    CertificateChain, PemSource, PrivateKey,
};

verus! {

/// `rustls::RootCertStore`, known here by the anchors it holds.
#[verifier::external_type_specification]
#[verifier::external_body]
pub struct ExRootCertStore(RootCertStore);

/// `rustls::ClientConfig`, carried through as an opaque value.
#[verifier::external_type_specification]
#[verifier::external_body]
pub struct ExClientConfig(ClientConfig);

/// `rustls::ServerConfig`, carried through as an opaque value.
#[verifier::external_type_specification]
#[verifier::external_body]
pub struct ExServerConfig(ServerConfig);

/// `rustls::Error`, carried through as an opaque value.
#[verifier::external_type_specification]
#[verifier::external_body]
pub struct ExTlsError(Error);

/// A root of trust as a `RootCertStore` holds it: the DER of the subject name
/// with its outer SEQUENCE, of the public key info, and of the name
/// constraints where there are any.
pub struct TrustAnchor {
    pub subject: Seq<u8>,
    pub spki: Seq<u8>,
    pub name_constraints: Option<Seq<u8>>,
}

/// The anchors a `RootCertStore` holds, in the order of its `roots` field.
pub uninterp spec fn root_anchors(store: RootCertStore) -> Seq<TrustAnchor>;

/// The contents of a store that held `before` and was then extended with
/// every entry of `webpki_roots::TLS_SERVER_ROOTS`.
pub uninterp spec fn with_builtin_roots(before: Seq<TrustAnchor>) -> Seq<TrustAnchor>;

/// The anchor that `RootCertStore::add` derives from a DER certificate;
/// `None` where it rejects the certificate.
pub uninterp spec fn cert_anchor(der: Seq<u8>) -> Option<TrustAnchor>;

/// `RootCertStore::empty` makes a store with no anchor in it.
pub assume_specification[ RootCertStore::empty ]() -> (store: RootCertStore)
    ensures
        root_anchors(store) == Seq::<TrustAnchor>::empty(),
;

/// Calls `RootCertStore::add_trust_anchors` with every entry of
/// `webpki_roots::TLS_SERVER_ROOTS`, each turned into an owned anchor by
/// `OwnedTrustAnchor::from_subject_spki_name_constraints`.
///
/// Not proved: that the store then holds `with_builtin_roots` of what it
/// held, which only gives that extension a name.
#[verifier::external_body]
fn add_builtin_roots(store: &mut RootCertStore)
    ensures
        root_anchors(*final(store)) == with_builtin_roots(root_anchors(*old(store))),
{
    store.add_trust_anchors(
        webpki_roots::TLS_SERVER_ROOTS.0.iter().map(
            |anchor|
                tokio_rustls::rustls::OwnedTrustAnchor::from_subject_spki_name_constraints(
                    anchor.subject,
                    anchor.spki,
                    anchor.name_constraints,
                ),
        ),
    );
}

/// Calls `RootCertStore::add` on one DER certificate.
///
/// Not proved: that it succeeds exactly where `cert_anchor` names an
/// anchor, that it then appends that anchor after the ones held, and that
/// it leaves the store as it was where it fails.
#[verifier::external_body]
fn add_root(store: &mut RootCertStore, der: &Vec<u8>) -> (added: Result<(), Error>)
    ensures
        added is Ok <==> cert_anchor(der@) is Some,
        added is Ok ==> root_anchors(*final(store)) == root_anchors(*old(store)).push(
            cert_anchor(der@).unwrap(),
        ),
        added is Err ==> root_anchors(*final(store)) == root_anchors(*old(store)),
{
    store.add(&tokio_rustls::rustls::Certificate(der.clone()))
}

/// Reads `OwnedTrustAnchor::subject` of every anchor in the store's `roots`.
///
/// Not proved: that these are the subjects of `root_anchors`, in order.
#[verifier::external_body]
fn anchor_subjects(store: &RootCertStore) -> (subjects: Vec<Vec<u8>>)
    ensures
        blocks_view(subjects@) == subjects_of(root_anchors(*store)),
{
    store.roots.iter().map(|anchor| anchor.subject().as_ref().to_vec()).collect()
}

/// Builds a `ClientConfig` with the safe defaults, a copy of `store` as its
/// root certificates, and no client authentication. The configuration is
/// opaque here: nothing is claimed of it.
#[verifier::external_body]
fn client_config_over(store: &RootCertStore) -> (config: ClientConfig) {
    ClientConfig::builder()
        .with_safe_defaults()
        .with_root_certificates(store.clone())
        .with_no_client_auth()
}

/// Builds a `ServerConfig` with the safe defaults and no client
/// authentication, and calls `with_single_cert` on it with the chain and the
/// key. Nothing is claimed of the result: the call fails where it finds the
/// key invalid, which may take the system's random source to tell, and the
/// configuration is opaque here.
#[verifier::external_body]
fn bind_identity(chain: &Vec<Vec<u8>>, key: &Vec<u8>) -> (bound: Result<ServerConfig, Error>) {
    let certs = chain.iter().map(|der| tokio_rustls::rustls::Certificate(der.clone())).collect();
    ServerConfig::builder()
        .with_safe_defaults()
        .with_no_client_auth()
        .with_single_cert(certs, tokio_rustls::rustls::PrivateKey(key.clone()))
}

/// The subject names of a sequence of anchors, in order.
pub open spec fn subjects_of(anchors: Seq<TrustAnchor>) -> Seq<Seq<u8>> {
    anchors.map_values(|anchor: TrustAnchor| anchor.subject)
}

/// The public roots every trust context starts from.
pub open spec fn baseline_roots() -> Seq<TrustAnchor> {
    with_builtin_roots(Seq::<TrustAnchor>::empty())
}

/// True when every certificate of `chain` can serve as a trust anchor.
pub open spec fn all_anchors(chain: Seq<Seq<u8>>) -> bool {
    forall|i: int| 0 <= i < chain.len() ==> (#[trigger] cert_anchor(chain[i])) is Some
}

/// The anchors of the certificates of `chain`, in chain order, where each
/// of them has one.
pub open spec fn anchors_of(chain: Seq<Seq<u8>>) -> Seq<TrustAnchor> {
    chain.map_values(|der: Seq<u8>| cert_anchor(der).unwrap())
}

/// The trusted roots that an optional custom CA leads to: the baseline
/// alone without one; with one, the baseline followed by the anchor of each
/// of its certificates. A CA that cannot be loaded fails as its loading
/// does, and one with a certificate that is no anchor is `InvalidInput`.
pub open spec fn roots_outcome(custom_ca: Option<&PemSource>) -> Result<
    Seq<TrustAnchor>,
    TunnelError,
> {
    match custom_ca {
        None => Ok(baseline_roots()),
        Some(source) => match certificates_of(*source) {
            Err(error) => Err(error),
            Ok(chain) => if all_anchors(chain) {
                Ok(baseline_roots() + anchors_of(chain))
            } else {
                Err(TunnelError::InvalidInput)
            },
        },
    }
}

/// Which end of the tunnel a trust context is for.
#[derive(Clone, Copy, Debug, PartialEq, Eq, Structural)]
pub enum Role {
    Client,
    Server,
}

/// What a server presents: its certificate chain, leaf first, and the one
/// private key that goes with it.
pub struct Identity {
    chain: CertificateChain,
    key: PrivateKey,
}

impl Identity {
    /// The chain and the key, as byte strings.
    pub closed spec fn view(&self) -> (Seq<Seq<u8>>, Seq<u8>) {
        (self.chain@, self.key@)
    }

    /// The certificate chain, leaf first.
    pub fn chain(&self) -> (chain: &CertificateChain)
        ensures
            chain@ == self@.0,
    {
        &self.chain
    }

    /// The private key.
    pub fn key(&self) -> (key: &PrivateKey)
        ensures
            key@ == self@.1,
    {
        &self.key
    }
}

enum Side {
    Client(ClientConfig),
    Server(Identity, ServerConfig),
}

/// The trust context of one invocation: the roots it trusts and, for a
/// server only, the identity it presents, with the TLS configuration that
/// was built from them.
///
/// A server without an identity, or a client with one, cannot be made.
pub struct TrustConfig {
    roots: RootCertStore,
    side: Side,
}

impl TrustConfig {
    /// The role this context was built for.
    pub closed spec fn spec_role(&self) -> Role {
        match self.side {
            Side::Client(_) => Role::Client,
            Side::Server(_, _) => Role::Server,
        }
    }

    /// The anchors this context trusts, baseline first.
    pub closed spec fn trusted_roots(&self) -> Seq<TrustAnchor> {
        root_anchors(self.roots)
    }

    /// The chain and the key this context presents; `None` for a client.
    pub closed spec fn spec_identity(&self) -> Option<(Seq<Seq<u8>>, Seq<u8>)> {
        match self.side {
            Side::Client(_) => None,
            Side::Server(identity, _) => Some(identity@),
        }
    }

    /// The role this context was built for.
    #[verifier::when_used_as_spec(spec_role)]
    pub fn role(&self) -> (role: Role)
        ensures
            role == self.spec_role(),
    {
        match &self.side {
            Side::Client(_) => Role::Client,
            Side::Server(_, _) => Role::Server,
        }
    }

    /// The subject names of the trusted anchors, baseline first.
    pub fn root_subjects(&self) -> (subjects: Vec<Vec<u8>>)
        ensures
            blocks_view(subjects@) == subjects_of(self.trusted_roots()),
    {
        anchor_subjects(&self.roots)
    }

    /// The identity this context presents: one for a server, none for a
    /// client.
    pub fn identity(&self) -> (identity: Option<&Identity>)
        ensures
            identity is Some <==> self.spec_role() == Role::Server,
            match identity {
                Some(id) => self.spec_identity() == Some(id@),
                None => self.spec_identity() is None,
            },
    {
        match &self.side {
            Side::Client(_) => None,
            Side::Server(identity, _) => Some(identity),
        }
    }

    /// The TLS configuration of a client context: the one that was built
    /// over the trusted roots, with no client authentication.
    pub fn client_config(&self) -> (config: Option<&ClientConfig>)
        ensures
            config is Some <==> self.spec_role() == Role::Client,
    {
        match &self.side {
            Side::Client(config) => Some(config),
            Side::Server(_, _) => None,
        }
    }

    /// The TLS configuration of a server context: the one that the
    /// identity was bound to, with no client authentication.
    pub fn server_config(&self) -> (config: Option<&ServerConfig>)
        ensures
            config is Some <==> self.spec_role() == Role::Server,
    {
        match &self.side {
            Side::Client(_) => None,
            Side::Server(_, config) => Some(config),
        }
    }
}

/// Adds the anchor of every certificate of `chain` to `store`, in chain
/// order. Stops at the first certificate that is no anchor; what the store
/// held before is never touched.
fn add_custom_roots(store: &mut RootCertStore, chain: &CertificateChain) -> (added: Result<
    (),
    TunnelError,
>)
    ensures
        all_anchors(chain@) ==> added is Ok && root_anchors(*final(store)) == root_anchors(
            *old(store),
        ) + anchors_of(chain@),
        !all_anchors(chain@) ==> added == Err::<(), TunnelError>(TunnelError::InvalidInput),
        root_anchors(*old(store)).is_prefix_of(root_anchors(*final(store))),
{
    let count = chain.len();
    let mut index: usize = 0;
    while index < count
        invariant
            index <= count,
            count == chain@.len(),
            all_anchors(chain@.subrange(0, index as int)),
            root_anchors(*store) == root_anchors(*old(store)) + anchors_of(
                chain@.subrange(0, index as int),
            ),
        decreases count - index,
    {
        let der = chain.certificate(index);
        match add_root(store, der) {
            Ok(()) => {},
            Err(_) => {
                return Err(TunnelError::InvalidInput);
            },
        }
        proof {
            let done = chain@.subrange(0, index as int);
            let next = chain@.subrange(0, index as int + 1);
            assert(next == done.push(chain@[index as int]));
            assert(anchors_of(next) == anchors_of(done).push(cert_anchor(der@).unwrap()));
            assert forall|i: int| 0 <= i < index implies next[i] == done[i] by {}
        }
        index += 1;
    }
    proof {
        assert(chain@.subrange(0, index as int) == chain@);
    }
    Ok(())
}

/// Builds the root store that an optional custom CA leads to.
fn build_roots(custom_ca: Option<&PemSource>) -> (built: Result<RootCertStore, TunnelError>)
    ensures
        match roots_outcome(custom_ca) {
            Ok(roots) => built matches Ok(store) && root_anchors(store) == roots,
            Err(error) => built matches Err(e) && e == error,
        },
{
    let mut store = RootCertStore::empty();
    add_builtin_roots(&mut store);
    match custom_ca {
        None => Ok(store),
        Some(source) => {
            let chain = load_certificates(source)?;
            add_custom_roots(&mut store, &chain)?;
            Ok(store)
        },
    }
}

/// Builds the trust context of a client: the baseline roots, and after them
/// the anchors of the custom CA where one is given. No identity is bound.
///
/// Fails as the loading of the CA does, and with `InvalidInput` where one of
/// its certificates is no trust anchor.
pub fn build_client_trust(custom_ca: Option<&PemSource>) -> (built: Result<
    TrustConfig,
    TunnelError,
>)
    ensures
        match roots_outcome(custom_ca) {
            Ok(roots) => built matches Ok(trust) && trust.spec_role() == Role::Client
                && trust.trusted_roots() == roots && trust.spec_identity() is None,
            Err(error) => built matches Err(e) && e == error,
        },
{
    let roots = build_roots(custom_ca)?;
    let config = client_config_over(&roots);
    Ok(TrustConfig { roots, side: Side::Client(config) })
}

/// Finishes the trust context of a server from its parts and from what
/// binding the identity gave: the context where a configuration came back,
/// `InvalidInput` where the binding failed.
pub fn server_trust_from(
    roots: RootCertStore,
    chain: CertificateChain,
    key: PrivateKey,
    bound: Result<ServerConfig, Error>,
) -> (built: Result<TrustConfig, TunnelError>)
    ensures
        match bound {
            Ok(config) => built matches Ok(trust) && trust.spec_role() == Role::Server
                && trust.trusted_roots() == root_anchors(roots)
                && trust.spec_identity() == Some((chain@, key@)),
            Err(_) => built matches Err(e) && e == TunnelError::InvalidInput,
        },
{
    match bound {
        Ok(config) => {
            let identity = Identity { chain, key };
            Ok(TrustConfig { roots, side: Side::Server(identity, config) })
        },
        Err(_) => Err(TunnelError::InvalidInput),
    }
}

/// Builds the trust context of a server: the same roots as a client's, and
/// the identity loaded from the certificate and key sources.
///
/// The roots are built first, then the chain is loaded, then the key; the
/// first of these to fail decides the error. Where all three succeed the
/// identity is bound, and the result is the context or `InvalidInput`.
pub fn build_server_trust(
    custom_ca: Option<&PemSource>,
    cert: &PemSource,
    key: &PemSource,
) -> (built: Result<TrustConfig, TunnelError>)
    ensures
        match server_inputs(custom_ca, cert, key) {
            Ok((roots, chain, der)) => match built {
                Ok(trust) => trust.spec_role() == Role::Server && trust.trusted_roots() == roots
                    && trust.spec_identity() == Some((chain, der)),
                Err(e) => e == TunnelError::InvalidInput,
            },
            Err(error) => built matches Err(e) && e == error,
        },
{
    let roots = build_roots(custom_ca)?;
    let chain = load_certificates(cert)?;
    let key = load_private_key(key)?;
    let blocks = chain_blocks(&chain);
    let bound = bind_identity(&blocks, key.der());
    server_trust_from(roots, chain, key, bound)
}

/// What a server context is built from, or the error of the first part that
/// cannot be had: the roots, then the chain, then the key.
pub open spec fn server_inputs(
    custom_ca: Option<&PemSource>,
    cert: &PemSource,
    key: &PemSource,
) -> Result<(Seq<TrustAnchor>, Seq<Seq<u8>>, Seq<u8>), TunnelError> {
    match roots_outcome(custom_ca) {
        Err(error) => Err(error),
        Ok(roots) => match certificates_of(*cert) {
            Err(error) => Err(error),
            Ok(chain) => match private_key_of(*key) {
                Err(error) => Err(error),
                Ok((der, _)) => Ok((roots, chain, der)),
            },
        },
    }
}

/// Copies the certificates of a chain into plain byte vectors.
fn chain_blocks(chain: &CertificateChain) -> (blocks: Vec<Vec<u8>>)
    ensures
        blocks_view(blocks@) == chain@,
{
    let count = chain.len();
    let mut blocks: Vec<Vec<u8>> = Vec::new();
    let mut index: usize = 0;
    while index < count
        invariant
            index <= count,
            count == chain@.len(),
            blocks@.len() == index,
            forall|i: int| 0 <= i < index ==> (#[trigger] blocks@[i])@ == chain@[i],
        decreases count - index,
    {
        blocks.push(chain.certificate(index).clone());
        index += 1;
    }
    proof {
        assert(blocks_view(blocks@) =~= chain@);
    }
    blocks
}

/// Trust is additive. Without a custom CA exactly the baseline roots are
/// trusted. A custom CA that loads adds at least one anchor after them and
/// takes none away: the baseline stays in front, in its order, and every
/// anchor trusted without the CA is trusted with it.
pub proof fn lemma_custom_ca_only_adds_trust(source: PemSource)
    requires
        roots_outcome(Some(&source)) is Ok,
    ensures
        roots_outcome(None) == Ok::<Seq<TrustAnchor>, TunnelError>(baseline_roots()),
        roots_outcome(Some(&source)) matches Ok(roots) && {
            &&& roots.len() > baseline_roots().len()
            &&& roots.subrange(0, baseline_roots().len() as int) == baseline_roots()
            &&& forall|anchor: TrustAnchor|
                baseline_roots().contains(anchor) ==> roots.contains(anchor)
        },
{
    let roots = roots_outcome(Some(&source))->Ok_0;
    let chain = certificates_of(source)->Ok_0;
    let baseline = baseline_roots();
    assert(roots == baseline + anchors_of(chain));
    assert(anchors_of(chain).len() == chain.len());
    assert(roots.subrange(0, baseline.len() as int) == baseline);
    assert forall|anchor: TrustAnchor| baseline.contains(anchor) implies roots.contains(anchor) by {
        let i = choose|i: int| 0 <= i < baseline.len() && baseline[i] == anchor;
        assert(roots[i] == anchor);
    }
}

/// Trust is built from credential material alone, and its errors say so:
/// the roots fail only where a custom CA is given, with `InvalidCert` or
/// `InvalidInput`; the parts of a server fail with one of these or with
/// `InvalidKey`.
pub proof fn lemma_trust_errors(custom_ca: Option<&PemSource>, cert: &PemSource, key: &PemSource)
    ensures
        roots_outcome(custom_ca) matches Err(error) ==> custom_ca is Some && (error
            == TunnelError::InvalidCert || error == TunnelError::InvalidInput),
        server_inputs(custom_ca, cert, key) matches Err(error) ==> error
            == TunnelError::InvalidCert || error == TunnelError::InvalidKey || error
            == TunnelError::InvalidInput,
{
}

} // verus!

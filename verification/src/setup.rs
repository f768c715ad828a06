//! What rustls sets up, each with a record of what it was set up from.
//!
//! The records cannot be written elsewhere.
use crate::pem::{KeyEncoding, PrivateKey, ders};
use crate::roots::{Anchor, anchors};
use rustls::crypto::aws_lc_rs::default_provider;
use rustls::pki_types::{CertificateDer, PrivateKeyDer};
use rustls::server::WebPkiClientVerifier;
use rustls::{Error as RustlsError, RootCertStore, ServerConfig};
use std::sync::Arc;
use vstd::prelude::*;

verus! {

/// Why rustls set up no server.
pub enum SetupError {
    /// No client certificate verifier could be built; the text says why.
    Verifier(String),
    /// The server's identity was refused.
    Rustls(RustlsError),
}

impl From<RustlsError> for SetupError {
    fn from(error: RustlsError) -> (r: Self) {
        SetupError::Rustls(error)
    }
}

impl vstd::std_specs::convert::FromSpecImpl<RustlsError> for SetupError {
    open spec fn obeys_from_spec() -> bool {
        true
    }

    open spec fn from_spec(error: RustlsError) -> Self {
        SetupError::Rustls(error)
    }
}

/// Whether rustls takes the certificates, which are not none and the server's own first, and the
/// private key as a server's identity.
pub uninterp spec fn identity_accepted(
    chain: Seq<Seq<u8>>,
    encoding: KeyEncoding,
    key: Seq<u8>,
) -> bool;

/// The certificates and the private key make a server's identity.
pub open spec fn is_identity(chain: Seq<Seq<u8>>, key: (KeyEncoding, Seq<u8>)) -> bool {
    chain.len() > 0 && identity_accepted(chain, key.0, key.1)
}

/// The anchors of the store, if there is one.
pub open spec fn root_anchors(roots: Option<Arc<RootCertStore>>) -> Option<Seq<Anchor>> {
    match roots {
        Some(store) => Some(anchors(*store)),
        None => None,
    }
}

/// A rustls configuration.
pub struct Setup {
    config: ServerConfig,
    chain: Ghost<Seq<Seq<u8>>>,
    key: Ghost<(KeyEncoding, Seq<u8>)>,
    roots: Option<Arc<RootCertStore>>,
}

impl Setup {
    /// The certificates that are presented, the server's own first.
    pub closed spec fn chain(&self) -> Seq<Seq<u8>> {
        self.chain@
    }

    /// The private key that is signed with.
    pub closed spec fn key(&self) -> (KeyEncoding, Seq<u8>) {
        self.key@
    }

    /// The anchors that a client's certificate must lead to; `None` where clients are not asked
    /// for a certificate.
    pub closed spec fn roots(&self) -> Option<Seq<Anchor>> {
        root_anchors(self.roots)
    }
}

/// Builds a `rustls::ServerConfig` that demands client certificates, with the `aws_lc_rs` provider
/// and its default protocol versions, which that provider supports.
///
/// The client verifier comes from `rustls::server::WebPkiClientVerifier::builder`, whose `build`
/// fails only on a store without anchors, and says so. `with_single_cert` refuses an identity by
/// the certificates and the key alone, and refuses one without certificates. `aws_lc_rs` is the
/// only provider that rustls is compiled with, so the process has a default one for the verifier.
#[verifier::external_body]
pub(crate) fn set_up_verifying(
    chain: Vec<Vec<u8>>,
    key: PrivateKey,
    roots: Arc<RootCertStore>,
) -> (r: Result<Setup, SetupError>)
    ensures
        r matches Err(SetupError::Verifier(_)) <==> anchors(*roots).len() == 0,
        r matches Err(SetupError::Verifier(text)) ==> text@
            == "no root trust anchors were provided"@,
        !(r matches Err(SetupError::Verifier(_))) ==> (r is Ok <==> chain@.len() > 0
            && identity_accepted(ders(chain@), key.encoding, key.der@)),
        r matches Ok(setup) ==> setup.chain() == ders(chain@) && setup.key() == key@
            && setup.roots() == Some(anchors(*roots)),
{
    let (presented, signing) = (Ghost(ders(chain@)), Ghost(key@));
    let builder = ServerConfig::builder_with_provider(Arc::new(default_provider()))
        .with_safe_default_protocol_versions()?;
    let verifier = WebPkiClientVerifier::builder(roots.clone()).build()
        .map_err(|error| SetupError::Verifier(error.to_string()))?;
    let key = match key.encoding {
        KeyEncoding::Pkcs1 => PrivateKeyDer::Pkcs1(key.der.into()),
        KeyEncoding::Pkcs8 => PrivateKeyDer::Pkcs8(key.der.into()),
        KeyEncoding::Sec1 => PrivateKeyDer::Sec1(key.der.into()),
    };
    let config = builder.with_client_cert_verifier(verifier)
        .with_single_cert(chain.into_iter().map(CertificateDer::from).collect(), key)?;
    Ok(Setup { config, chain: presented, key: signing, roots: Some(roots) })
}

/// Builds a `rustls::ServerConfig` that asks clients for no certificate, with the `aws_lc_rs`
/// provider and its default protocol versions, which that provider supports.
/// `with_single_cert` refuses an identity by the certificates and the key alone, and refuses one
/// without certificates.
#[verifier::external_body]
pub(crate) fn set_up_open(chain: Vec<Vec<u8>>, key: PrivateKey) -> (r: Result<Setup, RustlsError>)
    ensures
        (r is Ok) == (chain@.len() != 0 && identity_accepted(
            ders(chain@),
            key.encoding,
            key.der@,
        )),
        r matches Ok(setup) ==> setup.chain() == ders(chain@) && setup.key() == key@
            && setup.roots() is None,
{
    let (presented, signing) = (Ghost(ders(chain@)), Ghost(key@));
    let builder = ServerConfig::builder_with_provider(Arc::new(default_provider()))
        .with_safe_default_protocol_versions()?;
    let key = match key.encoding {
        KeyEncoding::Pkcs1 => PrivateKeyDer::Pkcs1(key.der.into()),
        KeyEncoding::Pkcs8 => PrivateKeyDer::Pkcs8(key.der.into()),
        KeyEncoding::Sec1 => PrivateKeyDer::Sec1(key.der.into()),
    };
    let config = builder.with_no_client_auth()
        .with_single_cert(chain.into_iter().map(CertificateDer::from).collect(), key)?;
    Ok(Setup { config, chain: presented, key: signing, roots: None })
}

/// rustls, asked for a server with this identity that holds its clients against these anchors, has
/// refused the identity with this error.
pub closed spec fn refused(
    chain: Seq<Seq<u8>>,
    key: (KeyEncoding, Seq<u8>),
    roots: Option<Seq<Anchor>>,
    error: RustlsError,
) -> bool {
    match roots {
        Some(held) => exists|certs: Vec<Vec<u8>>, private: PrivateKey, store: Arc<RootCertStore>|
            {
                &&& ders(certs@) == chain
                &&& private@ == key
                &&& anchors(*store) == held
                &&& #[trigger] call_ensures(
                    set_up_verifying,
                    (certs, private, store),
                    Err(SetupError::Rustls(error)),
                )
            },
        None => exists|certs: Vec<Vec<u8>>, private: PrivateKey|
            {
                &&& ders(certs@) == chain
                &&& private@ == key
                &&& #[trigger] call_ensures(set_up_open, (certs, private), Err(error))
            },
    }
}

/// An identity that a call of [`set_up_verifying`] has refused is refused.
pub(crate) proof fn lemma_refused_verifying(
    chain: Vec<Vec<u8>>,
    key: PrivateKey,
    roots: Arc<RootCertStore>,
    error: RustlsError,
)
    requires
        call_ensures(set_up_verifying, (chain, key, roots), Err(SetupError::Rustls(error))),
    ensures
        refused(ders(chain@), key@, Some(anchors(*roots)), error),
{
}

/// An identity that a call of [`set_up_open`] has refused is refused.
pub(crate) proof fn lemma_refused_open(chain: Vec<Vec<u8>>, key: PrivateKey, error: RustlsError)
    requires
        call_ensures(set_up_open, (chain, key), Err(error)),
    ensures
        refused(ders(chain@), key@, None, error),
{
}

/// A refusal is one that a call for a server with that identity has returned: one that asks for no
/// client certificate, or one that holds its clients against those anchors.
pub(crate) proof fn law_refusal_is_a_call(
    chain: Seq<Seq<u8>>,
    key: (KeyEncoding, Seq<u8>),
    held: Seq<Anchor>,
    error: RustlsError,
)
    ensures
        refused(chain, key, None, error) ==> exists|certs: Vec<Vec<u8>>, private: PrivateKey|
            ders(certs@) == chain && private@ == key && #[trigger] call_ensures(
                set_up_open,
                (certs, private),
                Err(error),
            ),
        refused(chain, key, Some(held), error) ==> exists|
            certs: Vec<Vec<u8>>,
            private: PrivateKey,
            store: Arc<RootCertStore>,
        |
            ders(certs@) == chain && private@ == key && anchors(*store) == held
                && #[trigger] call_ensures(
                set_up_verifying,
                (certs, private, store),
                Err(SetupError::Rustls(error)),
            ),
{
}

/// An acceptor that rustls serves.
pub struct RustlsAcceptor {
    acceptor: tokio_rustls::TlsAcceptor,
    chain: Ghost<Seq<Seq<u8>>>,
    key: Ghost<(KeyEncoding, Seq<u8>)>,
    roots: Option<Arc<RootCertStore>>,
}

/// Calls `tokio_rustls::TlsAcceptor::from`. The acceptor runs handshakes by the configuration, so
/// what that was made from holds of the acceptor too.
#[verifier::external_body]
pub(crate) fn rustls_acceptor(setup: Setup) -> (r: RustlsAcceptor)
    ensures
        r.chain() == setup.chain(),
        r.key() == setup.key(),
        r.roots() == setup.roots(),
{
    let acceptor = tokio_rustls::TlsAcceptor::from(Arc::new(setup.config));
    RustlsAcceptor { acceptor, chain: setup.chain, key: setup.key, roots: setup.roots }
}

impl RustlsAcceptor {
    /// The certificates that the acceptor presents, its own first.
    pub closed spec fn chain(&self) -> Seq<Seq<u8>> {
        self.chain@
    }

    /// The private key that the acceptor signs with.
    pub closed spec fn key(&self) -> (KeyEncoding, Seq<u8>) {
        self.key@
    }

    /// The anchors that a client's certificate must lead to; `None` where clients are not asked
    /// for a certificate.
    pub closed spec fn roots(&self) -> Option<Seq<Anchor>> {
        root_anchors(self.roots)
    }

    /// The acceptor that runs the handshakes.
    pub closed spec fn inner(&self) -> tokio_rustls::TlsAcceptor {
        self.acceptor
    }

    /// The acceptor that runs the handshakes.
    pub fn acceptor(&self) -> (r: &tokio_rustls::TlsAcceptor)
        ensures
            *r == self.inner(),
    {
        &self.acceptor
    }

    /// Whether clients must show a certificate.
    pub fn verifies_clients(&self) -> (r: bool)
        ensures
            r == (self.roots() is Some),
    {
        self.roots.is_some()
    }
}

} // verus!

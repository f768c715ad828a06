//! Servers that rustls runs.
use crate::error::Error;
use crate::pem::{PrivateKey, ders};
use crate::roots::Anchor;
use crate::setup::{
    RustlsAcceptor, Setup, SetupError, is_identity, lemma_refused_open, lemma_refused_verifying,
    refused, root_anchors, rustls_acceptor, set_up_open, set_up_verifying,
};
use rustls::RootCertStore;
use std::sync::Arc;
use vstd::prelude::*;

verus! {

/// Clients are to be verified, but there is nothing to verify them against.
pub open spec fn no_anchors(roots: Option<Seq<Anchor>>) -> bool {
    roots matches Some(held) && held.len() == 0
}

/// Takes the server that was set up, or hands on why there is none.
pub fn acceptor_of_setup(made: Result<Setup, SetupError>) -> (r: Result<RustlsAcceptor, Error>)
    ensures
        match made {
            Ok(setup) => r matches Ok(acceptor) && acceptor.chain() == setup.chain()
                && acceptor.key() == setup.key() && acceptor.roots() == setup.roots(),
            Err(SetupError::Verifier(text)) => r == Err::<RustlsAcceptor, Error>(
                Error::InvalidCACert(text),
            ),
            Err(SetupError::Rustls(error)) => r == Err::<RustlsAcceptor, Error>(
                Error::Rustls(error),
            ),
        },
{
    match made {
        Ok(setup) => Ok(rustls_acceptor(setup)),
        Err(SetupError::Verifier(text)) => Err(Error::InvalidCACert(text)),
        Err(SetupError::Rustls(error)) => Err(Error::from(error)),
    }
}

impl RustlsAcceptor {
    /// Makes an acceptor that presents `chain`, signs with `key`, and demands a client
    /// certificate where there are `roots`.
    pub(crate) fn new(
        chain: Vec<Vec<u8>>,
        key: PrivateKey,
        roots: Option<Arc<RootCertStore>>,
    ) -> (r: Result<RustlsAcceptor, Error>)
        ensures
            no_anchors(root_anchors(roots)) ==> (r matches Err(Error::InvalidCACert(text)) && text@
                == "no root trust anchors were provided"@),
            !no_anchors(root_anchors(roots)) ==> if is_identity(ders(chain@), key@) {
                r matches Ok(made) && made.chain() == ders(chain@) && made.key() == key@
                    && made.roots() == root_anchors(roots)
            } else {
                r matches Err(Error::Rustls(_))
            },
            r matches Err(Error::Rustls(error)) ==> refused(
                ders(chain@),
                key@,
                root_anchors(roots),
                error,
            ),
    {
        let ghost (certs, private) = (chain, key);
        let made = match roots {
            Some(store) => {
                let answer = set_up_verifying(chain, key, store);
                proof {
                    if answer is Err && answer->Err_0 is Rustls {
                        let error = answer->Err_0->Rustls_0;
                        lemma_refused_verifying(certs, private, store, error);
                    }
                }
                answer
            },
            None => match set_up_open(chain, key) {
                Ok(setup) => Ok(setup),
                Err(error) => {
                    proof {
                        lemma_refused_open(certs, private, error);
                    }
                    Err(SetupError::from(error))
                },
            },
        };
        acceptor_of_setup(made)
    }
}

} // verus!

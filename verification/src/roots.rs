//! The trust anchors that client certificates are checked against.
use crate::error::{Error, Failure};
use rustls::{Error as RustlsError, RootCertStore};
use vstd::prelude::*;

verus! {

/// A trust anchor: its subject, its public key, and the constraints on the names that it
/// vouches for, each in DER.
pub type Anchor = (Seq<u8>, Seq<u8>, Option<Seq<u8>>);

/// The anchors in a store, in the order in which they were added.
pub uninterp spec fn anchors(store: RootCertStore) -> Seq<Anchor>;

/// The anchor that rustls takes from the certificate `der`, if it can be one.
pub uninterp spec fn trust_anchor(der: Seq<u8>) -> Option<Anchor>;

/// `rustls::RootCertStore::empty` makes a store without anchors.
pub assume_specification[ RootCertStore::empty ]() -> (r: RootCertStore)
    ensures
        anchors(r) == Seq::<Anchor>::empty(),
;

/// Calls `rustls::RootCertStore::add`. It appends the anchor that it takes from the certificate;
/// whether there is one depends on the certificate alone. Where there is none the store stays as
/// it was.
#[verifier::external_body]
fn add_root(store: &mut RootCertStore, der: &[u8]) -> (r: Result<(), RustlsError>)
    ensures
        r is Ok <==> trust_anchor(der@) is Some,
        trust_anchor(der@) matches Some(anchor) ==> anchors(*final(store)) == anchors(
            *old(store),
        ).push(anchor),
        trust_anchor(der@) is None ==> anchors(*final(store)) == anchors(*old(store)),
{
    store.add(rustls::pki_types::CertificateDer::from(der))
}

/// The anchors of a store whose only certificate is `der`.
pub open spec fn roots_outcome(der: Seq<u8>, source: Seq<char>) -> Result<Seq<Anchor>, Failure> {
    match trust_anchor(der) {
        Some(anchor) => Ok(seq![anchor]),
        None => Err(Failure::InvalidCACert(source)),
    }
}

/// Makes a store whose only anchor is the CA certificate `der`.
pub fn client_roots(der: &[u8], source: &str) -> (r: Result<RootCertStore, Error>)
    ensures
        match roots_outcome(der@, source@) {
            Ok(expected) => r matches Ok(store) && anchors(store) == expected,
            Err(failure) => r matches Err(error) && error@ == failure,
        },
{
    let mut store = RootCertStore::empty();
    match add_root(&mut store, der) {
        Ok(_) => {
            assert(anchors(store) == seq![trust_anchor(der@)->0]);
            Ok(store)
        },
        Err(_) => Err(Error::InvalidCACert(source.to_owned())),
    }
}

} // verus!

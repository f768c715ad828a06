//! What the platform's TLS library makes of a PKCS #12 archive, each with a record of the archive.
//!
//! The records cannot be written elsewhere.
use tokio_native_tls::native_tls::Error as NativeTlsError;
use tokio_native_tls::native_tls::{Identity, TlsAcceptor};
use vstd::prelude::*;

verus! {

/// A value of the platform's TLS library, which goes back to a PKCS #12 archive and the password
/// that opened it.
pub struct FromArchive<T> {
    value: T,
    archive: Ghost<Seq<u8>>,
    password: Ghost<Seq<char>>,
}

impl<T> FromArchive<T> {
    /// The archive that the value goes back to.
    pub closed spec fn archive(&self) -> Seq<u8> {
        self.archive@
    }

    /// The password that opened the archive.
    pub closed spec fn password(&self) -> Seq<char> {
        self.password@
    }

    /// The value itself.
    pub closed spec fn inner(&self) -> T {
        self.value
    }

    /// The value itself.
    pub fn value(&self) -> (r: &T)
        ensures
            *r == self.inner(),
    {
        &self.value
    }
}

/// Calls `native_tls::Identity::from_pkcs12`. With OpenSSL it panics on a password with a zero
/// character where the archive is well formed, and only OpenSSL can tell where that is. An
/// identity is one that it took from this archive with this password. Which archives it can read
/// depends on the platform's library, so no success is promised.
#[verifier::external_body]
pub(crate) fn identity_from_pkcs12(archive: &[u8], password: &str) -> (r: Result<
    FromArchive<Identity>,
    NativeTlsError,
>)
    requires
        !password@.contains('\0'),
    ensures
        r matches Ok(made) ==> made.archive() == archive@ && made.password() == password@,
{
    let value = Identity::from_pkcs12(archive, password)?;
    Ok(FromArchive { value, archive: Ghost(archive@), password: Ghost(password@) })
}

/// Calls `native_tls::TlsAcceptor::builder` and its `build`. An acceptor presents the identity
/// that it was built from. Whether an identity can be served depends on the platform's library,
/// so no success is promised.
#[verifier::external_body]
pub(crate) fn build_acceptor(identity: FromArchive<Identity>) -> (r: Result<
    FromArchive<TlsAcceptor>,
    NativeTlsError,
>)
    ensures
        r matches Ok(made) ==> made.archive() == identity.archive() && made.password()
            == identity.password(),
{
    let value = TlsAcceptor::builder(identity.value).build()?;
    Ok(FromArchive { value, archive: identity.archive, password: identity.password })
}

/// The platform's library, asked for the identity that `password` opens in `archive`, has given
/// this answer.
pub closed spec fn opening(
    archive: Seq<u8>,
    password: Seq<char>,
    answer: Result<FromArchive<Identity>, NativeTlsError>,
) -> bool {
    exists|bytes: &[u8], text: &str|
        {
            &&& bytes@ == archive
            &&& text@ == password
            &&& #[trigger] call_ensures(identity_from_pkcs12, (bytes, text), answer)
        }
}

/// The platform's library, asked for an acceptor with this identity, has given this answer.
pub closed spec fn building(
    identity: FromArchive<Identity>,
    answer: Result<FromArchive<TlsAcceptor>, NativeTlsError>,
) -> bool {
    call_ensures(build_acceptor, (identity,), answer)
}

/// What a call of [`identity_from_pkcs12`] returns is the library's answer.
pub(crate) proof fn lemma_opening(
    archive: &[u8],
    password: &str,
    answer: Result<FromArchive<Identity>, NativeTlsError>,
)
    requires
        call_ensures(identity_from_pkcs12, (archive, password), answer),
    ensures
        opening(archive@, password@, answer),
{
}

/// What a call of [`build_acceptor`] returns is the library's answer.
pub(crate) proof fn lemma_building(
    identity: FromArchive<Identity>,
    answer: Result<FromArchive<TlsAcceptor>, NativeTlsError>,
)
    requires
        call_ensures(build_acceptor, (identity,), answer),
    ensures
        building(identity, answer),
{
}

/// An answer on an archive is one that a call with that archive and that password has returned.
pub(crate) proof fn law_opening_is_a_call(
    archive: Seq<u8>,
    password: Seq<char>,
    answer: Result<FromArchive<Identity>, NativeTlsError>,
)
    requires
        opening(archive, password, answer),
    ensures
        exists|bytes: &[u8], text: &str|
            bytes@ == archive && text@ == password && #[trigger] call_ensures(
                identity_from_pkcs12,
                (bytes, text),
                answer,
            ),
        answer matches Ok(identity) ==> identity.archive() == archive && identity.password()
            == password,
{
}

/// An answer on an identity is one that a call with that identity has returned.
pub(crate) proof fn law_building_is_a_call(
    identity: FromArchive<Identity>,
    answer: Result<FromArchive<TlsAcceptor>, NativeTlsError>,
)
    requires
        building(identity, answer),
    ensures
        call_ensures(build_acceptor, (identity,), answer),
{
}

/// Calls `tokio_native_tls::TlsAcceptor::from`, which wraps the acceptor.
#[verifier::external_body]
pub(crate) fn tokio_acceptor(acceptor: FromArchive<TlsAcceptor>) -> (r: FromArchive<
    tokio_native_tls::TlsAcceptor,
>)
    ensures
        r.archive() == acceptor.archive(),
        r.password() == acceptor.password(),
{
    let value = tokio_native_tls::TlsAcceptor::from(acceptor.value);
    FromArchive { value, archive: acceptor.archive, password: acceptor.password }
}

} // verus!

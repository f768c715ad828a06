//! Acceptors of the platform's TLS library.
use crate::archive::{FromArchive, tokio_acceptor};
use crate::error::Error;
use tokio_native_tls::native_tls::Error as NativeTlsError;
use tokio_native_tls::native_tls::TlsAcceptor;
use vstd::prelude::*;

verus! {

/// Takes the identity that was read from the archive at `path`. An archive that cannot be read is
/// an invalid server certificate.
pub fn identity_of_archive<T>(read: Result<T, NativeTlsError>, path: &str) -> (r: Result<T, Error>)
    ensures
        match read {
            Ok(identity) => r == Ok::<T, Error>(identity),
            Err(_) => r matches Err(Error::InvalidServerCert(name)) && name@ == path@,
        },
{
    match read {
        Ok(identity) => Ok(identity),
        Err(_) => Err(Error::InvalidServerCert(path.to_owned())),
    }
}

/// Takes the acceptor that was built, or hands on why there is none.
pub fn acceptor_of_build(built: Result<FromArchive<TlsAcceptor>, NativeTlsError>) -> (r: Result<
    FromArchive<tokio_native_tls::TlsAcceptor>,
    Error,
>)
    ensures
        match built {
            Ok(acceptor) => r matches Ok(made) && made.archive() == acceptor.archive()
                && made.password() == acceptor.password(),
            Err(error) => r == Err::<FromArchive<tokio_native_tls::TlsAcceptor>, Error>(
                Error::NativeTls(error),
            ),
        },
{
    match built {
        Ok(acceptor) => Ok(tokio_acceptor(acceptor)),
        Err(error) => Err(Error::from(error)),
    }
}

} // verus!

//! The types of other crates that pass through this library unopened.
use rustls::{Error as RustlsError, RootCertStore, ServerConfig};
use tokio_native_tls::native_tls::Error as NativeTlsError;
use vstd::prelude::*;

verus! {

/// `std::io::Error`: what reading a file, a PEM section or a handshake failed with.
#[verifier::external_type_specification]
#[verifier::external_body]
pub struct ExIoError(std::io::Error);

/// `rustls::Error`: why rustls refused a trust anchor or a server identity.
#[verifier::external_type_specification]
#[verifier::external_body]
pub struct ExRustlsError(RustlsError);

/// `rustls::RootCertStore`: the trust anchors that client certificates are checked against.
#[verifier::external_type_specification]
#[verifier::external_body]
pub struct ExRootCertStore(RootCertStore);

/// `rustls::ServerConfig`: all that rustls needs to know to serve connections.
#[verifier::external_type_specification]
#[verifier::external_body]
pub struct ExServerConfig(ServerConfig);

/// `tokio_rustls::TlsAcceptor`: the server side of a rustls handshake.
#[verifier::external_type_specification]
#[verifier::external_body]
pub struct ExRustlsAcceptor(tokio_rustls::TlsAcceptor);

/// `native_tls::Error`: what the platform's TLS library failed with.
#[verifier::external_type_specification]
#[verifier::external_body]
pub struct ExNativeTlsError(NativeTlsError);

/// `native_tls::Identity`: a certificate with its private key, as read from a PKCS #12 archive.
#[verifier::external_type_specification]
#[verifier::external_body]
pub struct ExNativeIdentity(tokio_native_tls::native_tls::Identity);

/// `native_tls::TlsAcceptor`: the platform's server side of a handshake.
#[verifier::external_type_specification]
#[verifier::external_body]
pub struct ExNativeAcceptor(tokio_native_tls::native_tls::TlsAcceptor);

/// `tokio_native_tls::TlsAcceptor`: the same, with an asynchronous `accept`.
#[verifier::external_type_specification]
#[verifier::external_body]
pub struct ExTokioNativeAcceptor(tokio_native_tls::TlsAcceptor);

} // verus!

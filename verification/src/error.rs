//! What can go wrong while an acceptor is built or a client is accepted.
use rustls::Error as RustlsError;
use tokio_native_tls::native_tls::Error as NativeTlsError;
use vstd::prelude::*;

verus! {

/// Why an acceptor could not be built, or a client was turned away.
///
/// The variants with a `String` name the file, or the in-memory source, that is at fault.
#[derive(Debug)]
pub enum Error {
    /// Reading failed, or the handshake did.
    Io(std::io::Error),
    /// The platform's TLS library failed.
    NativeTls(NativeTlsError),
    /// The client showed no certificate although one is demanded.
    NoPeerCertificate,
    /// rustls refused the server's identity.
    Rustls(RustlsError),
    /// The server certificate file could not be opened.
    ServerCertNotFound(String),
    /// The server certificate could not be read.
    InvalidServerCert(String),
    /// The CA certificate is missing from its source, or is no trust anchor.
    InvalidCACert(String),
    /// The server key's source holds no private key that can be read.
    InvalidServerKey(String),
    /// The server key file could not be opened.
    ServerKeyNotFound(String),
    /// The CA file could not be opened, or no CA was configured at all.
    CaFileNotFound(String),
    /// The configuration asks for the platform's TLS library, which is switched off.
    NativeTlsNotEnabled,
    /// The configuration asks for rustls, which is switched off.
    RustlsNotEnabled,
    /// The organization in the client's certificate is not alphanumeric throughout.
    InvalidTenantId(String),
    /// The organization in the client's certificate is no text.
    InvalidTenant,
    /// The client's certificate names no organization although one is demanded.
    MissingTenantId,
    /// The client's certificate is no X.509 certificate.
    CertificateParse,
}

/// An [`Error`] as contracts see it: which variant it is, and what text it carries.
///
/// The errors of other crates are opaque, so `Io`, `NativeTls` and `Rustls` stand alone.
pub enum Failure {
    Io,
    NativeTls,
    NoPeerCertificate,
    Rustls,
    ServerCertNotFound(Seq<char>),
    InvalidServerCert(Seq<char>),
    InvalidCACert(Seq<char>),
    InvalidServerKey(Seq<char>),
    ServerKeyNotFound(Seq<char>),
    CaFileNotFound(Seq<char>),
    NativeTlsNotEnabled,
    RustlsNotEnabled,
    InvalidTenantId(Seq<char>),
    InvalidTenant,
    MissingTenantId,
    CertificateParse,
}

impl View for Error {
    type V = Failure;

    open spec fn view(&self) -> Failure {
        match *self {
            Error::Io(_) => Failure::Io,
            Error::NativeTls(_) => Failure::NativeTls,
            Error::NoPeerCertificate => Failure::NoPeerCertificate,
            Error::Rustls(_) => Failure::Rustls,
            Error::ServerCertNotFound(name) => Failure::ServerCertNotFound(name@),
            Error::InvalidServerCert(name) => Failure::InvalidServerCert(name@),
            Error::InvalidCACert(name) => Failure::InvalidCACert(name@),
            Error::InvalidServerKey(name) => Failure::InvalidServerKey(name@),
            Error::ServerKeyNotFound(name) => Failure::ServerKeyNotFound(name@),
            Error::CaFileNotFound(name) => Failure::CaFileNotFound(name@),
            Error::NativeTlsNotEnabled => Failure::NativeTlsNotEnabled,
            Error::RustlsNotEnabled => Failure::RustlsNotEnabled,
            Error::InvalidTenantId(id) => Failure::InvalidTenantId(id@),
            Error::InvalidTenant => Failure::InvalidTenant,
            Error::MissingTenantId => Failure::MissingTenantId,
            Error::CertificateParse => Failure::CertificateParse,
        }
    }
}

impl From<std::io::Error> for Error {
    fn from(error: std::io::Error) -> (r: Self) {
        Error::Io(error)
    }
}

impl vstd::std_specs::convert::FromSpecImpl<std::io::Error> for Error {
    open spec fn obeys_from_spec() -> bool {
        true
    }

    open spec fn from_spec(error: std::io::Error) -> Self {
        Error::Io(error)
    }
}

impl From<NativeTlsError> for Error {
    fn from(error: NativeTlsError) -> (r: Self) {
        Error::NativeTls(error)
    }
}

impl vstd::std_specs::convert::FromSpecImpl<NativeTlsError> for Error {
    open spec fn obeys_from_spec() -> bool {
        true
    }

    open spec fn from_spec(error: NativeTlsError) -> Self {
        Error::NativeTls(error)
    }
}

impl From<RustlsError> for Error {
    fn from(error: RustlsError) -> (r: Self) {
        Error::Rustls(error)
    }
}

impl vstd::std_specs::convert::FromSpecImpl<RustlsError> for Error {
    open spec fn obeys_from_spec() -> bool {
        true
    }

    open spec fn from_spec(error: RustlsError) -> Self {
        Error::Rustls(error)
    }
}

} // verus!

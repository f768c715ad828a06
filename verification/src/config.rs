//! What an operator configures: where the key material comes from, and what is switched on.
use vstd::prelude::*;

verus! {

/// What this broker is built to support.
#[derive(Clone, Copy, Debug, PartialEq, Eq, Structural)]
pub struct Features {
    /// rustls may serve connections.
    pub use_rustls: bool,
    /// The platform's TLS library may serve connections.
    pub use_native_tls: bool,
    /// A rustls listener demands a client certificate that the configured CA has issued.
    pub verify_client_cert: bool,
    /// A client certificate must name its tenant.
    pub validate_tenant_prefix: bool,
}

/// What was found when a configured file was to be read.
pub enum FileContents {
    /// The file could not be opened.
    Unopened,
    /// The file was opened and read.
    Read {
        /// The bytes that were read.
        bytes: Vec<u8>,
        /// The error that reading failed with, if it did not reach the end of the file.
        failure: Option<std::io::Error>,
    },
}

/// A byte that ends a line: a line feed or a carriage return.
pub open spec fn ends_line(byte: u8) -> bool {
    byte == 10 || byte == 13
}

/// The text up to its last line end.
pub open spec fn whole_part(text: Seq<u8>) -> Seq<u8>
    decreases text.len(),
{
    if text.len() == 0 || ends_line(text.last()) {
        text
    } else {
        whole_part(text.drop_last())
    }
}

/// The text that can be had, line by line, from bytes that were read. An I/O error behind them
/// takes the place of the line that it cuts off.
pub open spec fn legible(bytes: Seq<u8>, failed: bool) -> Seq<u8> {
    if failed {
        whole_part(bytes)
    } else {
        bytes
    }
}

/// The text that can be had from a file; `None` if it could not be opened.
pub open spec fn file_text(file: TlsFile) -> Option<Seq<u8>> {
    match file.contents {
        FileContents::Unopened => None,
        FileContents::Read { bytes, failure } => Some(legible(bytes@, failure is Some)),
    }
}

/// Gets the text that can be had, line by line, from bytes that were read. `failed` tells whether
/// an I/O error followed them.
pub fn legible_part(bytes: &[u8], failed: bool) -> (r: &[u8])
    ensures
        r@ == legible(bytes@, failed),
{
    if !failed {
        return bytes;
    }
    let mut whole: usize = bytes.len();
    assert(bytes@.take(whole as int) == bytes@);
    while whole > 0 && bytes[whole - 1] != 10 && bytes[whole - 1] != 13
        invariant
            whole <= bytes@.len(),
            whole_part(bytes@.take(whole as int)) == whole_part(bytes@),
        decreases whole,
    {
        assert(bytes@.take(whole as int).drop_last() == bytes@.take(whole - 1));
        whole = whole - 1;
    }
    vstd::slice::slice_subrange(bytes, 0, whole)
}

/// A configured file: its path, and what was found there.
pub struct TlsFile {
    pub path: String,
    pub contents: FileContents,
}

/// Key material in PEM.
pub struct PemBundle {
    pub ca_pem: Option<Vec<u8>>,
    pub cert_pem: Vec<u8>,
    pub key_pem: Vec<u8>,
}

/// Where a listener gets its key material.
pub enum TlsConfig {
    /// rustls, with PEM files.
    Rustls { capath: Option<TlsFile>, certpath: TlsFile, keypath: TlsFile },
    /// rustls, with PEM that is in memory.
    RustlsPem { ca_pem: Option<Vec<u8>>, cert_pem: Vec<u8>, key_pem: Vec<u8> },
    /// rustls, with PEM that may be replaced while the broker runs: what is current when the
    /// acceptor is built.
    RustlsReloadable(PemBundle),
    /// The platform's TLS library, with a PKCS #12 archive.
    NativeTls { pkcs12path: TlsFile, pkcs12pass: String },
}

} // verus!

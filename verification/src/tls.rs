//! The acceptor of a TLS listener: which one a configuration gives, and whom it lets in.
use crate::archive::{
    FromArchive, build_acceptor, building, identity_from_pkcs12, lemma_building, lemma_opening,
    opening,
};
use crate::config::{Features, FileContents, TlsConfig, TlsFile, file_text, legible, legible_part};
use crate::error::{Error, Failure};
use crate::laws::{holds, law_other_sections_are_passed_over};
use crate::native::{acceptor_of_build, identity_of_archive};
use crate::pem::{
    BrokenSection, Flaw, KeyEncoding, PrivateKey, all_passed_over, ca_certificate, ca_outcome,
    certificate_chain, cert_views, certificate_reads, certs, chain_outcome, cut_short, ders,
    first_key, first_private_key, key_is_open, key_is_settled, lemma_certificate_reads_add,
    lemma_passed_over_are_sound, lemma_reading, private_key_outcome, reading, search_ends,
    sections, sections_are_settled, whole_lines,
};
use crate::roots::{Anchor, anchors, client_roots, roots_outcome};
use crate::setup::{RustlsAcceptor, is_identity, refused};
use crate::tenant::{extract_tenant_id, subject_organization, tenant_is, tenant_outcome};
use rustls::RootCertStore;
use std::sync::Arc;
use tokio_native_tls::native_tls::Error as NativeTlsError;
use tokio_native_tls::native_tls::{Identity, TlsAcceptor};
use vstd::prelude::*;

verus! {

/// The acceptor of a TLS listener.
#[allow(inconsistent_fields)]
pub enum TLSAcceptor {
    /// rustls serves the connections.
    Rustls {
        acceptor: RustlsAcceptor,
        /// A client certificate must name its tenant.
        validate_tenant_prefix: bool,
    },
    /// The platform's TLS library serves the connections.
    NativeTLS { acceptor: FromArchive<tokio_native_tls::TlsAcceptor> },
}

/// A [`TLSAcceptor`] as contracts see it.
pub enum AcceptorView {
    /// rustls presents `chain`, signs with `key`, and demands a client certificate that leads to
    /// `roots` where there are some.
    Rustls {
        chain: Seq<Seq<u8>>,
        key: (KeyEncoding, Seq<u8>),
        roots: Option<Seq<Anchor>>,
        validate_tenant_prefix: bool,
    },
    /// The platform's TLS library serves the connections, with the identity that `password`
    /// opens in `archive`.
    NativeTls { archive: Seq<u8>, password: Seq<char> },
}

impl View for TLSAcceptor {
    type V = AcceptorView;

    open spec fn view(&self) -> AcceptorView {
        match *self {
            TLSAcceptor::Rustls { acceptor, validate_tenant_prefix } => AcceptorView::Rustls {
                chain: acceptor.chain(),
                key: acceptor.key(),
                roots: acceptor.roots(),
                validate_tenant_prefix,
            },
            TLSAcceptor::NativeTLS { acceptor } => AcceptorView::NativeTls {
                archive: acceptor.archive(),
                password: acceptor.password(),
            },
        }
    }
}

/// An acceptor, or the reason that there is none, as contracts see it.
pub open spec fn acceptor_result(r: Result<TLSAcceptor, Error>) -> Result<AcceptorView, Failure> {
    match r {
        Ok(acceptor) => Ok(acceptor@),
        Err(error) => Err(error@),
    }
}

/// The server's certificates in a file.
pub open spec fn file_chain(file: TlsFile) -> Result<Seq<Seq<u8>>, Failure> {
    match file.contents {
        FileContents::Unopened => Err(Failure::ServerCertNotFound(file.path@)),
        FileContents::Read { bytes, failure } => match failure {
            Some(_) => Err(Failure::InvalidServerCert(file.path@)),
            None => chain_outcome(certificate_reads(sections(bytes@)), file.path@),
        },
    }
}

/// The server's private key in a file.
pub open spec fn file_key(file: TlsFile) -> Result<(KeyEncoding, Seq<u8>), Failure> {
    match file.contents {
        FileContents::Unopened => Err(Failure::ServerKeyNotFound(file.path@)),
        FileContents::Read { bytes, failure } => private_key_outcome(
            legible(bytes@, failure is Some),
            file.path@,
        ),
    }
}

/// The one file has the other's path, and its text begins with the other's.
pub open spec fn extends(longer: TlsFile, file: TlsFile) -> bool {
    &&& longer.path@ == file.path@
    &&& file_text(file) matches Some(text)
    &&& file_text(longer) matches Some(long_text)
    &&& text.is_prefix_of(long_text)
}

/// Whatever follows in the file, the search for a private key comes to the same end, provided that
/// it is over before the file is.
pub open spec fn file_key_is_settled(file: TlsFile) -> bool {
    file_text(file) matches Some(text) && whole_lines(text) && search_ends(sections(text))
        ==> forall|longer: TlsFile|
        extends(longer, file) ==> #[trigger] file_key(longer) == file_key(file)
}

/// The anchors from the first certificate of `pem`. `failed` tells whether reading stopped on an
/// I/O error after these bytes.
pub open spec fn pem_roots(pem: Seq<u8>, failed: bool, source: Seq<char>) -> Result<
    Seq<Anchor>,
    Failure,
> {
    match ca_outcome(certificate_reads(sections(pem)), failed, source) {
        Ok(der) => roots_outcome(der, source),
        Err(failure) => Err(failure),
    }
}

/// Whatever follows `pem`, and whether or not reading stops on an I/O error then, the anchors are
/// the same, or the fault is. So it is where a first certificate is found, or a section in its
/// place that is malformed.
pub open spec fn roots_are_settled(pem: Seq<u8>, failed: bool, source: Seq<char>) -> bool {
    whole_lines(pem) && !cut_short(certificate_reads(sections(pem))) ==> forall|
        more: Seq<u8>,
        later: bool,
    | #[trigger]
        pem_roots(pem + more, later, source) == pem_roots(pem, failed, source)
}

/// The anchors from the CA certificate in a file.
pub open spec fn file_roots(file: TlsFile) -> Result<Seq<Anchor>, Failure> {
    match file.contents {
        FileContents::Unopened => Err(Failure::CaFileNotFound(file.path@)),
        FileContents::Read { bytes, failure } => pem_roots(
            legible(bytes@, failure is Some),
            failure is Some,
            file.path@,
        ),
    }
}

/// Whatever follows in the file, its anchors are the same, or the fault is, as
/// [`roots_are_settled`] says of its text.
pub open spec fn file_roots_are_settled(file: TlsFile) -> bool {
    file_text(file) matches Some(text) && whole_lines(text) && !cut_short(
        certificate_reads(sections(text)),
    ) ==> forall|longer: TlsFile|
        extends(longer, file) ==> #[trigger] file_roots(longer) == file_roots(file)
}

/// The I/O error that kept a file from showing a certificate.
pub open spec fn interrupted(file: TlsFile) -> Option<std::io::Error> {
    match file.contents {
        FileContents::Read { bytes, failure } if cut_short(
            certificate_reads(sections(legible(bytes@, failure is Some))),
        ) => failure,
        _ => None,
    }
}

/// The rustls acceptor that certificates, a private key and, where clients are verified, anchors
/// give. The first of them that is at fault is reported.
pub open spec fn assembled(
    chain: Result<Seq<Seq<u8>>, Failure>,
    key: Result<(KeyEncoding, Seq<u8>), Failure>,
    roots: Option<Result<Seq<Anchor>, Failure>>,
    validate_tenant_prefix: bool,
) -> Result<AcceptorView, Failure> {
    if chain is Err {
        Err(chain->Err_0)
    } else if key is Err {
        Err(key->Err_0)
    } else if roots is Some && roots->0 is Err {
        Err(roots->0->Err_0)
    } else if is_identity(chain->Ok_0, key->Ok_0) {
        Ok(
            AcceptorView::Rustls {
                chain: chain->Ok_0,
                key: key->Ok_0,
                roots: match roots {
                    Some(held) => Some(held->Ok_0),
                    None => None,
                },
                validate_tenant_prefix,
            },
        )
    } else {
        Err(Failure::Rustls)
    }
}

/// The acceptor that PEM files give.
pub open spec fn rustls_outcome(
    ca: Option<TlsFile>,
    cert: TlsFile,
    key: TlsFile,
    features: Features,
) -> Result<AcceptorView, Failure> {
    if features.verify_client_cert && ca is None {
        Err(
            Failure::CaFileNotFound(
                "capath must be specified in config when verify-client-cert is enabled."@,
            ),
        )
    } else {
        assembled(
            file_chain(cert),
            file_key(key),
            if features.verify_client_cert {
                Some(file_roots(ca->0))
            } else {
                None
            },
            features.validate_tenant_prefix,
        )
    }
}

/// The I/O error that keeps PEM files from giving an acceptor, where it is what is reported.
pub open spec fn interruption(
    ca: Option<TlsFile>,
    cert: TlsFile,
    key: TlsFile,
    features: Features,
) -> Option<std::io::Error> {
    match ca {
        Some(file) if features.verify_client_cert && file_chain(cert) is Ok && file_key(
            key,
        ) is Ok => interrupted(file),
        _ => None,
    }
}

/// The acceptor that PEM in memory gives.
pub open spec fn rustls_pem_outcome(
    ca_pem: Option<Seq<u8>>,
    cert_pem: Seq<u8>,
    key_pem: Seq<u8>,
    features: Features,
) -> Result<AcceptorView, Failure> {
    if features.verify_client_cert && ca_pem is None {
        Err(
            Failure::CaFileNotFound("ca_pem must be specified when verify-client-cert is enabled."@),
        )
    } else {
        assembled(
            chain_outcome(certificate_reads(sections(cert_pem)), "<in-memory cert>"@),
            private_key_outcome(key_pem, "<in-memory key>"@),
            if features.verify_client_cert {
                Some(pem_roots(ca_pem->0, false, "<in-memory ca>"@))
            } else {
                None
            },
            features.validate_tenant_prefix,
        )
    }
}

/// PEM bytes, where there are some, with more behind them.
pub open spec fn followed(pem: Option<Seq<u8>>, more: Seq<u8>) -> Option<Seq<u8>> {
    match pem {
        Some(bytes) => Some(bytes + more),
        None => None,
    }
}

/// The first certificate of the CA, or a malformed section in its place, and the end of the search
/// for a private key each come before the text ends, and no line is cut. The CA counts where
/// clients are verified.
pub open spec fn texts_decide(
    ca_pem: Option<Seq<u8>>,
    key_pem: Seq<u8>,
    features: Features,
) -> bool {
    &&& whole_lines(key_pem)
    &&& search_ends(sections(key_pem))
    &&& features.verify_client_cert && ca_pem is Some ==> whole_lines(ca_pem->0) && !cut_short(
        certificate_reads(sections(ca_pem->0)),
    )
}

/// What follows the first CA certificate and the first private key does not matter.
pub open spec fn tails_are_ignored(
    ca_pem: Option<Seq<u8>>,
    cert_pem: Seq<u8>,
    key_pem: Seq<u8>,
    features: Features,
) -> bool {
    texts_decide(ca_pem, key_pem, features) ==> forall|after_ca: Seq<u8>, after_key: Seq<u8>|
        #[trigger] rustls_pem_outcome(
            followed(ca_pem, after_ca),
            cert_pem,
            key_pem + after_key,
            features,
        ) == rustls_pem_outcome(ca_pem, cert_pem, key_pem, features)
}

/// Another file in place of the one that is there, if there is one.
pub open spec fn replaced(file: Option<TlsFile>, other: TlsFile) -> Option<TlsFile> {
    match file {
        Some(_) => Some(other),
        None => None,
    }
}

/// The text that can be had from a file, if there is one.
pub open spec fn optional_text(file: Option<TlsFile>) -> Option<Seq<u8>> {
    match file {
        Some(there) => file_text(there),
        None => None,
    }
}

/// What follows the first CA certificate and the first private key in their files does not matter.
pub open spec fn file_tails_are_ignored(
    ca: Option<TlsFile>,
    cert: TlsFile,
    key: TlsFile,
    features: Features,
) -> bool {
    file_text(key) matches Some(key_text) && texts_decide(optional_text(ca), key_text, features)
        ==> forall|longer_ca: TlsFile, longer_key: TlsFile|
        (features.verify_client_cert && ca is Some ==> extends(longer_ca, ca->0)) && extends(
            longer_key,
            key,
        ) ==> #[trigger] rustls_outcome(replaced(ca, longer_ca), cert, longer_key, features)
            == rustls_outcome(ca, cert, key, features)
}

/// The one text holds no private key, the other no certificate, neither holds a broken section
/// among what is read of it, and the one ends with a whole line.
pub open spec fn texts_join(cert_pem: Seq<u8>, key_pem: Seq<u8>) -> bool {
    &&& whole_lines(cert_pem)
    &&& all_passed_over(sections(cert_pem))
    &&& certificate_reads(sections(key_pem)).len() == 0
}

/// Certificates and a private key behind them may stand in one text, which then serves as both.
pub open spec fn one_text_serves(
    ca_pem: Option<Seq<u8>>,
    cert_pem: Seq<u8>,
    key_pem: Seq<u8>,
    features: Features,
) -> bool {
    texts_join(cert_pem, key_pem) ==> rustls_pem_outcome(
        ca_pem,
        cert_pem + key_pem,
        cert_pem + key_pem,
        features,
    ) == rustls_pem_outcome(ca_pem, cert_pem, key_pem, features)
}

/// Certificates and a private key behind them may stand in one text, and that in both files.
pub open spec fn one_file_serves(
    ca: Option<TlsFile>,
    cert: TlsFile,
    key: TlsFile,
    features: Features,
) -> bool {
    file_text(cert) matches Some(cert_text) ==> (file_text(key) matches Some(key_text) ==> (holds(
        cert,
        cert_text,
    ) && texts_join(cert_text, key_text) ==> forall|both_cert: TlsFile, both_key: TlsFile|
        holds(both_cert, cert_text + key_text) && both_cert.path@ == cert.path@ && file_text(
            both_key,
        ) == Some(cert_text + key_text) && both_key.path@ == key.path@
            ==> #[trigger] rustls_outcome(ca, both_cert, both_key, features) == rustls_outcome(
            ca,
            cert,
            key,
            features,
        )))
}

/// What may come of a PKCS #12 file. Where it was read to its end, the platform's TLS library
/// decides.
pub open spec fn native_tls_allows(
    file: TlsFile,
    password: Seq<char>,
    outcome: Result<AcceptorView, Failure>,
) -> bool {
    match file.contents {
        FileContents::Unopened => outcome == Err::<AcceptorView, Failure>(
            Failure::ServerCertNotFound(file.path@),
        ),
        FileContents::Read { bytes: _, failure: Some(_) } => outcome == Err::<
            AcceptorView,
            Failure,
        >(Failure::InvalidServerCert(file.path@)),
        FileContents::Read { bytes, failure: None } => {
            ||| outcome == Ok::<AcceptorView, Failure>(
                AcceptorView::NativeTls { archive: bytes@, password },
            )
            ||| outcome == Err::<AcceptorView, Failure>(Failure::InvalidServerCert(file.path@))
            ||| outcome == Err::<AcceptorView, Failure>(Failure::NativeTls)
        },
    }
}

/// A PKCS #12 file that was read to its end gives what the platform's library makes of it: the
/// library is asked for the identity, with this archive and this password, and then for an
/// acceptor with that identity.
pub open spec fn native_tls_answers(
    file: TlsFile,
    password: Seq<char>,
    r: Result<TLSAcceptor, Error>,
) -> bool {
    file.contents matches FileContents::Read { bytes, failure: None } ==> exists|
        read: Result<FromArchive<Identity>, NativeTlsError>,
    | #[trigger]
        opening(bytes@, password, read) && match read {
            Err(_) => r matches Err(Error::InvalidServerCert(name)) && name@ == file.path@,
            Ok(identity) => exists|built: Result<FromArchive<TlsAcceptor>, NativeTlsError>|
                #[trigger] building(identity, built) && match built {
                    Err(error) => r == Err::<TLSAcceptor, Error>(Error::NativeTls(error)),
                    Ok(_) => r matches Ok(TLSAcceptor::NativeTLS { acceptor }) && acceptor.archive()
                        == bytes@ && acceptor.password() == password,
                },
        }
}

/// The password can be handed to the platform's TLS library, or will not be. OpenSSL panics on one
/// with a zero character, if the archive is well formed.
pub open spec fn password_usable(file: TlsFile, password: Seq<char>) -> bool {
    file.contents matches FileContents::Read { bytes: _, failure: None } ==> !password.contains(
        '\0',
    )
}

/// PEM bytes, where there are some.
pub open spec fn optional_bytes(pem: Option<Vec<u8>>) -> Option<Seq<u8>> {
    match pem {
        Some(bytes) => Some(bytes@),
        None => None,
    }
}

/// The outcome with rustls, if that may serve connections.
pub open spec fn with_rustls(features: Features, outcome: Result<AcceptorView, Failure>) -> Result<
    AcceptorView,
    Failure,
> {
    if features.use_rustls {
        outcome
    } else {
        Err(Failure::RustlsNotEnabled)
    }
}

/// What may come of a configuration. Only the platform's TLS library leaves a choice.
pub open spec fn new_allows(
    config: TlsConfig,
    features: Features,
    outcome: Result<AcceptorView, Failure>,
) -> bool {
    match config {
        TlsConfig::Rustls { capath, certpath, keypath } => outcome == with_rustls(
            features,
            rustls_outcome(capath, certpath, keypath, features),
        ),
        TlsConfig::RustlsPem { ca_pem, cert_pem, key_pem } => outcome == with_rustls(
            features,
            rustls_pem_outcome(optional_bytes(ca_pem), cert_pem@, key_pem@, features),
        ),
        TlsConfig::RustlsReloadable(bundle) => outcome == with_rustls(
            features,
            rustls_pem_outcome(
                optional_bytes(bundle.ca_pem),
                bundle.cert_pem@,
                bundle.key_pem@,
                features,
            ),
        ),
        TlsConfig::NativeTls { pkcs12path, pkcs12pass } => if features.use_native_tls {
            native_tls_allows(pkcs12path, pkcs12pass@, outcome)
        } else {
            outcome == Err::<AcceptorView, Failure>(Failure::NativeTlsNotEnabled)
        },
    }
}

/// How a handshake with a client ended.
pub enum Handshake {
    /// With rustls: the client's certificates, its own first, if it showed any.
    Rustls(Result<Option<Vec<Vec<u8>>>, std::io::Error>),
    /// With the platform's TLS library, which does not verify client certificates.
    NativeTls(Result<(), NativeTlsError>),
}

/// The handshake is one that the acceptor can have run. A client whose certificates are verified
/// shows at least its own, if any.
pub open spec fn handshake_fits(acceptor: AcceptorView, handshake: Handshake) -> bool {
    match handshake {
        Handshake::Rustls(ended) => acceptor matches AcceptorView::Rustls { roots, .. } && (
        roots is Some ==> (ended matches Ok(Some(shown)) ==> shown@.len() > 0)),
        Handshake::NativeTls(_) => acceptor is NativeTls,
    }
}

/// The tenant of a client, by the handshake with it. `None` is a client of no tenant.
pub open spec fn accept_outcome(acceptor: AcceptorView, handshake: Handshake) -> Result<
    Option<Seq<char>>,
    Failure,
> {
    match handshake {
        Handshake::Rustls(Err(_)) => Err(Failure::Io),
        Handshake::Rustls(Ok(shown)) => match acceptor {
            AcceptorView::Rustls { roots: Some(_), validate_tenant_prefix, .. } => match shown {
                Some(shown_certs) => tenant_outcome(
                    subject_organization(shown_certs@[0]@),
                    validate_tenant_prefix,
                ),
                None => Err(Failure::NoPeerCertificate),
            },
            _ => Ok(None),
        },
        Handshake::NativeTls(Err(_)) => Err(Failure::NativeTls),
        Handshake::NativeTls(Ok(_)) => Ok(None),
    }
}

/// Gets the first private key in PEM bytes. What follows the key does not matter; a text without
/// a key, and without a broken section, does not matter to what follows.
pub fn first_private_key_in_pem_bytes(key_pem: &[u8]) -> (r: Result<PrivateKey, Error>)
    ensures
        match private_key_outcome(key_pem@, "<in-memory key>"@) {
            Ok(key) => r matches Ok(found) && found@ == key,
            Err(failure) => r matches Err(error) && error@ == failure,
        },
        key_pem@.len() == 0 ==> r is Err,
        whole_lines(key_pem@) && search_ends(sections(key_pem@)) ==> key_is_settled(key_pem@),
        r is Err && whole_lines(key_pem@) && all_passed_over(sections(key_pem@)) ==> key_is_open(
            key_pem@,
        ),
{
    first_private_key(key_pem, "<in-memory key>")
}

/// Gets the first private key in a PEM file. An I/O error behind the key does not matter.
pub fn first_private_key_in_pemfile(key_file: &TlsFile) -> (r: Result<PrivateKey, Error>)
    ensures
        match file_key(*key_file) {
            Ok(key) => r matches Ok(found) && found@ == key,
            Err(failure) => r matches Err(error) && error@ == failure,
        },
        file_text(*key_file) matches Some(text) && text.len() == 0 ==> r is Err,
        file_key_is_settled(*key_file),
{
    match &key_file.contents {
        FileContents::Unopened => Err(Error::ServerKeyNotFound(key_file.path.clone())),
        FileContents::Read { bytes, failure } => {
            let text = legible_part(bytes.as_slice(), failure.is_some());
            let r = first_private_key(text, key_file.path.as_str());
            proof {
                if whole_lines(text@) && search_ends(sections(text@)) {
                    assert forall|longer: TlsFile| extends(longer, *key_file) implies #[trigger]
                        file_key(longer) == file_key(*key_file) by {
                        let long_text = file_text(longer)->0;
                        assert(long_text == text@ + long_text.skip(text@.len() as int));
                        assert(first_key(sections(text@ + long_text.skip(text@.len() as int)))
                            == first_key(sections(text@)));
                    }
                }
            }
            r
        },
    }
}

/// Whatever follows `pem`, its sections are the same, provided that all of them are passed over by
/// a search for a private key.
pub open spec fn chain_is_settled(pem: Seq<u8>) -> bool {
    whole_lines(pem) && all_passed_over(sections(pem)) ==> forall|more: Seq<u8>| #[trigger]
        sections(pem + more) == sections(pem) + sections(more)
}

/// The sections of a text in which none lacks its end are as [`chain_is_settled`] says.
proof fn lemma_chain_is_settled(pem: Seq<u8>)
    requires
        whole_lines(pem) ==> sections_are_settled(certificate_reads(sections(pem)), pem),
    ensures
        chain_is_settled(pem),
{
    if whole_lines(pem) && all_passed_over(sections(pem)) {
        lemma_passed_over_are_sound(sections(pem));
        assert(!certificate_reads(sections(pem)).contains(Err(Flaw::NoEnd)));
    }
}

/// Gets the server's certificates from a file.
fn chain_in_pemfile(cert_file: &TlsFile) -> (r: Result<Vec<Vec<u8>>, Error>)
    ensures
        match file_chain(*cert_file) {
            Ok(chain) => r matches Ok(found) && ders(found@) == chain,
            Err(failure) => r matches Err(error) && error@ == failure,
        },
        file_text(*cert_file) matches Some(text) ==> (holds(*cert_file, text) ==> chain_is_settled(
            text,
        )),
        file_text(*cert_file) matches Some(text) && text.len() == 0 ==> (r matches Ok(found)
            ==> found@.len() == 0),
{
    match &cert_file.contents {
        FileContents::Unopened => Err(Error::ServerCertNotFound(cert_file.path.clone())),
        FileContents::Read { bytes, failure } => match failure {
            Some(_) => Err(Error::InvalidServerCert(cert_file.path.clone())),
            None => {
                let reads = certs(bytes.as_slice());
                proof {
                    lemma_chain_is_settled(bytes@);
                    assert(cert_views(reads@).len() == reads@.len());
                }
                certificate_chain(reads, cert_file.path.as_str())
            },
        },
    }
}

/// The I/O error is the one that reading a CA came to: `failure`, where that cut the text short, or
/// else the reader's own on the section that stands first.
pub open spec fn ca_error_is_due(
    pem: Seq<u8>,
    failure: Option<std::io::Error>,
    error: std::io::Error,
) -> bool {
    if failure is Some && cut_short(certificate_reads(sections(pem))) {
        failure == Some(error)
    } else {
        exists|reads: Seq<Result<Vec<u8>, BrokenSection>>| #[trigger]
            reading(pem, reads) && reads.len() > 0 && (reads[0] matches Err(broken) && broken.error
                == error)
    }
}

/// Makes the anchors from the first certificate in PEM bytes.
fn roots_in_pem(pem: &[u8], failure: Option<std::io::Error>, source: &str) -> (r: Result<
    RootCertStore,
    Error,
>)
    ensures
        match pem_roots(pem@, failure is Some, source@) {
            Ok(held) => r matches Ok(store) && anchors(store) == held,
            Err(expected) => r matches Err(error) && error@ == expected,
        },
        cut_short(certificate_reads(sections(pem@))) && failure is Some ==> r == Err::<
            RootCertStore,
            Error,
        >(Error::Io(failure->0)),
        roots_are_settled(pem@, failure is Some, source@),
        pem@.len() == 0 ==> r is Err,
        r matches Err(Error::Io(error)) ==> ca_error_is_due(pem@, failure, error),
{
    let reads = certs(pem);
    proof {
        lemma_reading(pem, reads);
        let read = certificate_reads(sections(pem@));
        assert(cert_views(reads@).len() == reads@.len());
        if whole_lines(pem@) && !cut_short(read) {
            assert forall|more: Seq<u8>, later: bool| #[trigger]
                pem_roots(pem@ + more, later, source@) == pem_roots(
                pem@,
                failure is Some,
                source@,
            ) by {
                assert(certificate_reads(sections(pem@ + more))[0] == read[0]);
            }
        }
    }
    match ca_certificate(reads, failure, source) {
        Ok(der) => client_roots(der.as_slice(), source),
        Err(error) => Err(error),
    }
}

/// The I/O error is the one that reading a CA file came to.
pub open spec fn file_error_is_due(file: TlsFile, error: std::io::Error) -> bool {
    file.contents matches FileContents::Read { bytes, failure } && ca_error_is_due(
        legible(bytes@, failure is Some),
        failure,
        error,
    )
}

/// Makes the anchors from the CA certificate in a file.
fn roots_in_pemfile(ca_file: TlsFile) -> (r: Result<RootCertStore, Error>)
    ensures
        match file_roots(ca_file) {
            Ok(held) => r matches Ok(store) && anchors(store) == held,
            Err(expected) => r matches Err(error) && error@ == expected,
        },
        interrupted(ca_file) matches Some(error) ==> r == Err::<RootCertStore, Error>(
            Error::Io(error),
        ),
        file_roots_are_settled(ca_file),
        file_text(ca_file) matches Some(text) && text.len() == 0 ==> r is Err,
        r matches Err(Error::Io(error)) ==> file_error_is_due(ca_file, error),
{
    let ghost file = ca_file;
    match ca_file.contents {
        FileContents::Unopened => Err(Error::CaFileNotFound(ca_file.path)),
        FileContents::Read { bytes, failure } => {
            let text = legible_part(bytes.as_slice(), failure.is_some());
            let ghost failed = failure is Some;
            let r = roots_in_pem(text, failure, ca_file.path.as_str());
            proof {
                if whole_lines(text@) && !cut_short(certificate_reads(sections(text@))) {
                    assert forall|longer: TlsFile| extends(longer, file) implies #[trigger]
                        file_roots(longer) == file_roots(file) by {
                        let long_text = file_text(longer)->0;
                        let more = long_text.skip(text@.len() as int);
                        let later = longer.contents->failure is Some;
                        assert(long_text == text@ + more);
                        assert(pem_roots(text@ + more, later, file.path@) == pem_roots(
                            text@,
                            failed,
                            file.path@,
                        ));
                    }
                }
            }
            r
        },
    }
}

/// Gets the archive in a PKCS #12 file.
pub fn pkcs12_archive(pkcs12_file: &TlsFile) -> (r: Result<&[u8], Error>)
    ensures
        match pkcs12_file.contents {
            FileContents::Unopened => r matches Err(Error::ServerCertNotFound(name)) && name@
                == pkcs12_file.path@,
            FileContents::Read { bytes: _, failure: Some(_) } => r matches Err(
                Error::InvalidServerCert(name),
            ) && name@ == pkcs12_file.path@,
            FileContents::Read { bytes, failure: None } => r matches Ok(archive) && archive@
                == bytes@,
        },
{
    match &pkcs12_file.contents {
        FileContents::Unopened => Err(Error::ServerCertNotFound(pkcs12_file.path.clone())),
        FileContents::Read { bytes, failure } => match failure {
            Some(_) => Err(Error::InvalidServerCert(pkcs12_file.path.clone())),
            None => Ok(bytes.as_slice()),
        },
    }
}

/// The errors of a reader and of rustls that a build from PEM files hands on are their own.
pub open spec fn rustls_errors_are_due(
    ca: Option<TlsFile>,
    cert: TlsFile,
    key: TlsFile,
    features: Features,
    r: Result<TLSAcceptor, Error>,
) -> bool {
    &&& r matches Err(Error::Io(error)) ==> ca is Some && file_error_is_due(ca->0, error)
    &&& r matches Err(Error::Rustls(error)) ==> refused(
        file_chain(cert)->Ok_0,
        file_key(key)->Ok_0,
        if features.verify_client_cert {
            Some(file_roots(ca->0)->Ok_0)
        } else {
            None
        },
        error,
    )
}

/// The errors of a reader and of rustls that a build from PEM in memory hands on are their own.
pub open spec fn rustls_pem_errors_are_due(
    ca_pem: Option<Seq<u8>>,
    cert_pem: Seq<u8>,
    key_pem: Seq<u8>,
    features: Features,
    r: Result<TLSAcceptor, Error>,
) -> bool {
    &&& r matches Err(Error::Io(error)) ==> ca_pem is Some && ca_error_is_due(
        ca_pem->0,
        None,
        error,
    )
    &&& r matches Err(Error::Rustls(error)) ==> refused(
        chain_outcome(certificate_reads(sections(cert_pem)), "<in-memory cert>"@)->Ok_0,
        private_key_outcome(key_pem, "<in-memory key>"@)->Ok_0,
        if features.verify_client_cert {
            Some(pem_roots(ca_pem->0, false, "<in-memory ca>"@)->Ok_0)
        } else {
            None
        },
        error,
    )
}

impl TLSAcceptor {
    /// Makes a rustls acceptor. An anchorless store is none that this module makes.
    fn serve(
        chain: Vec<Vec<u8>>,
        key: PrivateKey,
        roots: Option<RootCertStore>,
        validate_tenant_prefix: bool,
    ) -> (r: Result<TLSAcceptor, Error>)
        requires
            roots matches Some(store) ==> anchors(store).len() > 0,
        ensures
            acceptor_result(r) == assembled(
                Ok(ders(chain@)),
                Ok(key@),
                match roots {
                    Some(store) => Some(Ok(anchors(store))),
                    None => None,
                },
                validate_tenant_prefix,
            ),
            r matches Err(error) ==> error is Rustls,
            r matches Err(Error::Rustls(error)) ==> refused(
                ders(chain@),
                key@,
                match roots {
                    Some(store) => Some(anchors(store)),
                    None => None,
                },
                error,
            ),
    {
        let shared = match roots {
            Some(store) => Some(Arc::new(store)),
            None => None,
        };
        match RustlsAcceptor::new(chain, key, shared) {
            Ok(acceptor) => Ok(TLSAcceptor::Rustls { acceptor, validate_tenant_prefix }),
            Err(error) => Err(error),
        }
    }

    /// Builds a rustls acceptor from PEM files.
    pub fn rustls(
        ca_path: Option<TlsFile>,
        cert_path: TlsFile,
        key_path: TlsFile,
        features: Features,
    ) -> (r: Result<TLSAcceptor, Error>)
        ensures
            acceptor_result(r) == rustls_outcome(ca_path, cert_path, key_path, features),
            interruption(ca_path, cert_path, key_path, features) matches Some(error) ==> r == Err::<
                TLSAcceptor,
                Error,
            >(Error::Io(error)),
            file_tails_are_ignored(ca_path, cert_path, key_path, features),
            one_file_serves(ca_path, cert_path, key_path, features),
            file_text(cert_path) matches Some(text) && text.len() == 0 ==> r is Err,
            file_text(key_path) matches Some(text) && text.len() == 0 ==> r is Err,
            features.verify_client_cert && (optional_text(ca_path) matches Some(text) && text.len()
                == 0) ==> r is Err,
            rustls_errors_are_due(ca_path, cert_path, key_path, features, r),
    {
        if features.verify_client_cert && ca_path.is_none() {
            return Err(
                Error::CaFileNotFound(
                    "capath must be specified in config when verify-client-cert is enabled."
                        .to_owned(),
                ),
            );
        }
        let chain_read = chain_in_pemfile(&cert_path);
        proof {
            if file_text(cert_path) is Some && file_text(key_path) is Some {
                let cert_text = file_text(cert_path)->0;
                let key_text = file_text(key_path)->0;
                if holds(cert_path, cert_text) && texts_join(cert_text, key_text) {
                    assert(sections(cert_text + key_text) == sections(cert_text) + sections(
                        key_text,
                    ));
                    lemma_certificate_reads_add(sections(cert_text), sections(key_text));
                    law_other_sections_are_passed_over(sections(cert_text), sections(key_text));
                }
            }
        }
        let chain = match chain_read {
            Ok(chain) => chain,
            Err(error) => return Err(error),
        };
        let key = match first_private_key_in_pemfile(&key_path) {
            Ok(key) => key,
            Err(error) => return Err(error),
        };
        let roots = match ca_path {
            Some(ca_file) if features.verify_client_cert => match roots_in_pemfile(ca_file) {
                Ok(store) => Some(store),
                Err(error) => return Err(error),
            },
            _ => None,
        };
        Self::serve(chain, key, roots, features.validate_tenant_prefix)
    }

    /// Builds a rustls acceptor from PEM in memory, so that the private key need not be written
    /// to disk.
    pub fn rustls_pem(
        ca_pem: &Option<Vec<u8>>,
        cert_pem: &[u8],
        key_pem: &[u8],
        features: Features,
    ) -> (r: Result<TLSAcceptor, Error>)
        ensures
            acceptor_result(r) == rustls_pem_outcome(
                optional_bytes(*ca_pem),
                cert_pem@,
                key_pem@,
                features,
            ),
            tails_are_ignored(optional_bytes(*ca_pem), cert_pem@, key_pem@, features),
            one_text_serves(optional_bytes(*ca_pem), cert_pem@, key_pem@, features),
            cert_pem@.len() == 0 || key_pem@.len() == 0 ==> r is Err,
            features.verify_client_cert && (ca_pem matches Some(ca) && ca@.len() == 0) ==> r is Err,
            rustls_pem_errors_are_due(optional_bytes(*ca_pem), cert_pem@, key_pem@, features, r),
    {
        if features.verify_client_cert && ca_pem.is_none() {
            return Err(
                Error::CaFileNotFound(
                    "ca_pem must be specified when verify-client-cert is enabled.".to_owned(),
                ),
            );
        }
        let cert_reads = certs(cert_pem);
        proof {
            assert(cert_views(cert_reads@).len() == cert_reads@.len());
            lemma_chain_is_settled(cert_pem@);
            if texts_join(cert_pem@, key_pem@) {
                assert(sections(cert_pem@ + key_pem@) == sections(cert_pem@) + sections(key_pem@));
                lemma_certificate_reads_add(sections(cert_pem@), sections(key_pem@));
                law_other_sections_are_passed_over(sections(cert_pem@), sections(key_pem@));
            }
        }
        let chain = match certificate_chain(cert_reads, "<in-memory cert>") {
            Ok(chain) => chain,
            Err(error) => return Err(error),
        };
        let key = match first_private_key_in_pem_bytes(key_pem) {
            Ok(key) => key,
            Err(error) => return Err(error),
        };
        let roots = match ca_pem {
            Some(pem) if features.verify_client_cert => match roots_in_pem(
                pem.as_slice(),
                None,
                "<in-memory ca>",
            ) {
                Ok(store) => Some(store),
                Err(error) => return Err(error),
            },
            _ => None,
        };
        Self::serve(chain, key, roots, features.validate_tenant_prefix)
    }

    /// Builds an acceptor of the platform's TLS library from a PKCS #12 file.
    pub fn native_tls(pkcs12_path: &TlsFile, pkcs12_pass: &str) -> (r: Result<TLSAcceptor, Error>)
        requires
            password_usable(*pkcs12_path, pkcs12_pass@),
        ensures
            native_tls_allows(*pkcs12_path, pkcs12_pass@, acceptor_result(r)),
            native_tls_answers(*pkcs12_path, pkcs12_pass@, r),
    {
        let archive = match pkcs12_archive(pkcs12_path) {
            Ok(archive) => archive,
            Err(error) => return Err(error),
        };
        let read = identity_from_pkcs12(archive, pkcs12_pass);
        proof {
            lemma_opening(archive, pkcs12_pass, read);
        }
        let identity = match identity_of_archive(read, pkcs12_path.path.as_str()) {
            Ok(identity) => identity,
            Err(error) => return Err(error),
        };
        let ghost opened = identity;
        let built = build_acceptor(identity);
        proof {
            lemma_building(opened, built);
        }
        match acceptor_of_build(built) {
            Ok(acceptor) => Ok(TLSAcceptor::NativeTLS { acceptor }),
            Err(error) => Err(error),
        }
    }

    /// Builds the acceptor that a configuration asks for.
    pub fn new(config: TlsConfig, features: Features) -> (r: Result<TLSAcceptor, Error>)
        requires
            features.use_native_tls && config is NativeTls ==> password_usable(
                config->pkcs12path,
                config->pkcs12pass@,
            ),
        ensures
            new_allows(config, features, acceptor_result(r)),
            config matches TlsConfig::Rustls { capath, certpath, keypath } ==> (
            features.use_rustls ==> (interruption(capath, certpath, keypath, features) matches Some(
                error,
            ) ==> r == Err::<TLSAcceptor, Error>(Error::Io(error)))),
            config matches TlsConfig::Rustls { capath, certpath, keypath } ==> (
            features.use_rustls ==> rustls_errors_are_due(capath, certpath, keypath, features, r)),
            config matches TlsConfig::RustlsPem { ca_pem, cert_pem, key_pem } ==> (
            features.use_rustls ==> rustls_pem_errors_are_due(
                optional_bytes(ca_pem),
                cert_pem@,
                key_pem@,
                features,
                r,
            )),
            config matches TlsConfig::RustlsReloadable(bundle) ==> (
            features.use_rustls ==> rustls_pem_errors_are_due(
                optional_bytes(bundle.ca_pem),
                bundle.cert_pem@,
                bundle.key_pem@,
                features,
                r,
            )),
            config matches TlsConfig::NativeTls { pkcs12path, pkcs12pass } ==> (
            features.use_native_tls ==> native_tls_answers(pkcs12path, pkcs12pass@, r)),
    {
        match config {
            TlsConfig::Rustls { capath, certpath, keypath } => {
                if features.use_rustls {
                    Self::rustls(capath, certpath, keypath, features)
                } else {
                    Err(Error::RustlsNotEnabled)
                }
            },
            TlsConfig::RustlsPem { ca_pem, cert_pem, key_pem } => {
                if features.use_rustls {
                    Self::rustls_pem(&ca_pem, cert_pem.as_slice(), key_pem.as_slice(), features)
                } else {
                    Err(Error::RustlsNotEnabled)
                }
            },
            TlsConfig::RustlsReloadable(bundle) => {
                if features.use_rustls {
                    Self::rustls_pem(
                        &bundle.ca_pem,
                        bundle.cert_pem.as_slice(),
                        bundle.key_pem.as_slice(),
                        features,
                    )
                } else {
                    Err(Error::RustlsNotEnabled)
                }
            },
            TlsConfig::NativeTls { pkcs12path, pkcs12pass } => {
                if features.use_native_tls {
                    Self::native_tls(&pkcs12path, pkcs12pass.as_str())
                } else {
                    Err(Error::NativeTlsNotEnabled)
                }
            },
        }
    }

    /// Decides what becomes of a client once the handshake with it has ended: which tenant it
    /// belongs to, or why it is turned away.
    pub fn accept(&self, handshake: Handshake) -> (r: Result<Option<String>, Error>)
        requires
            handshake_fits(self@, handshake),
        ensures
            tenant_is(r, accept_outcome(self@, handshake)),
            handshake matches Handshake::Rustls(Err(error)) ==> r == Err::<Option<String>, Error>(
                Error::Io(error),
            ),
            handshake matches Handshake::NativeTls(Err(error)) ==> r == Err::<
                Option<String>,
                Error,
            >(Error::NativeTls(error)),
    {
        match handshake {
            Handshake::Rustls(Ok(shown)) => match self {
                TLSAcceptor::Rustls { acceptor, validate_tenant_prefix } => {
                    if !acceptor.verifies_clients() {
                        return Ok(None);
                    }
                    match shown {
                        Some(shown_certs) => extract_tenant_id(
                            shown_certs[0].as_slice(),
                            *validate_tenant_prefix,
                        ),
                        None => Err(Error::NoPeerCertificate),
                    }
                },
                TLSAcceptor::NativeTLS { .. } => Ok(None),
            },
            Handshake::Rustls(Err(error)) => Err(Error::from(error)),
            Handshake::NativeTls(Ok(_)) => Ok(None),
            Handshake::NativeTls(Err(error)) => Err(Error::from(error)),
        }
    }
}

} // verus!

//! What holds of the acceptors as a whole.
use crate::config::{Features, FileContents, PemBundle, TlsConfig, TlsFile, file_text};
use crate::error::Failure;
use crate::pem::{
    Flaw, KeyEncoding, PemKind, Section, ca_outcome, certificate_reads, first_key, is_first_key,
    lemma_certificate_reads_add, lemma_first_key_at, passed_over, sections,
};
use crate::roots::{Anchor, trust_anchor};
use crate::setup::is_identity;
use crate::tenant::{
    Organization, all_alphanumeric, alphanumeric, ascii_alphanumeric, first_of,
    subject_organization, tenant_outcome,
};
use crate::tls::{
    AcceptorView, Handshake, accept_outcome, handshake_fits, native_tls_allows, new_allows,
    optional_bytes, optional_text, rustls_outcome, rustls_pem_outcome,
};
use vstd::prelude::*;

verus! {

/// The file was opened and read to its end, and holds `bytes`.
pub open spec fn holds(file: TlsFile, bytes: Seq<u8>) -> bool {
    file.contents matches FileContents::Read { bytes: read, failure: None } && read@ == bytes
}

/// A failure without the name of the source that is at fault.
pub open spec fn unnamed(failure: Failure) -> Failure {
    match failure {
        Failure::ServerCertNotFound(_) => Failure::ServerCertNotFound(Seq::empty()),
        Failure::InvalidServerCert(_) => Failure::InvalidServerCert(Seq::empty()),
        Failure::InvalidCACert(_) => Failure::InvalidCACert(Seq::empty()),
        Failure::InvalidServerKey(_) => Failure::InvalidServerKey(Seq::empty()),
        Failure::ServerKeyNotFound(_) => Failure::ServerKeyNotFound(Seq::empty()),
        Failure::CaFileNotFound(_) => Failure::CaFileNotFound(Seq::empty()),
        other => other,
    }
}

/// An outcome without the names of sources.
pub open spec fn unnamed_outcome(outcome: Result<AcceptorView, Failure>) -> Result<
    AcceptorView,
    Failure,
> {
    match outcome {
        Ok(acceptor) => Ok(acceptor),
        Err(failure) => Err(unnamed(failure)),
    }
}

/// PEM in memory gives the acceptor that files with the same contents give, and fails in the same
/// way, but for the name of the source.
pub proof fn law_memory_mirrors_files(
    ca: Option<TlsFile>,
    cert: TlsFile,
    key: TlsFile,
    ca_pem: Option<Seq<u8>>,
    cert_pem: Seq<u8>,
    key_pem: Seq<u8>,
    features: Features,
)
    requires
        ca is Some <==> ca_pem is Some,
        ca is Some ==> holds(ca->0, ca_pem->0),
        holds(cert, cert_pem),
        holds(key, key_pem),
    ensures
        unnamed_outcome(rustls_outcome(ca, cert, key, features)) == unnamed_outcome(
            rustls_pem_outcome(ca_pem, cert_pem, key_pem, features),
        ),
{
}

/// Reloadable material gives what its current PEM gives, and nothing else matters.
pub proof fn law_reloadable_is_its_snapshot(
    bundle: PemBundle,
    features: Features,
    outcome: Result<AcceptorView, Failure>,
)
    ensures
        new_allows(TlsConfig::RustlsReloadable(bundle), features, outcome) <==> new_allows(
            TlsConfig::RustlsPem {
                ca_pem: bundle.ca_pem,
                cert_pem: bundle.cert_pem,
                key_pem: bundle.key_pem,
            },
            features,
            outcome,
        ),
{
}

/// Where the backend is switched on, a configuration gives what the builder for it gives.
pub proof fn law_new_is_its_builder(
    config: TlsConfig,
    features: Features,
    outcome: Result<AcceptorView, Failure>,
)
    requires
        features.use_rustls,
        features.use_native_tls,
    ensures
        new_allows(config, features, outcome) <==> match config {
            TlsConfig::Rustls { capath, certpath, keypath } => outcome == rustls_outcome(
                capath,
                certpath,
                keypath,
                features,
            ),
            TlsConfig::RustlsPem { ca_pem, cert_pem, key_pem } => outcome == rustls_pem_outcome(
                optional_bytes(ca_pem),
                cert_pem@,
                key_pem@,
                features,
            ),
            TlsConfig::RustlsReloadable(bundle) => outcome == rustls_pem_outcome(
                optional_bytes(bundle.ca_pem),
                bundle.cert_pem@,
                bundle.key_pem@,
                features,
            ),
            TlsConfig::NativeTls { pkcs12path, pkcs12pass } => native_tls_allows(
                pkcs12path,
                pkcs12pass@,
                outcome,
            ),
        },
{
}

/// A rotation reaches the next acceptor and no earlier one: each is made of the material that was
/// current when it was built, and of nothing else.
pub proof fn law_rotation_reaches_the_next_acceptor(
    before: PemBundle,
    after: PemBundle,
    features: Features,
    earlier: Result<AcceptorView, Failure>,
    next: Result<AcceptorView, Failure>,
)
    requires
        features.use_rustls,
        new_allows(TlsConfig::RustlsReloadable(before), features, earlier),
        new_allows(TlsConfig::RustlsReloadable(after), features, next),
    ensures
        earlier == rustls_pem_outcome(
            optional_bytes(before.ca_pem),
            before.cert_pem@,
            before.key_pem@,
            features,
        ),
        next == rustls_pem_outcome(
            optional_bytes(after.ca_pem),
            after.cert_pem@,
            after.key_pem@,
            features,
        ),
{
}

/// A configuration for rustls has one outcome.
pub proof fn law_rustls_is_determined(
    config: TlsConfig,
    features: Features,
    one: Result<AcceptorView, Failure>,
    other: Result<AcceptorView, Failure>,
)
    requires
        !(config is NativeTls),
        new_allows(config, features, one),
        new_allows(config, features, other),
    ensures
        one == other,
{
}

/// An acceptor is of the kind that the configuration asks for, and only of one that is switched
/// on.
pub proof fn law_backend_is_the_one_asked_for(
    config: TlsConfig,
    features: Features,
    outcome: Result<AcceptorView, Failure>,
)
    requires
        new_allows(config, features, outcome),
    ensures
        outcome matches Ok(AcceptorView::Rustls { .. }) ==> !(config is NativeTls)
            && features.use_rustls,
        outcome matches Ok(AcceptorView::NativeTls { .. }) ==> config is NativeTls
            && features.use_native_tls,
        !(config is NativeTls) && !features.use_rustls ==> outcome == Err::<AcceptorView, Failure>(
            Failure::RustlsNotEnabled,
        ),
        config is NativeTls && !features.use_native_tls ==> outcome == Err::<
            AcceptorView,
            Failure,
        >(Failure::NativeTlsNotEnabled),
{
}

/// A rustls acceptor presents at least one certificate. It demands client certificates exactly
/// where they are to be verified, and then trusts one CA.
pub proof fn law_clients_are_verified(
    config: TlsConfig,
    features: Features,
    chain: Seq<Seq<u8>>,
    key: (KeyEncoding, Seq<u8>),
    roots: Option<Seq<Anchor>>,
    validate_tenant_prefix: bool,
)
    requires
        new_allows(
            config,
            features,
            Ok(AcceptorView::Rustls { chain, key, roots, validate_tenant_prefix }),
        ),
    ensures
        chain.len() > 0,
        roots is Some <==> features.verify_client_cert,
        roots matches Some(held) ==> held.len() == 1,
        validate_tenant_prefix == features.validate_tenant_prefix,
{
}

/// PEM in memory needs no file: none is missed, and a CA is missed exactly where it is needed and
/// not configured.
pub proof fn law_memory_needs_no_file(
    ca_pem: Option<Seq<u8>>,
    cert_pem: Seq<u8>,
    key_pem: Seq<u8>,
    features: Features,
)
    ensures
        !(rustls_pem_outcome(ca_pem, cert_pem, key_pem, features) matches Err(
            Failure::ServerCertNotFound(_),
        )),
        !(rustls_pem_outcome(ca_pem, cert_pem, key_pem, features) matches Err(
            Failure::ServerKeyNotFound(_),
        )),
        rustls_pem_outcome(ca_pem, cert_pem, key_pem, features) matches Err(
            Failure::CaFileNotFound(_),
        ) <==> features.verify_client_cert && ca_pem is None,
{
}

/// The outcome, if it is an acceptor, presents all certificates of `cert_pem` in order, and signs
/// with the first private key of `key_pem`.
pub open spec fn serves_identity(
    outcome: Result<AcceptorView, Failure>,
    cert_pem: Seq<u8>,
    key_pem: Seq<u8>,
) -> bool {
    outcome matches Ok(acceptor) ==> {
        &&& acceptor matches AcceptorView::Rustls { chain, key, .. }
        &&& certificate_reads(sections(cert_pem)) == chain.map_values(
            |der: Seq<u8>| Ok::<Seq<u8>, Flaw>(der),
        )
        &&& first_key(sections(key_pem)) == Some(key)
        &&& is_identity(chain, key)
    }
}

/// An acceptor from PEM in memory serves the identity that was configured.
pub proof fn law_identity_is_the_one_configured(
    ca_pem: Option<Seq<u8>>,
    cert_pem: Seq<u8>,
    key_pem: Seq<u8>,
    features: Features,
)
    ensures
        serves_identity(
            rustls_pem_outcome(ca_pem, cert_pem, key_pem, features),
            cert_pem,
            key_pem,
        ),
{
    if let Ok(acceptor) = rustls_pem_outcome(ca_pem, cert_pem, key_pem, features) {
        let reads = certificate_reads(sections(cert_pem));
        assert(reads == acceptor->chain.map_values(|der: Seq<u8>| Ok::<Seq<u8>, Flaw>(der)));
    }
}

/// An acceptor from PEM files serves the identity that was configured.
pub proof fn law_identity_is_the_one_in_the_files(
    ca: Option<TlsFile>,
    cert: TlsFile,
    key: TlsFile,
    features: Features,
)
    requires
        rustls_outcome(ca, cert, key, features) is Ok,
    ensures
        file_text(cert) matches Some(cert_text) && holds(cert, cert_text) && (file_text(
            key,
        ) matches Some(key_text) && serves_identity(
            rustls_outcome(ca, cert, key, features),
            cert_text,
            key_text,
        )),
{
    let reads = certificate_reads(sections(file_text(cert)->0));
    let acceptor = rustls_outcome(ca, cert, key, features)->Ok_0;
    assert(reads == acceptor->chain.map_values(|der: Seq<u8>| Ok::<Seq<u8>, Flaw>(der)));
}

/// The outcome is an acceptor whose only anchor comes from the first certificate of `ca_pem`.
pub open spec fn trusts_first(outcome: Result<AcceptorView, Failure>, ca_pem: Seq<u8>) -> bool {
    &&& certificate_reads(sections(ca_pem)).len() > 0
    &&& certificate_reads(sections(ca_pem))[0] matches Ok(der)
    &&& trust_anchor(der) matches Some(anchor)
    &&& outcome matches Ok(AcceptorView::Rustls { roots: Some(held), .. })
    &&& held == seq![anchor]
}

/// The CA that an acceptor from PEM files trusts is the first certificate of the CA file.
pub proof fn law_first_ca_in_file_is_trusted(
    ca: TlsFile,
    cert: TlsFile,
    key: TlsFile,
    features: Features,
)
    requires
        features.verify_client_cert,
        rustls_outcome(Some(ca), cert, key, features) is Ok,
    ensures
        file_text(ca) matches Some(text) && trusts_first(
            rustls_outcome(Some(ca), cert, key, features),
            text,
        ),
{
}

/// The CA that an acceptor from PEM in memory trusts is the first certificate of the CA's PEM.
pub proof fn law_first_ca_is_trusted(
    ca_pem: Seq<u8>,
    cert_pem: Seq<u8>,
    key_pem: Seq<u8>,
    features: Features,
)
    requires
        features.verify_client_cert,
        rustls_pem_outcome(Some(ca_pem), cert_pem, key_pem, features) is Ok,
    ensures
        trusts_first(rustls_pem_outcome(Some(ca_pem), cert_pem, key_pem, features), ca_pem),
{
}

/// Where clients are to be verified and no CA is configured, there is no acceptor, whatever the
/// rest of the configuration holds.
pub proof fn law_no_verification_without_ca(
    cert: TlsFile,
    key: TlsFile,
    cert_pem: Seq<u8>,
    key_pem: Seq<u8>,
    features: Features,
)
    requires
        features.verify_client_cert,
    ensures
        rustls_outcome(None, cert, key, features) matches Err(Failure::CaFileNotFound(_)),
        rustls_pem_outcome(None, cert_pem, key_pem, features) matches Err(
            Failure::CaFileNotFound(_),
        ),
{
}

/// Where clients are not verified, the CA is ignored, whatever it is.
pub proof fn law_ca_is_ignored(
    ca: Option<TlsFile>,
    cert: TlsFile,
    key: TlsFile,
    ca_pem: Option<Seq<u8>>,
    cert_pem: Seq<u8>,
    key_pem: Seq<u8>,
    features: Features,
)
    requires
        !features.verify_client_cert,
    ensures
        rustls_outcome(ca, cert, key, features) == rustls_outcome(None, cert, key, features),
        rustls_pem_outcome(ca_pem, cert_pem, key_pem, features) == rustls_pem_outcome(
            None,
            cert_pem,
            key_pem,
            features,
        ),
        !(rustls_outcome(ca, cert, key, features) matches Err(Failure::CaFileNotFound(_))),
        !(rustls_outcome(ca, cert, key, features) matches Err(Failure::InvalidCACert(_))),
        !(rustls_outcome(ca, cert, key, features) matches Err(Failure::Io)),
        !(rustls_pem_outcome(ca_pem, cert_pem, key_pem, features) matches Err(
            Failure::CaFileNotFound(_),
        )),
        !(rustls_pem_outcome(ca_pem, cert_pem, key_pem, features) matches Err(
            Failure::InvalidCACert(_),
        )),
        !(rustls_pem_outcome(ca_pem, cert_pem, key_pem, features) matches Err(Failure::Io)),
{
}

/// The first certificate is the CA: what follows it does not matter, not even a broken section.
pub proof fn law_first_certificate_hides_what_follows(
    before: Seq<Section>,
    after: Seq<Section>,
    failed: bool,
    source: Seq<char>,
)
    requires
        certificate_reads(before).len() > 0,
    ensures
        ca_outcome(certificate_reads(before + after), failed, source) == ca_outcome(
            certificate_reads(before),
            failed,
            source,
        ),
{
    lemma_certificate_reads_add(before, after);
}

/// A section that is sound but no certificate may stand anywhere among the certificates.
pub proof fn law_other_sections_are_no_certificates(
    before: Seq<Section>,
    kind: PemKind,
    der: Seq<u8>,
    after: Seq<Section>,
)
    requires
        !(kind is Certificate),
    ensures
        certificate_reads(before + seq![Ok((kind, der))] + after) == certificate_reads(
            before + after,
        ),
{
    let other: Seq<Section> = seq![Ok((kind, der))];
    assert(other.drop_last() == Seq::<Section>::empty());
    assert(certificate_reads(other) == Seq::<Result<Seq<u8>, Flaw>>::empty()) by {
        reveal_with_fuel(Seq::filter_map, 2);
    }
    lemma_certificate_reads_add(before, other);
    lemma_certificate_reads_add(before + other, after);
    lemma_certificate_reads_add(before, after);
}

/// The key is the first one: what follows it does not matter, not even a broken section.
pub proof fn law_first_key_hides_what_follows(
    before: Seq<Section>,
    after: Seq<Section>,
)
    requires
        first_key(before) is Some,
    ensures
        first_key(before + after) == first_key(before),
{
    let i = choose|i: int| is_first_key(before, i);
    assert(is_first_key(before, i));
    assert forall|j: int| 0 <= j < i implies #[trigger] passed_over((before + after)[j]) by {
        assert(passed_over(before[j]));
    }
    assert(is_first_key(before + after, i));
    lemma_first_key_at(before + after, i);
}

/// Sections that are no private key may precede it.
pub proof fn law_other_sections_are_passed_over(
    before: Seq<Section>,
    after: Seq<Section>,
)
    requires
        forall|i: int| 0 <= i < before.len() ==> #[trigger] passed_over(before[i]),
    ensures
        first_key(before + after) == first_key(after),
{
    let all = before + after;
    if exists|i: int| is_first_key(after, i) {
        let i = choose|i: int| is_first_key(after, i);
        let k = before.len() + i;
        assert forall|j: int| 0 <= j < k implies #[trigger] passed_over(all[j]) by {
            if j < before.len() {
                assert(passed_over(before[j]));
            } else {
                assert(passed_over(after[j - before.len()]));
            }
        }
        assert(is_first_key(all, k));
        lemma_first_key_at(all, k);
        lemma_first_key_at(after, i);
    } else if exists|i: int| is_first_key(all, i) {
        let i = choose|i: int| is_first_key(all, i);
        if i < before.len() {
            assert(passed_over(before[i]));
        } else {
            let k = i - before.len();
            assert forall|j: int| 0 <= j < k implies #[trigger] passed_over(after[j]) by {
                assert(passed_over(all[before.len() + j]));
            }
            assert(is_first_key(after, k));
        }
    }
}

/// A broken section that precedes every private key ends the search.
pub proof fn law_broken_section_ends_the_search(
    before: Seq<Section>,
    flaw: Flaw,
    after: Seq<Section>,
)
    requires
        first_key(before) is None,
    ensures
        first_key(before + seq![Err(flaw)] + after) is None,
{
    let all = before + seq![Err(flaw)] + after;
    if exists|i: int| is_first_key(all, i) {
        let i = choose|i: int| is_first_key(all, i);
        if i < before.len() {
            assert forall|j: int| 0 <= j < i implies #[trigger] passed_over(before[j]) by {
                assert(passed_over(all[j]));
            }
            assert(is_first_key(before, i));
        } else {
            assert(all[before.len() as int] == Err::<(PemKind, Seq<u8>), Flaw>(flaw));
            if i > before.len() {
                assert(passed_over(all[before.len() as int]));
            }
        }
    }
}

/// The first organization decides; others in the subject do not matter.
pub proof fn law_first_organization_decides(
    first: Option<Seq<char>>,
    others: Seq<Option<Seq<char>>>,
)
    ensures
        first_of(Some(seq![first] + others)) == first_of(Some(seq![first])),
{
}

/// A tenant id is the organization that the certificate names, and is alphanumeric.
pub proof fn law_tenant_is_alphanumeric(
    organization: Organization<Seq<char>>,
    validate_tenant_prefix: bool,
    id: Seq<char>,
)
    requires
        tenant_outcome(organization, validate_tenant_prefix) == Ok::<Option<Seq<char>>, Failure>(
            Some(id),
        ),
    ensures
        organization == Organization::Text(id),
        all_alphanumeric(id),
{
}

/// An organization of ASCII letters and digits is a tenant id.
pub proof fn law_ascii_tenant_is_accepted(id: Seq<char>, validate_tenant_prefix: bool)
    requires
        forall|i: int| 0 <= i < id.len() ==> #[trigger] ascii_alphanumeric(id[i]),
    ensures
        tenant_outcome(Organization::Text(id), validate_tenant_prefix) == Ok::<
            Option<Seq<char>>,
            Failure,
        >(Some(id)),
{
    assert forall|i: int| 0 <= i < id.len() implies #[trigger] alphanumeric(id[i]) by {
        assert(ascii_alphanumeric(id[i]));
    }
}

/// Where tenants are validated, no certificate passes without one.
pub proof fn law_validated_certificate_names_its_tenant(organization: Organization<Seq<char>>)
    ensures
        tenant_outcome(organization, true) != Ok::<Option<Seq<char>>, Failure>(None),
{
}

/// Where clients are verified, only a client that has shown a certificate gets in.
pub proof fn law_no_entry_without_certificate(acceptor: AcceptorView, handshake: Handshake)
    requires
        handshake_fits(acceptor, handshake),
        acceptor matches AcceptorView::Rustls { roots: Some(_), .. },
        accept_outcome(acceptor, handshake) is Ok,
    ensures
        handshake matches Handshake::Rustls(Ok(Some(shown))) && shown@.len() > 0,
{
}

/// The text that a configuration takes its CA from.
pub open spec fn configured_ca(config: TlsConfig) -> Option<Seq<u8>> {
    match config {
        TlsConfig::Rustls { capath, .. } => optional_text(capath),
        TlsConfig::RustlsPem { ca_pem, .. } => optional_bytes(ca_pem),
        TlsConfig::RustlsReloadable(bundle) => optional_bytes(bundle.ca_pem),
        TlsConfig::NativeTls { .. } => None,
    }
}

/// A listener that is configured to verify its clients lets in no client that has shown no
/// certificate, and the one anchor that its handshakes hold certificates against is that of the
/// first certificate of the configured CA.
pub proof fn law_clients_are_held_against_the_ca(
    config: TlsConfig,
    features: Features,
    acceptor: AcceptorView,
    handshake: Handshake,
)
    requires
        !(config is NativeTls),
        features.verify_client_cert,
        new_allows(config, features, Ok(acceptor)),
        handshake_fits(acceptor, handshake),
        accept_outcome(acceptor, handshake) is Ok,
    ensures
        configured_ca(config) matches Some(ca_pem) && trusts_first(Ok(acceptor), ca_pem),
        handshake matches Handshake::Rustls(Ok(Some(shown))) && shown@.len() > 0,
{
}

/// A listener that is configured to verify its clients and to validate tenants lets in no client
/// but with an alphanumeric tenant id: the organization that the client's own certificate names.
pub proof fn law_validated_clients_have_their_tenant(
    config: TlsConfig,
    features: Features,
    acceptor: AcceptorView,
    handshake: Handshake,
)
    requires
        !(config is NativeTls),
        features.verify_client_cert,
        features.validate_tenant_prefix,
        new_allows(config, features, Ok(acceptor)),
        handshake_fits(acceptor, handshake),
        accept_outcome(acceptor, handshake) is Ok,
    ensures
        handshake matches Handshake::Rustls(Ok(Some(shown))) && (shown@.len() > 0) && (
        accept_outcome(acceptor, handshake) matches Ok(Some(id)) && all_alphanumeric(id)
            && subject_organization(shown@[0]@) == Organization::Text(id)),
{
}

/// Where clients are not verified, every handshake that succeeds lets its client in, and the
/// client has no tenant.
pub proof fn law_unverified_clients_have_no_tenant(acceptor: AcceptorView, handshake: Handshake)
    requires
        handshake_fits(acceptor, handshake),
        !(acceptor matches AcceptorView::Rustls { roots: Some(_), .. }),
    ensures
        match handshake {
            Handshake::Rustls(ended) => ended is Ok <==> accept_outcome(acceptor, handshake) is Ok,
            Handshake::NativeTls(ended) => ended is Ok <==> accept_outcome(
                acceptor,
                handshake,
            ) is Ok,
        },
        accept_outcome(acceptor, handshake) matches Ok(tenant) ==> tenant is None,
{
}

} // verus!

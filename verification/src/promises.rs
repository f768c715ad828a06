//! What an operator and a client can rely on, told by what stands in the texts and certificates
//! and by what rustls, the platform's library and the parsers make of them.
use crate::archive::{FromArchive, building, opening};
use crate::config::{Features, FileContents, PemBundle, TlsConfig, TlsFile, file_text, legible};
use crate::error::{Error, Failure};
use crate::laws::holds;
use crate::pem::{
    BrokenSection, Flaw, KeyEncoding, PemItem, PemKind, Section, ca_outcome, cert_view, cert_views,
    certificate_reads, chain_outcome, cut_short, ders, first_key, is_first_key,
    key_encoding, lemma_certificate_reads_add, lemma_first_key_at, passed_over, pem_read_one,
    private_key_outcome, read_view, reading, sections,
};
use crate::roots::{Anchor, roots_outcome, trust_anchor};
use crate::setup::{identity_accepted, refused};
use crate::tenant::{
    Organization, first_of, organization_view, organizations_view,
    subject_organization, subject_organizations, tenant_is, tenant_outcome, unicode_alphanumeric,
};
use crate::tls::{
    AcceptorView, Handshake, TLSAcceptor, accept_outcome, acceptor_result, file_key,
    handshake_fits, interruption, native_tls_answers, new_allows,
    optional_bytes, password_usable, rustls_errors_are_due, rustls_outcome,
    rustls_pem_errors_are_due, rustls_pem_outcome,
};
use tokio_native_tls::native_tls::Error as NativeTlsError;
use tokio_native_tls::native_tls::{Identity, TlsAcceptor};
use vstd::prelude::*;

verus! {

/// A sound section that holds no private key.
pub open spec fn is_keyless(section: Section) -> bool {
    section matches Ok((kind, _)) && (kind is Certificate || kind is Other)
}

/// A sound section that holds no certificate.
pub open spec fn is_certless(section: Section) -> bool {
    section matches Ok((kind, _)) && !(kind is Certificate)
}

/// A section of this kind holds a private key in this encoding.
pub open spec fn encodes(kind: PemKind, encoding: KeyEncoding) -> bool {
    match encoding {
        KeyEncoding::Pkcs1 => kind is Pkcs1Key,
        KeyEncoding::Pkcs8 => kind is Pkcs8Key,
        KeyEncoding::Sec1 => kind is Sec1Key,
    }
}

/// Section `i` of the text is the private key `der`, and only sound sections without a key precede
/// it.
pub open spec fn key_stands_at(pem: Seq<u8>, i: int, encoding: KeyEncoding, der: Seq<u8>) -> bool {
    let all = sections(pem);
    &&& 0 <= i < all.len()
    &&& all[i] matches Ok((kind, contents)) && encodes(kind, encoding) && contents == der
    &&& forall|j: int| 0 <= j < i ==> is_keyless(#[trigger] all[j])
}

/// The text has no private key before its end, or before a section that is broken.
pub open spec fn has_no_key(pem: Seq<u8>) -> bool {
    let all = sections(pem);
    exists|n: int|
        {
            &&& 0 <= n <= all.len()
            &&& n < all.len() ==> all[n] is Err
            &&& forall|j: int| 0 <= j < n ==> is_keyless(#[trigger] all[j])
            &&& #[trigger] ends_at(n)
        }
}

/// A position at which a search is over.
pub open spec fn ends_at(n: int) -> bool {
    0 <= n
}

/// A section of the text is broken.
pub open spec fn is_flawed(pem: Seq<u8>) -> bool {
    exists|i: int| 0 <= i < sections(pem).len() && (#[trigger] sections(pem)[i]) is Err
}

/// The certificates of the text, in order, are `chain`, and no section is broken.
pub open spec fn has_chain(pem: Seq<u8>, chain: Seq<Seq<u8>>) -> bool {
    certificate_reads(sections(pem)) == chain.map_values(|der: Seq<u8>| Ok::<Seq<u8>, Flaw>(der))
}

/// Section `i` of the text is the first that is a certificate or broken.
pub open spec fn ca_stands_at(pem: Seq<u8>, i: int) -> bool {
    let all = sections(pem);
    &&& 0 <= i < all.len()
    &&& !is_certless(all[i])
    &&& forall|j: int| 0 <= j < i ==> is_certless(#[trigger] all[j])
}

/// No section of the text is a certificate or broken.
pub open spec fn has_no_ca(pem: Seq<u8>) -> bool {
    forall|j: int| 0 <= j < sections(pem).len() ==> is_certless(#[trigger] sections(pem)[j])
}

/// A letter or a digit.
pub open spec fn letter_or_digit(c: char) -> bool {
    ||| '0' <= c && c <= '9'
    ||| 'A' <= c && c <= 'Z'
    ||| 'a' <= c && c <= 'z'
    ||| c > '\x7f' && unicode_alphanumeric(c)
}

/// An acceptor that presents `chain`, signs with `key`, and holds its clients against the one
/// anchor where they are to be verified.
pub open spec fn rustls_acceptor_with(
    chain: Seq<Seq<u8>>,
    key: (KeyEncoding, Seq<u8>),
    anchor: Anchor,
    features: Features,
) -> Result<AcceptorView, Failure> {
    Ok(
        AcceptorView::Rustls {
            chain,
            key,
            roots: if features.verify_client_cert {
                Some(seq![anchor])
            } else {
                None
            },
            validate_tenant_prefix: features.validate_tenant_prefix,
        },
    )
}

/// The sections of a text are the one that is read first, and then those of what is left unread.
pub proof fn law_sections_follow_the_reader(
    pem: Seq<u8>,
    rest: Seq<u8>,
    section: (PemKind, Seq<u8>),
    flaw: Flaw,
)
    requires
        rest.len() < pem.len(),
    ensures
        pem_read_one(pem).0 matches Ok(None) ==> sections(pem).len() == 0,
        pem_read_one(pem) == (Ok::<Option<(PemKind, Seq<u8>)>, Flaw>(Some(section)), rest)
            ==> sections(pem) == seq![Ok::<(PemKind, Seq<u8>), Flaw>(section)] + sections(rest),
        pem_read_one(pem) == (Err::<Option<(PemKind, Seq<u8>)>, Flaw>(flaw), rest) ==> sections(pem)
            == seq![Err::<(PemKind, Seq<u8>), Flaw>(flaw)] + sections(rest),
{
}

/// Of the sections, the certificates and the broken ones are read as certificates, each once and
/// in their order.
pub proof fn law_certificates_are_read_in_order(
    before: Seq<Section>,
    section: Section,
    after: Seq<Section>,
)
    ensures
        certificate_reads(Seq::<Section>::empty()).len() == 0,
        is_certless(section) ==> certificate_reads(before + seq![section] + after)
            == certificate_reads(before) + certificate_reads(after),
        section matches Ok((PemKind::Certificate, der)) ==> certificate_reads(
            before + seq![section] + after,
        ) == certificate_reads(before) + seq![Ok::<Seq<u8>, Flaw>(der)] + certificate_reads(after),
        section matches Err(flaw) ==> certificate_reads(before + seq![section] + after)
            == certificate_reads(before) + seq![Err::<Seq<u8>, Flaw>(flaw)] + certificate_reads(
            after,
        ),
{
    let one: Seq<Section> = seq![section];
    assert(one.drop_last() == Seq::<Section>::empty());
    reveal_with_fuel(Seq::filter_map, 2);
    lemma_certificate_reads_add(before, one);
    lemma_certificate_reads_add(before + one, after);
    assert(certificate_reads(before) + certificate_reads(one) == match section {
        Ok((PemKind::Certificate, der)) => certificate_reads(before) + seq![
            Ok::<Seq<u8>, Flaw>(der),
        ],
        Ok(_) => certificate_reads(before),
        Err(flaw) => certificate_reads(before) + seq![Err::<Seq<u8>, Flaw>(flaw)],
    });
}

/// A text splits at each of its sections.
proof fn lemma_split(all: Seq<Section>, i: int)
    requires
        0 <= i < all.len(),
    ensures
        all == all.take(i) + seq![all[i]] + all.skip(i + 1),
{
    assert(all =~= all.take(i) + seq![all[i]] + all.skip(i + 1));
}

/// Sections of which none is a certificate or broken give no reads.
proof fn lemma_certless(all: Seq<Section>)
    requires
        forall|j: int| 0 <= j < all.len() ==> is_certless(#[trigger] all[j]),
    ensures
        certificate_reads(all).len() == 0,
    decreases all.len(),
{
    if all.len() > 0 {
        let n = all.len() - 1;
        lemma_split(all, n);
        law_certificates_are_read_in_order(all.take(n), all[n], all.skip(n + 1));
        assert(all.skip(n + 1) == Seq::<Section>::empty());
        assert forall|j: int| 0 <= j < all.take(n).len() implies is_certless(
            #[trigger] all.take(n)[j],
        ) by {
            assert(is_certless(all[j]));
        }
        lemma_certless(all.take(n));
    }
}

/// The first read is that of the first section that is a certificate or broken.
proof fn lemma_first_read(pem: Seq<u8>, i: int)
    requires
        ca_stands_at(pem, i),
    ensures
        certificate_reads(sections(pem)).len() > 0,
        certificate_reads(sections(pem))[0] == match sections(pem)[i] {
            Ok((_, der)) => Ok::<Seq<u8>, Flaw>(der),
            Err(flaw) => Err::<Seq<u8>, Flaw>(flaw),
        },
{
    let all = sections(pem);
    lemma_split(all, i);
    law_certificates_are_read_in_order(all.take(i), all[i], all.skip(i + 1));
    assert forall|j: int| 0 <= j < all.take(i).len() implies is_certless(
        #[trigger] all.take(i)[j],
    ) by {
        assert(is_certless(all[j]));
    }
    lemma_certless(all.take(i));
}

/// A text with a broken section gives a broken read.
proof fn lemma_flawed_reads(pem: Seq<u8>)
    requires
        is_flawed(pem),
    ensures
        exists|k: int|
            0 <= k < certificate_reads(sections(pem)).len() && (#[trigger] certificate_reads(
                sections(pem),
            )[k]) is Err,
{
    let all = sections(pem);
    let i = choose|i: int| 0 <= i < all.len() && (#[trigger] all[i]) is Err;
    lemma_split(all, i);
    law_certificates_are_read_in_order(all.take(i), all[i], all.skip(i + 1));
    let k = certificate_reads(all.take(i)).len() as int;
    assert(certificate_reads(all)[k] is Err);
}

/// A section holds a private key exactly where its kind says so, in the encoding that belongs to
/// the kind.
pub proof fn law_kinds_have_their_encodings(kind: PemKind, encoding: KeyEncoding)
    ensures
        key_encoding(kind) == Some(encoding) <==> encodes(kind, encoding),
        key_encoding(kind) is None <==> kind is Certificate || kind is Other,
{
}

/// The first private key is found, in each of the three encodings.
pub proof fn law_key_is_found(
    pem: Seq<u8>,
    i: int,
    encoding: KeyEncoding,
    der: Seq<u8>,
    source: Seq<char>,
)
    requires
        key_stands_at(pem, i, encoding, der),
    ensures
        first_key(sections(pem)) == Some((encoding, der)),
        private_key_outcome(pem, source) == Ok::<(KeyEncoding, Seq<u8>), Failure>((encoding, der)),
{
    let all = sections(pem);
    assert forall|j: int| 0 <= j < i implies #[trigger] passed_over(all[j]) by {
        assert(is_keyless(all[j]));
    }
    assert(is_first_key(all, i));
    lemma_first_key_at(all, i);
}

/// Without a private key before its end, or before a broken section, a text is refused by name.
pub proof fn law_no_key_is_refused(pem: Seq<u8>, source: Seq<char>)
    requires
        has_no_key(pem),
    ensures
        first_key(sections(pem)) is None,
        private_key_outcome(pem, source) == Err::<(KeyEncoding, Seq<u8>), Failure>(
            Failure::InvalidServerKey(source),
        ),
{
    let all = sections(pem);
    let n = choose|n: int|
        {
            &&& 0 <= n <= all.len()
            &&& n < all.len() ==> all[n] is Err
            &&& forall|j: int| 0 <= j < n ==> is_keyless(#[trigger] all[j])
            &&& #[trigger] ends_at(n)
        };
    assert forall|i: int| !is_first_key(all, i) by {
        if is_first_key(all, i) {
            if i < n {
                assert(is_keyless(all[i]));
            } else if n < i {
                assert(passed_over(all[n]));
            }
        }
    }
}

/// All certificates of a text are the chain; a broken section spoils it, and the source is named.
pub proof fn law_chain_is_all_certificates(pem: Seq<u8>, chain: Seq<Seq<u8>>, source: Seq<char>)
    ensures
        has_chain(pem, chain) ==> chain_outcome(certificate_reads(sections(pem)), source) == Ok::<
            Seq<Seq<u8>>,
            Failure,
        >(chain),
        is_flawed(pem) ==> chain_outcome(certificate_reads(sections(pem)), source) == Err::<
            Seq<Seq<u8>>,
            Failure,
        >(Failure::InvalidServerCert(source)),
{
    let reads = certificate_reads(sections(pem));
    if has_chain(pem, chain) {
        assert(reads.map_values(|read: Result<Seq<u8>, Flaw>| read->Ok_0) =~= chain);
    }
    if is_flawed(pem) {
        lemma_flawed_reads(pem);
    }
}

/// The CA is the first certificate of its text. A broken section in its place is an I/O error, and
/// so is an error that reading stopped on before; a text without either is refused by name.
pub proof fn law_ca_is_the_first_certificate(
    pem: Seq<u8>,
    i: int,
    failed: bool,
    source: Seq<char>,
)
    ensures
        ca_stands_at(pem, i) ==> (sections(pem)[i] matches Ok((_, der)) ==> ca_outcome(
            certificate_reads(sections(pem)),
            failed,
            source,
        ) == Ok::<Seq<u8>, Failure>(der)),
        ca_stands_at(pem, i) && sections(pem)[i] is Err ==> ca_outcome(
            certificate_reads(sections(pem)),
            failed,
            source,
        ) == Err::<Seq<u8>, Failure>(Failure::Io),
        has_no_ca(pem) ==> ca_outcome(certificate_reads(sections(pem)), failed, source) == Err::<
            Seq<u8>,
            Failure,
        >(
            if failed {
                Failure::Io
            } else {
                Failure::InvalidCACert(source)
            },
        ),
        has_no_ca(pem) ==> cut_short(certificate_reads(sections(pem))),
        ca_stands_at(pem, i) ==> (cut_short(certificate_reads(sections(pem))) <==> sections(pem)[i]
            == Err::<(PemKind, Seq<u8>), Flaw>(Flaw::NoEnd)),
{
    if ca_stands_at(pem, i) {
        lemma_first_read(pem, i);
    }
    if has_no_ca(pem) {
        lemma_certless(sections(pem));
    }
}

/// A CA gives its anchor and nothing else, or is refused by name.
pub proof fn law_ca_gives_its_anchor(der: Seq<u8>, source: Seq<char>)
    ensures
        trust_anchor(der) matches Some(anchor) ==> roots_outcome(der, source) == Ok::<
            Seq<Anchor>,
            Failure,
        >(seq![anchor]),
        trust_anchor(der) is None ==> roots_outcome(der, source) == Err::<Seq<Anchor>, Failure>(
            Failure::InvalidCACert(source),
        ),
{
}

/// The CA is one that clients can be held against, or clients are not to be verified.
pub open spec fn ca_is_sound(
    ca_pem: Option<Seq<u8>>,
    i: int,
    anchor: Anchor,
    features: Features,
) -> bool {
    features.verify_client_cert ==> {
        &&& ca_pem matches Some(pem)
        &&& ca_stands_at(pem, i)
        &&& sections(pem)[i] matches Ok((_, der))
        &&& trust_anchor(der) == Some(anchor)
    }
}

/// Success is owed: certificates and key that rustls takes as an identity, with a sound CA where
/// clients are verified, give an acceptor with just these.
pub proof fn law_sound_texts_give_an_acceptor(
    ca_pem: Option<Seq<u8>>,
    cert_pem: Seq<u8>,
    key_pem: Seq<u8>,
    features: Features,
    chain: Seq<Seq<u8>>,
    k: int,
    encoding: KeyEncoding,
    der: Seq<u8>,
    c: int,
    anchor: Anchor,
)
    requires
        has_chain(cert_pem, chain),
        key_stands_at(key_pem, k, encoding, der),
        ca_is_sound(ca_pem, c, anchor, features),
    ensures
        chain.len() > 0 && identity_accepted(chain, encoding, der) ==> rustls_pem_outcome(
            ca_pem,
            cert_pem,
            key_pem,
            features,
        ) == rustls_acceptor_with(chain, (encoding, der), anchor, features),
        !(chain.len() > 0 && identity_accepted(chain, encoding, der)) ==> rustls_pem_outcome(
            ca_pem,
            cert_pem,
            key_pem,
            features,
        ) == Err::<AcceptorView, Failure>(Failure::Rustls),
{
    law_chain_is_all_certificates(cert_pem, chain, "<in-memory cert>"@);
    law_key_is_found(key_pem, k, encoding, der, "<in-memory key>"@);
    if features.verify_client_cert {
        law_ca_is_the_first_certificate(ca_pem->0, c, false, "<in-memory ca>"@);
    }
}

/// Each fault of PEM in memory has its own answer, and the first of them is reported: a CA that is
/// needed and not configured, a broken certificate, a missing key, and a CA that clients cannot be
/// held against.
pub proof fn law_faults_of_texts_are_reported(
    ca_pem: Option<Seq<u8>>,
    cert_pem: Seq<u8>,
    key_pem: Seq<u8>,
    features: Features,
    chain: Seq<Seq<u8>>,
    k: int,
    encoding: KeyEncoding,
    der: Seq<u8>,
    c: int,
)
    ensures
        features.verify_client_cert && ca_pem is None ==> rustls_pem_outcome(
            ca_pem,
            cert_pem,
            key_pem,
            features,
        ) == Err::<AcceptorView, Failure>(
            Failure::CaFileNotFound("ca_pem must be specified when verify-client-cert is enabled."@),
        ),
        (features.verify_client_cert ==> ca_pem is Some) && is_flawed(cert_pem)
            ==> rustls_pem_outcome(ca_pem, cert_pem, key_pem, features) == Err::<
            AcceptorView,
            Failure,
        >(Failure::InvalidServerCert("<in-memory cert>"@)),
        (features.verify_client_cert ==> ca_pem is Some) && has_chain(cert_pem, chain)
            && has_no_key(key_pem) ==> rustls_pem_outcome(ca_pem, cert_pem, key_pem, features)
            == Err::<AcceptorView, Failure>(Failure::InvalidServerKey("<in-memory key>"@)),
        features.verify_client_cert && has_chain(cert_pem, chain) && key_stands_at(
            key_pem,
            k,
            encoding,
            der,
        ) ==> (ca_pem matches Some(pem) ==> {
            &&& has_no_ca(pem) ==> rustls_pem_outcome(ca_pem, cert_pem, key_pem, features) == Err::<
                AcceptorView,
                Failure,
            >(Failure::InvalidCACert("<in-memory ca>"@))
            &&& ca_stands_at(pem, c) && sections(pem)[c] is Err ==> rustls_pem_outcome(
                ca_pem,
                cert_pem,
                key_pem,
                features,
            ) == Err::<AcceptorView, Failure>(Failure::Io)
            &&& ca_stands_at(pem, c) && sections(pem)[c] is Ok && trust_anchor(
                sections(pem)[c]->Ok_0.1,
            ) is None ==> rustls_pem_outcome(ca_pem, cert_pem, key_pem, features) == Err::<
                AcceptorView,
                Failure,
            >(Failure::InvalidCACert("<in-memory ca>"@))
        }),
{
    law_chain_is_all_certificates(cert_pem, chain, "<in-memory cert>"@);
    if has_no_key(key_pem) {
        law_no_key_is_refused(key_pem, "<in-memory key>"@);
    }
    if key_stands_at(key_pem, k, encoding, der) {
        law_key_is_found(key_pem, k, encoding, der, "<in-memory key>"@);
    }
    if ca_pem is Some {
        law_ca_is_the_first_certificate(ca_pem->0, c, false, "<in-memory ca>"@);
    }
}

/// A file that could not be opened has no text. Of one that was read, the text is what was read,
/// but for a line that an I/O error has cut off.
pub proof fn law_text_is_what_was_read(file: TlsFile, lines: Seq<u8>, cut: Seq<u8>)
    requires
        lines.len() > 0 ==> lines.last() == 10 || lines.last() == 13,
        forall|i: int| 0 <= i < cut.len() ==> #[trigger] cut[i] != 10 && cut[i] != 13,
    ensures
        legible(lines + cut, true) == lines,
        legible(lines + cut, false) == lines + cut,
        file.contents is Unopened ==> file_text(file) is None,
        file.contents matches FileContents::Read { bytes, failure: None } ==> file_text(file)
            == Some(bytes@),
        file.contents matches FileContents::Read { bytes, failure: Some(_) } ==> (bytes@ == lines
            + cut ==> file_text(file) == Some(lines)),
    decreases cut.len(),
{
    if cut.len() > 0 {
        let fewer = cut.drop_last();
        assert((lines + cut).drop_last() == lines + fewer);
        assert((lines + cut).last() == cut[cut.len() - 1]);
        assert forall|i: int| 0 <= i < fewer.len() implies #[trigger] fewer[i] != 10 && fewer[i]
            != 13 by {
            assert(cut[i] != 10);
        }
        law_text_is_what_was_read(file, lines, fewer);
    } else {
        assert(lines + cut == lines);
    }
}

/// The private key of a file is the first of its text; a file that could not be opened, or has
/// none, is refused by its path.
pub proof fn law_key_file_is_searched(
    file: TlsFile,
    text: Seq<u8>,
    k: int,
    encoding: KeyEncoding,
    der: Seq<u8>,
)
    ensures
        file.contents is Unopened ==> file_key(file) == Err::<(KeyEncoding, Seq<u8>), Failure>(
            Failure::ServerKeyNotFound(file.path@),
        ),
        file_text(file) == Some(text) && key_stands_at(text, k, encoding, der) ==> file_key(file)
            == Ok::<(KeyEncoding, Seq<u8>), Failure>((encoding, der)),
        file_text(file) == Some(text) && has_no_key(text) ==> file_key(file) == Err::<
            (KeyEncoding, Seq<u8>),
            Failure,
        >(Failure::InvalidServerKey(file.path@)),
{
    if key_stands_at(text, k, encoding, der) {
        law_key_is_found(text, k, encoding, der, file.path@);
    }
    if has_no_key(text) {
        law_no_key_is_refused(text, file.path@);
    }
}

/// The text of a CA file, if there is one that could be opened.
pub open spec fn ca_text(ca: Option<TlsFile>) -> Option<Seq<u8>> {
    match ca {
        Some(file) => file_text(file),
        None => None,
    }
}

/// Success is owed: certificates and key that rustls takes as an identity, with a sound CA where
/// clients are verified, give an acceptor with just these.
pub proof fn law_sound_files_give_an_acceptor(
    ca: Option<TlsFile>,
    cert: TlsFile,
    key: TlsFile,
    features: Features,
    cert_text: Seq<u8>,
    key_text: Seq<u8>,
    chain: Seq<Seq<u8>>,
    k: int,
    encoding: KeyEncoding,
    der: Seq<u8>,
    c: int,
    anchor: Anchor,
)
    requires
        cert.contents matches FileContents::Read { bytes, failure: None } && bytes@ == cert_text,
        has_chain(cert_text, chain),
        file_text(key) == Some(key_text),
        key_stands_at(key_text, k, encoding, der),
        ca_is_sound(ca_text(ca), c, anchor, features),
    ensures
        chain.len() > 0 && identity_accepted(chain, encoding, der) ==> rustls_outcome(
            ca,
            cert,
            key,
            features,
        ) == rustls_acceptor_with(chain, (encoding, der), anchor, features),
        !(chain.len() > 0 && identity_accepted(chain, encoding, der)) ==> rustls_outcome(
            ca,
            cert,
            key,
            features,
        ) == Err::<AcceptorView, Failure>(Failure::Rustls),
{
    law_chain_is_all_certificates(cert_text, chain, cert.path@);
    law_key_file_is_searched(key, key_text, k, encoding, der);
    if features.verify_client_cert {
        law_ca_is_the_first_certificate(
            ca_text(ca)->0,
            c,
            ca->0.contents->failure is Some,
            ca->0.path@,
        );
    }
}

/// Each fault of PEM files has its own answer, and the first of them is reported: a CA that is
/// needed and not configured, the certificate file, the key file, and the CA file.
pub proof fn law_faults_of_files_are_reported(
    ca: Option<TlsFile>,
    cert: TlsFile,
    key: TlsFile,
    features: Features,
    cert_text: Seq<u8>,
    key_text: Seq<u8>,
    chain: Seq<Seq<u8>>,
    k: int,
    encoding: KeyEncoding,
    der: Seq<u8>,
    c: int,
)
    ensures
        features.verify_client_cert && ca is None ==> rustls_outcome(ca, cert, key, features)
            == Err::<AcceptorView, Failure>(
            Failure::CaFileNotFound(
                "capath must be specified in config when verify-client-cert is enabled."@,
            ),
        ),
        (features.verify_client_cert ==> ca is Some) ==> {
            let outcome = rustls_outcome(ca, cert, key, features);
            let certs_are_sound = cert.contents matches FileContents::Read { bytes, failure: None }
                && bytes@ == cert_text && has_chain(cert_text, chain);
            let key_is_sound = file_text(key) == Some(key_text) && key_stands_at(
                key_text,
                k,
                encoding,
                der,
            );
            &&& cert.contents is Unopened ==> outcome == Err::<AcceptorView, Failure>(
                Failure::ServerCertNotFound(cert.path@),
            )
            &&& cert.contents matches FileContents::Read { bytes, failure } ==> (failure is Some
                || is_flawed(bytes@) ==> outcome == Err::<AcceptorView, Failure>(
                Failure::InvalidServerCert(cert.path@),
            ))
            &&& certs_are_sound && key.contents is Unopened ==> outcome == Err::<
                AcceptorView,
                Failure,
            >(Failure::ServerKeyNotFound(key.path@))
            &&& certs_are_sound && file_text(key) == Some(key_text) && has_no_key(key_text)
                ==> outcome == Err::<AcceptorView, Failure>(Failure::InvalidServerKey(key.path@))
            &&& certs_are_sound && key_is_sound && features.verify_client_cert ==> (ca matches Some(
                file,
            ) ==> {
                &&& file.contents is Unopened ==> outcome == Err::<AcceptorView, Failure>(
                    Failure::CaFileNotFound(file.path@),
                )
                &&& file_text(file) matches Some(text) ==> {
                    &&& has_no_ca(text) && file.contents->failure is None ==> outcome == Err::<
                        AcceptorView,
                        Failure,
                    >(Failure::InvalidCACert(file.path@))
                    &&& has_no_ca(text) && file.contents->failure is Some ==> outcome == Err::<
                        AcceptorView,
                        Failure,
                    >(Failure::Io)
                    &&& ca_stands_at(text, c) && sections(text)[c] is Err ==> outcome == Err::<
                        AcceptorView,
                        Failure,
                    >(Failure::Io)
                    &&& ca_stands_at(text, c) && sections(text)[c] is Ok && trust_anchor(
                        sections(text)[c]->Ok_0.1,
                    ) is None ==> outcome == Err::<AcceptorView, Failure>(
                        Failure::InvalidCACert(file.path@),
                    )
                }
            })
        },
{
    law_chain_is_all_certificates(cert_text, chain, cert.path@);
    if let FileContents::Read { bytes, failure } = cert.contents {
        law_chain_is_all_certificates(bytes@, chain, cert.path@);
    }
    law_key_file_is_searched(key, key_text, k, encoding, der);
    if ca is Some && file_text(ca->0) is Some {
        law_ca_is_the_first_certificate(
            file_text(ca->0)->0,
            c,
            ca->0.contents->failure is Some,
            ca->0.path@,
        );
    }
}

/// An I/O error that kept the CA file from showing a certificate, or a whole section in its place,
/// is the one that is reported.
pub proof fn law_interruption_is_reported(
    ca: TlsFile,
    cert: TlsFile,
    key: TlsFile,
    features: Features,
    cert_text: Seq<u8>,
    key_text: Seq<u8>,
    chain: Seq<Seq<u8>>,
    k: int,
    encoding: KeyEncoding,
    der: Seq<u8>,
    c: int,
    error: std::io::Error,
)
    requires
        features.verify_client_cert,
        cert.contents matches FileContents::Read { bytes, failure: None } && bytes@ == cert_text,
        has_chain(cert_text, chain),
        file_text(key) == Some(key_text),
        key_stands_at(key_text, k, encoding, der),
        ca.contents matches FileContents::Read { bytes: _, failure } && failure == Some(error),
        has_no_ca(file_text(ca)->0) || (ca_stands_at(file_text(ca)->0, c) && sections(
            file_text(ca)->0,
        )[c] == Err::<(PemKind, Seq<u8>), Flaw>(Flaw::NoEnd)),
    ensures
        interruption(Some(ca), cert, key, features) == Some(error),
{
    law_chain_is_all_certificates(cert_text, chain, cert.path@);
    law_key_file_is_searched(key, key_text, k, encoding, der);
    law_ca_is_the_first_certificate(file_text(ca)->0, c, true, ca.path@);
}

/// Where rustls is switched on, whatever else is, a configuration with PEM files, with PEM in
/// memory or with reloadable PEM has the outcome that its own material gives, and no other.
/// Where it is switched off, that is reported.
pub proof fn law_new_serves_its_own_material(
    features: Features,
    outcome: Result<AcceptorView, Failure>,
    capath: Option<TlsFile>,
    certpath: TlsFile,
    keypath: TlsFile,
    bundle: PemBundle,
)
    ensures
        new_allows(TlsConfig::Rustls { capath, certpath, keypath }, features, outcome) <==> outcome
            == if features.use_rustls {
            rustls_outcome(capath, certpath, keypath, features)
        } else {
            Err::<AcceptorView, Failure>(Failure::RustlsNotEnabled)
        },
        new_allows(
            TlsConfig::RustlsPem {
                ca_pem: bundle.ca_pem,
                cert_pem: bundle.cert_pem,
                key_pem: bundle.key_pem,
            },
            features,
            outcome,
        ) <==> outcome == if features.use_rustls {
            rustls_pem_outcome(
                match bundle.ca_pem {
                    Some(bytes) => Some(bytes@),
                    None => None,
                },
                bundle.cert_pem@,
                bundle.key_pem@,
                features,
            )
        } else {
            Err::<AcceptorView, Failure>(Failure::RustlsNotEnabled)
        },
        new_allows(TlsConfig::RustlsReloadable(bundle), features, outcome) <==> outcome
            == if features.use_rustls {
            rustls_pem_outcome(
                match bundle.ca_pem {
                    Some(bytes) => Some(bytes@),
                    None => None,
                },
                bundle.cert_pem@,
                bundle.key_pem@,
                features,
            )
        } else {
            Err::<AcceptorView, Failure>(Failure::RustlsNotEnabled)
        },
{
}

/// Where clients are not verified, what a configuration gives does not depend on its CA.
pub proof fn law_new_ignores_the_ca(
    features: Features,
    outcome: Result<AcceptorView, Failure>,
    one: Option<TlsFile>,
    other: Option<TlsFile>,
    certpath: TlsFile,
    keypath: TlsFile,
    one_pem: Option<Vec<u8>>,
    other_pem: Option<Vec<u8>>,
    cert_pem: Vec<u8>,
    key_pem: Vec<u8>,
)
    requires
        !features.verify_client_cert,
    ensures
        new_allows(TlsConfig::Rustls { capath: one, certpath, keypath }, features, outcome)
            <==> new_allows(
            TlsConfig::Rustls { capath: other, certpath, keypath },
            features,
            outcome,
        ),
        new_allows(TlsConfig::RustlsPem { ca_pem: one_pem, cert_pem, key_pem }, features, outcome)
            <==> new_allows(
            TlsConfig::RustlsPem { ca_pem: other_pem, cert_pem, key_pem },
            features,
            outcome,
        ),
        new_allows(
            TlsConfig::RustlsReloadable(PemBundle { ca_pem: one_pem, cert_pem, key_pem }),
            features,
            outcome,
        ) <==> new_allows(
            TlsConfig::RustlsReloadable(PemBundle { ca_pem: other_pem, cert_pem, key_pem }),
            features,
            outcome,
        ),
{
}

/// A listener with PEM files presents the certificates of its certificate file, signs with the key
/// of its key file, and asks for client certificates only where they are to be verified.
pub proof fn law_new_presents_its_certificates(
    config: TlsConfig,
    features: Features,
    cert_text: Seq<u8>,
    key_text: Seq<u8>,
    chain: Seq<Seq<u8>>,
    k: int,
    encoding: KeyEncoding,
    der: Seq<u8>,
    c: int,
    anchor: Anchor,
    outcome: Result<AcceptorView, Failure>,
)
    requires
        features.use_rustls,
        new_allows(config, features, outcome),
        config matches TlsConfig::Rustls { capath, certpath, keypath } && (
        certpath.contents matches FileContents::Read { bytes, failure: None } && bytes@
            == cert_text) && file_text(keypath) == Some(key_text) && ca_is_sound(
            ca_text(capath),
            c,
            anchor,
            features,
        ),
        has_chain(cert_text, chain),
        key_stands_at(key_text, k, encoding, der),
        chain.len() > 0,
        identity_accepted(chain, encoding, der),
    ensures
        outcome == rustls_acceptor_with(chain, (encoding, der), anchor, features),
{
    if let TlsConfig::Rustls { capath, certpath, keypath } = config {
        law_sound_files_give_an_acceptor(
            capath,
            certpath,
            keypath,
            features,
            cert_text,
            key_text,
            chain,
            k,
            encoding,
            der,
            c,
            anchor,
        );
    }
}

/// Of a PKCS #12 file that was read to its end, the platform's library decides alone: an invalid
/// archive is one that it refused with this password, a native TLS error is its own on building an
/// acceptor from the identity that it opened, and there is no other way to fail.
pub proof fn law_platform_alone_refuses(
    file: TlsFile,
    bytes: Seq<u8>,
    password: Seq<char>,
    r: Result<TLSAcceptor, Error>,
)
    requires
        file.contents matches FileContents::Read { bytes: read, failure: None } && read@ == bytes,
        native_tls_answers(file, password, r),
    ensures
        match r {
            Ok(acceptor) => {
                &&& acceptor matches TLSAcceptor::NativeTLS { acceptor: made } && made.archive()
                    == bytes && made.password() == password
                &&& exists|identity: FromArchive<Identity>, built: FromArchive<TlsAcceptor>|
                    #[trigger] opening(bytes, password, Ok(identity)) && #[trigger] building(
                        identity,
                        Ok(built),
                    )
            },
            Err(Error::InvalidServerCert(name)) => name@ == file.path@ && exists|
                cause: NativeTlsError,
            | #[trigger]
                opening(bytes, password, Err(cause)),
            Err(Error::NativeTls(cause)) => exists|identity: FromArchive<Identity>|
                #[trigger] opening(bytes, password, Ok(identity)) && building(identity, Err(cause)),
            Err(_) => false,
        },
{
    let read = choose|read: Result<FromArchive<Identity>, NativeTlsError>| #[trigger]
        opening(bytes, password, read) && match read {
            Err(_) => r matches Err(Error::InvalidServerCert(name)) && name@ == file.path@,
            Ok(identity) => exists|built: Result<FromArchive<TlsAcceptor>, NativeTlsError>|
                #[trigger] building(identity, built) && match built {
                    Err(error) => r == Err::<TLSAcceptor, Error>(Error::NativeTls(error)),
                    Ok(_) => r matches Ok(TLSAcceptor::NativeTLS { acceptor }) && acceptor.archive()
                        == bytes && acceptor.password() == password,
                },
        };
    match read {
        Err(cause) => {
            assert(opening(bytes, password, Err(cause)));
        },
        Ok(identity) => {
            assert(opening(bytes, password, Ok(identity)));
            let built = choose|built: Result<FromArchive<TlsAcceptor>, NativeTlsError>| #[trigger]
                building(identity, built) && match built {
                    Err(error) => r == Err::<TLSAcceptor, Error>(Error::NativeTls(error)),
                    Ok(_) => r matches Ok(TLSAcceptor::NativeTLS { acceptor }) && acceptor.archive()
                        == bytes && acceptor.password() == password,
                };
            match built {
                Err(cause) => {
                    assert(building(identity, Err(cause)));
                },
                Ok(made) => {
                    assert(building(identity, Ok(made)));
                },
            }
        },
    }
}

/// Success is owed: where the platform's library neither refuses the archive with this password nor
/// refuses to build an acceptor from what it opened, there is an acceptor.
pub proof fn law_archive_that_opens_gives_an_acceptor(
    file: TlsFile,
    bytes: Seq<u8>,
    password: Seq<char>,
    r: Result<TLSAcceptor, Error>,
)
    requires
        file.contents matches FileContents::Read { bytes: read, failure: None } && read@ == bytes,
        native_tls_answers(file, password, r),
        forall|cause: NativeTlsError| !#[trigger] opening(bytes, password, Err(cause)),
        forall|identity: FromArchive<Identity>, cause: NativeTlsError|
            #[trigger] opening(bytes, password, Ok(identity)) ==> !#[trigger] building(
                identity,
                Err(cause),
            ),
    ensures
        r matches Ok(TLSAcceptor::NativeTLS { .. }),
{
    law_platform_alone_refuses(file, bytes, password, r);
}

/// A PKCS #12 file that could not be opened, or not be read to its end, is refused by its path;
/// and native TLS that is switched off is reported as such.
pub proof fn law_faults_of_archives_are_reported(
    file: TlsFile,
    password: String,
    features: Features,
    outcome: Result<AcceptorView, Failure>,
)
    requires
        new_allows(
            TlsConfig::NativeTls { pkcs12path: file, pkcs12pass: password },
            features,
            outcome,
        ),
    ensures
        !features.use_native_tls ==> outcome == Err::<AcceptorView, Failure>(
            Failure::NativeTlsNotEnabled,
        ),
        features.use_native_tls ==> match file.contents {
            FileContents::Unopened => outcome == Err::<AcceptorView, Failure>(
                Failure::ServerCertNotFound(file.path@),
            ),
            FileContents::Read { bytes: _, failure: Some(_) } => outcome == Err::<
                AcceptorView,
                Failure,
            >(Failure::InvalidServerCert(file.path@)),
            FileContents::Read { bytes, failure: None } => match outcome {
                Ok(acceptor) => acceptor == (AcceptorView::NativeTls {
                    archive: bytes@,
                    password: password@,
                }),
                Err(failure) => failure == Failure::InvalidServerCert(file.path@) || failure
                    is NativeTls,
            },
        },
{
}

/// Every password without a zero character may be configured, and every password where the archive
/// will not be opened.
pub proof fn law_passwords_are_usable(file: TlsFile, password: Seq<char>)
    ensures
        (forall|i: int| 0 <= i < password.len() ==> #[trigger] password[i] != '\0')
            ==> password_usable(file, password),
        file.contents is Unopened ==> password_usable(file, password),
        file.contents matches FileContents::Read { bytes: _, failure: Some(_) } ==> password_usable(
            file,
            password,
        ),
{
}

/// An I/O error that a build hands on is that of the CA's reader on the section that stands where
/// the first certificate should, or the one that kept the CA file from showing a whole section.
/// There is no other.
pub proof fn law_io_errors_are_those_of_the_ca(
    ca: Option<TlsFile>,
    cert: TlsFile,
    key: TlsFile,
    ca_pem: Option<Seq<u8>>,
    cert_pem: Seq<u8>,
    key_pem: Seq<u8>,
    features: Features,
    from_files: Result<TLSAcceptor, Error>,
    from_memory: Result<TLSAcceptor, Error>,
    c: int,
)
    requires
        rustls_errors_are_due(ca, cert, key, features, from_files),
        rustls_pem_errors_are_due(ca_pem, cert_pem, key_pem, features, from_memory),
    ensures
        from_memory matches Err(Error::Io(error)) ==> (ca_pem matches Some(pem) && exists|
            reads: Seq<Result<Vec<u8>, BrokenSection>>,
        | #[trigger]
            reading(pem, reads) && reads.len() > 0 && (reads[0] matches Err(broken) && broken.error
                == error)),
        from_files matches Err(Error::Io(error)) ==> (ca matches Some(file) && (
        file.contents matches FileContents::Read { bytes: _, failure } && (file_text(
            file,
        ) matches Some(text) && {
            &&& failure is Some && (has_no_ca(text) || (ca_stands_at(text, c) && sections(text)[c]
                == Err::<(PemKind, Seq<u8>), Flaw>(Flaw::NoEnd))) ==> failure == Some(error)
            &&& failure is None || (ca_stands_at(text, c) && sections(text)[c] != Err::<
                (PemKind, Seq<u8>),
                Flaw,
            >(Flaw::NoEnd)) ==> exists|reads: Seq<Result<Vec<u8>, BrokenSection>>| #[trigger]
                reading(text, reads) && reads.len() > 0 && (reads[0] matches Err(broken)
                    && broken.error == error)
        }))),
{
    if ca is Some && file_text(ca->0) is Some {
        law_ca_is_the_first_certificate(file_text(ca->0)->0, c, true, ca->0.path@);
    }
}

/// A rustls error that a build hands on is the one that rustls refused with, for the certificates
/// and the key of the texts and the anchor of the CA.
pub proof fn law_rustls_errors_are_its_refusals(
    ca: Option<TlsFile>,
    cert: TlsFile,
    key: TlsFile,
    ca_pem: Option<Seq<u8>>,
    cert_pem: Seq<u8>,
    key_pem: Seq<u8>,
    features: Features,
    from_files: Result<TLSAcceptor, Error>,
    from_memory: Result<TLSAcceptor, Error>,
    chain: Seq<Seq<u8>>,
    k: int,
    encoding: KeyEncoding,
    der: Seq<u8>,
    c: int,
    anchor: Anchor,
)
    requires
        rustls_errors_are_due(ca, cert, key, features, from_files),
        rustls_pem_errors_are_due(ca_pem, cert_pem, key_pem, features, from_memory),
        has_chain(cert_pem, chain),
        key_stands_at(key_pem, k, encoding, der),
    ensures
        ({
            let held = if features.verify_client_cert {
                Some(seq![anchor])
            } else {
                None
            };
            &&& ca_is_sound(ca_pem, c, anchor, features) ==> (from_memory matches Err(
                Error::Rustls(error),
            ) ==> refused(chain, (encoding, der), held, error))
            &&& ca_is_sound(ca_text(ca), c, anchor, features) && holds(cert, cert_pem) && file_text(
                key,
            ) == Some(key_pem) ==> (from_files matches Err(Error::Rustls(error)) ==> refused(
                chain,
                (encoding, der),
                held,
                error,
            ))
        }),
{
    law_chain_is_all_certificates(cert_pem, chain, "<in-memory cert>"@);
    law_chain_is_all_certificates(cert_pem, chain, cert.path@);
    law_key_is_found(key_pem, k, encoding, der, "<in-memory key>"@);
    law_key_file_is_searched(key, key_pem, k, encoding, der);
    if features.verify_client_cert && ca_pem is Some {
        law_ca_is_the_first_certificate(ca_pem->0, c, false, "<in-memory ca>"@);
    }
    if features.verify_client_cert && ca_text(ca) is Some {
        law_ca_is_the_first_certificate(
            ca_text(ca)->0,
            c,
            ca->0.contents->failure is Some,
            ca->0.path@,
        );
    }
}

/// What a certificate is worth by the organizations in its subject: no certificate at all, one
/// without an organization, one whose first organization is not read as text, one whose first
/// organization is alphanumeric, and one whose first organization is not. Tenant validation
/// matters to the second alone.
pub open spec fn tenant_is_due(
    organizations: Option<Seq<Option<Seq<char>>>>,
    validate: bool,
    outcome: Result<Option<Seq<char>>, Failure>,
) -> bool {
    &&& organizations is None ==> outcome == Err::<Option<Seq<char>>, Failure>(
        Failure::CertificateParse,
    )
    &&& organizations matches Some(list) ==> {
        &&& list.len() == 0 && validate ==> outcome == Err::<Option<Seq<char>>, Failure>(
            Failure::MissingTenantId,
        )
        &&& list.len() == 0 && !validate ==> outcome == Ok::<Option<Seq<char>>, Failure>(None)
        &&& list.len() > 0 && list[0] is None ==> outcome == Err::<Option<Seq<char>>, Failure>(
            Failure::InvalidTenant,
        )
        &&& list.len() > 0 ==> (list[0] matches Some(text) ==> {
            &&& (forall|i: int| 0 <= i < text.len() ==> letter_or_digit(#[trigger] text[i]))
                ==> outcome == Ok::<Option<Seq<char>>, Failure>(Some(text))
            &&& (exists|i: int| 0 <= i < text.len() && !letter_or_digit(#[trigger] text[i]))
                ==> outcome == Err::<Option<Seq<char>>, Failure>(Failure::InvalidTenantId(text))
        })
    }
}

/// With or without tenant validation, an organization in which some character is no letter or digit
/// is refused with its text; one of letters and digits is the tenant; and nobody goes without a
/// tenant but by a certificate without an organization.
pub proof fn law_organization_decides_the_tenant(
    organization: Organization<Seq<char>>,
    validate: bool,
)
    ensures
        organization matches Organization::Text(text) ==> {
            &&& (forall|i: int| 0 <= i < text.len() ==> letter_or_digit(#[trigger] text[i]))
                ==> tenant_outcome(organization, validate) == Ok::<Option<Seq<char>>, Failure>(
                Some(text),
            )
            &&& (exists|i: int| 0 <= i < text.len() && !letter_or_digit(#[trigger] text[i]))
                ==> tenant_outcome(organization, validate) == Err::<Option<Seq<char>>, Failure>(
                Failure::InvalidTenantId(text),
            )
        },
        tenant_outcome(organization, validate) == Ok::<Option<Seq<char>>, Failure>(None)
            <==> organization is Absent && !validate,
        organization is Absent && validate ==> tenant_outcome(organization, validate) == Err::<
            Option<Seq<char>>,
            Failure,
        >(Failure::MissingTenantId),
        organization is NotText ==> tenant_outcome(organization, validate) == Err::<
            Option<Seq<char>>,
            Failure,
        >(Failure::InvalidTenant),
        organization is Malformed ==> tenant_outcome(organization, validate) == Err::<
            Option<Seq<char>>,
            Failure,
        >(Failure::CertificateParse),
{
    if let Organization::Text(text) = organization {
        assert forall|i: int| 0 <= i < text.len() implies (letter_or_digit(#[trigger] text[i])
            <==> crate::tenant::alphanumeric(text[i])) by {}
        if exists|i: int| 0 <= i < text.len() && !letter_or_digit(#[trigger] text[i]) {
            let i = choose|i: int| 0 <= i < text.len() && !letter_or_digit(#[trigger] text[i]);
            assert(!crate::tenant::alphanumeric(text[i]));
        }
    }
}

/// The tenant of a certificate is decided by the organizations in its subject, the first of them.
pub proof fn law_certificate_decides_the_tenant(der: Seq<u8>, validate: bool)
    ensures
        tenant_is_due(
            subject_organizations(der),
            validate,
            tenant_outcome(subject_organization(der), validate),
        ),
{
    law_organization_decides_the_tenant(subject_organization(der), validate);
}

/// A client that is verified belongs to the tenant that its own certificate names, which is the
/// first that it shows, and is turned away where that names none that will do.
pub proof fn law_own_certificate_decides(
    chain: Seq<Seq<u8>>,
    key: (KeyEncoding, Seq<u8>),
    anchors: Seq<Anchor>,
    validate: bool,
    shown: Vec<Vec<u8>>,
)
    requires
        shown@.len() > 0,
    ensures
        ({
            let acceptor = AcceptorView::Rustls {
                chain,
                key,
                roots: Some(anchors),
                validate_tenant_prefix: validate,
            };
            tenant_is_due(
                subject_organizations(shown@[0]@),
                validate,
                accept_outcome(acceptor, Handshake::Rustls(Ok(Some(shown)))),
            )
        }),
{
    law_certificate_decides_the_tenant(shown@[0]@, validate);
}

/// A client that is let in with a tenant has a certificate of its own that names just that; one
/// that is let in without has one that names none. This is so whether or not tenants are
/// validated.
pub proof fn law_client_has_the_tenant_of_its_certificate(
    acceptor: AcceptorView,
    shown: Vec<Vec<u8>>,
)
    requires
        acceptor matches AcceptorView::Rustls { roots: Some(_), .. },
        shown@.len() > 0,
    ensures
        accept_outcome(acceptor, Handshake::Rustls(Ok(Some(shown)))) matches Ok(Some(id)) ==> (
        subject_organizations(shown@[0]@) matches Some(list) && list.len() > 0 && list[0] == Some(
            id,
        ) && forall|i: int| 0 <= i < id.len() ==> letter_or_digit(#[trigger] id[i])),
        accept_outcome(acceptor, Handshake::Rustls(Ok(Some(shown)))) matches Ok(None) ==> (
        subject_organizations(shown@[0]@) matches Some(list) && list.len() == 0
            && !acceptor->validate_tenant_prefix),
{
    law_own_certificate_decides(
        acceptor->chain,
        acceptor->key,
        acceptor->roots->0,
        acceptor->validate_tenant_prefix,
        shown,
    );
    if let Some(list) = subject_organizations(shown@[0]@) {
        if list.len() > 0 && list[0] is Some {
            let text = list[0]->0;
            assert((forall|i: int| 0 <= i < text.len() ==> letter_or_digit(#[trigger] text[i])) || (
            exists|i: int| 0 <= i < text.len() && !letter_or_digit(#[trigger] text[i])));
        }
    }
}

/// Certificates after the first do not change what becomes of a client, nor do the identity and the
/// anchors of the acceptor.
pub proof fn law_other_certificates_do_not_matter(
    one: AcceptorView,
    other: AcceptorView,
    shown: Vec<Vec<u8>>,
    longer: Vec<Vec<u8>>,
)
    requires
        one matches AcceptorView::Rustls { roots: Some(_), .. },
        other matches AcceptorView::Rustls { roots: Some(_), .. },
        one->validate_tenant_prefix == other->validate_tenant_prefix,
        shown@.len() > 0,
        longer@.len() > 0,
        shown@[0]@ == longer@[0]@,
    ensures
        accept_outcome(one, Handshake::Rustls(Ok(Some(shown)))) == accept_outcome(
            other,
            Handshake::Rustls(Ok(Some(longer))),
        ),
{
}

/// What becomes of a client that has not shown a certificate, was not asked for one, or whose
/// handshake has failed.
pub proof fn law_other_handshakes(
    acceptor: AcceptorView,
    shown: Option<Vec<Vec<u8>>>,
    io: std::io::Error,
    native: NativeTlsError,
)
    ensures
        accept_outcome(acceptor, Handshake::Rustls(Err(io))) == Err::<Option<Seq<char>>, Failure>(
            Failure::Io,
        ),
        accept_outcome(acceptor, Handshake::NativeTls(Err(native))) == Err::<
            Option<Seq<char>>,
            Failure,
        >(Failure::NativeTls),
        accept_outcome(acceptor, Handshake::NativeTls(Ok(()))) == Ok::<Option<Seq<char>>, Failure>(
            None,
        ),
        acceptor matches AcceptorView::Rustls { roots: Some(_), .. } ==> accept_outcome(
            acceptor,
            Handshake::Rustls(Ok(None)),
        ) == Err::<Option<Seq<char>>, Failure>(Failure::NoPeerCertificate),
        acceptor matches AcceptorView::Rustls { roots: None, .. } ==> accept_outcome(
            acceptor,
            Handshake::Rustls(Ok(shown)),
        ) == Ok::<Option<Seq<char>>, Failure>(None),
{
}

/// An acceptor takes every end that a handshake of its own backend can have, but a list of
/// certificates without one where clients are verified.
pub proof fn law_handshakes_fit(
    acceptor: AcceptorView,
    shown: Option<Vec<Vec<u8>>>,
    io: std::io::Error,
    native: Result<(), NativeTlsError>,
)
    ensures
        acceptor is Rustls ==> handshake_fits(acceptor, Handshake::Rustls(Err(io))),
        acceptor is Rustls && (shown matches Some(list) ==> list@.len() > 0) ==> handshake_fits(
            acceptor,
            Handshake::Rustls(Ok(shown)),
        ),
        acceptor matches AcceptorView::Rustls { roots: None, .. } ==> handshake_fits(
            acceptor,
            Handshake::Rustls(Ok(shown)),
        ),
        acceptor is NativeTls ==> handshake_fits(acceptor, Handshake::NativeTls(native)),
{
}

/// No two errors look alike but by the payloads of other crates, and texts are seen whole.
pub proof fn law_errors_are_told_apart(error: Error)
    ensures
        match error {
            Error::Io(_) => error@ == Failure::Io,
            Error::NativeTls(_) => error@ == Failure::NativeTls,
            Error::NoPeerCertificate => error@ == Failure::NoPeerCertificate,
            Error::Rustls(_) => error@ == Failure::Rustls,
            Error::ServerCertNotFound(name) => error@ == Failure::ServerCertNotFound(name@),
            Error::InvalidServerCert(name) => error@ == Failure::InvalidServerCert(name@),
            Error::InvalidCACert(name) => error@ == Failure::InvalidCACert(name@),
            Error::InvalidServerKey(name) => error@ == Failure::InvalidServerKey(name@),
            Error::ServerKeyNotFound(name) => error@ == Failure::ServerKeyNotFound(name@),
            Error::CaFileNotFound(name) => error@ == Failure::CaFileNotFound(name@),
            Error::NativeTlsNotEnabled => error@ == Failure::NativeTlsNotEnabled,
            Error::RustlsNotEnabled => error@ == Failure::RustlsNotEnabled,
            Error::InvalidTenantId(id) => error@ == Failure::InvalidTenantId(id@),
            Error::InvalidTenant => error@ == Failure::InvalidTenant,
            Error::MissingTenantId => error@ == Failure::MissingTenantId,
            Error::CertificateParse => error@ == Failure::CertificateParse,
        },
{
}

/// A result is seen as an acceptor exactly where it is one, with all that the acceptor was made
/// from, and as a failure exactly where it is an error.
pub proof fn law_results_are_seen_as_they_are(r: Result<TLSAcceptor, Error>)
    ensures
        match r {
            Ok(TLSAcceptor::Rustls { acceptor, validate_tenant_prefix }) => acceptor_result(r)
                == Ok::<AcceptorView, Failure>(
                AcceptorView::Rustls {
                    chain: acceptor.chain(),
                    key: acceptor.key(),
                    roots: acceptor.roots(),
                    validate_tenant_prefix,
                },
            ),
            Ok(TLSAcceptor::NativeTLS { acceptor }) => acceptor_result(r) == Ok::<
                AcceptorView,
                Failure,
            >(
                AcceptorView::NativeTls {
                    archive: acceptor.archive(),
                    password: acceptor.password(),
                },
            ),
            Err(error) => acceptor_result(r) == Err::<AcceptorView, Failure>(error@),
        },
{
}

/// A tenant, no tenant and a refusal are told apart, and a tenant by its whole name.
pub proof fn law_tenants_are_seen_as_they_are(
    r: Result<Option<String>, Error>,
    expected: Result<Option<Seq<char>>, Failure>,
)
    ensures
        tenant_is(r, expected) <==> match r {
            Ok(Some(tenant)) => expected == Ok::<Option<Seq<char>>, Failure>(Some(tenant@)),
            Ok(None) => expected == Ok::<Option<Seq<char>>, Failure>(None),
            Err(error) => expected == Err::<Option<Seq<char>>, Failure>(error@),
        },
{
}

/// Organizations are seen as they were read, all of them and in order, and the first is the one
/// that counts.
pub proof fn law_organizations_are_seen_as_they_are(
    organization: Organization<String>,
    organizations: Option<Vec<Option<String>>>,
    i: int,
)
    ensures
        match organization {
            Organization::Malformed => organization_view(organization) is Malformed,
            Organization::Absent => organization_view(organization) is Absent,
            Organization::NotText => organization_view(organization) is NotText,
            Organization::Text(text) => organization_view(organization) == Organization::Text(
                text@,
            ),
        },
        organizations is None ==> organizations_view(organizations) is None && first_of(
            organizations_view(organizations),
        ) is Malformed,
        organizations matches Some(list) ==> (organizations_view(organizations) matches Some(seen)
            && seen.len() == list@.len() && (0 <= i < list@.len() ==> match list@[i] {
            Some(text) => seen[i] == Some(text@),
            None => seen[i] is None,
        })),
        organizations matches Some(list) ==> {
            let first = first_of(organizations_view(organizations));
            &&& list@.len() == 0 ==> first is Absent
            &&& list@.len() > 0 ==> match list@[0] {
                Some(text) => first == Organization::Text(text@),
                None => first is NotText,
            }
        },
{
}

/// What a reader gives is seen as it is.
pub proof fn law_reads_are_seen_as_they_are(
    read: Result<Option<PemItem>, BrokenSection>,
    reads: Seq<Result<Vec<u8>, BrokenSection>>,
    chain: Seq<Vec<u8>>,
    pem: Option<Vec<u8>>,
    i: int,
)
    ensures
        match read {
            Ok(Some(item)) => read_view(read) == Ok::<Option<(PemKind, Seq<u8>)>, Flaw>(
                Some((item.kind, item.der@)),
            ),
            Ok(None) => read_view(read) == Ok::<Option<(PemKind, Seq<u8>)>, Flaw>(None),
            Err(broken) => read_view(read) == Err::<Option<(PemKind, Seq<u8>)>, Flaw>(broken.flaw),
        },
        cert_views(reads).len() == reads.len(),
        0 <= i < reads.len() ==> match reads[i] {
            Ok(der) => cert_views(reads)[i] == Ok::<Seq<u8>, Flaw>(der@) && cert_view(reads[i])
                == Ok::<Seq<u8>, Flaw>(der@),
            Err(broken) => cert_views(reads)[i] == Err::<Seq<u8>, Flaw>(broken.flaw) && cert_view(
                reads[i],
            ) == Err::<Seq<u8>, Flaw>(broken.flaw),
        },
        ders(chain).len() == chain.len(),
        0 <= i < chain.len() ==> ders(chain)[i] == chain[i]@,
        optional_bytes(pem) == match pem {
            Some(bytes) => Some(bytes@),
            None => None,
        },
{
}

/// Reads that are all sound are the chain; one that is broken spoils it.
pub proof fn law_reads_make_a_chain(reads: Seq<Result<Seq<u8>, Flaw>>, source: Seq<char>, i: int)
    ensures
        (forall|j: int| 0 <= j < reads.len() ==> (#[trigger] reads[j]) is Ok) ==> (chain_outcome(
            reads,
            source,
        ) matches Ok(chain) && chain.len() == reads.len() && (0 <= i < reads.len() ==> reads[i]
            == Ok::<Seq<u8>, Flaw>(chain[i]))),
        0 <= i < reads.len() && reads[i] is Err ==> chain_outcome(reads, source) == Err::<
            Seq<Seq<u8>>,
            Failure,
        >(Failure::InvalidServerCert(source)),
{
}

/// The first read is the CA, or its fault is an I/O error; without one, the failure is, or the
/// source is refused by name.
pub proof fn law_first_read_is_the_ca(
    reads: Seq<Result<Seq<u8>, Flaw>>,
    failed: bool,
    source: Seq<char>,
)
    ensures
        reads.len() > 0 ==> match reads[0] {
            Ok(der) => ca_outcome(reads, failed, source) == Ok::<Seq<u8>, Failure>(der)
                && !cut_short(reads),
            Err(flaw) => ca_outcome(reads, failed, source) == Err::<Seq<u8>, Failure>(Failure::Io)
                && (cut_short(reads) <==> flaw is NoEnd),
        },
        reads.len() == 0 ==> cut_short(reads),
        reads.len() == 0 && failed ==> ca_outcome(reads, failed, source) == Err::<
            Seq<u8>,
            Failure,
        >(Failure::Io),
        reads.len() == 0 && !failed ==> ca_outcome(reads, failed, source) == Err::<
            Seq<u8>,
            Failure,
        >(Failure::InvalidCACert(source)),
{
}

} // verus!

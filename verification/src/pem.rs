//! Certificates and private keys in PEM text.
use crate::config::ends_line;
use crate::error::{Error, Failure};
use crate::laws::law_other_sections_are_passed_over;
use rustls_pemfile::Item;
use vstd::prelude::*;

verus! {

/// What a PEM section holds, by its label.
#[derive(Clone, Copy, Debug, PartialEq, Eq, Structural)]
pub enum PemKind {
    /// `CERTIFICATE`
    Certificate,
    /// `RSA PRIVATE KEY`
    Pkcs1Key,
    /// `PRIVATE KEY`
    Pkcs8Key,
    /// `EC PRIVATE KEY`
    Sec1Key,
    /// Any other section that is recognised; a server has no use for it.
    Other,
}

/// One PEM section, decoded. The bytes of a section of kind `Other` are not kept.
pub struct PemItem {
    pub kind: PemKind,
    pub der: Vec<u8>,
}

/// What is wrong with a PEM section.
#[derive(Clone, Copy, Debug, PartialEq, Eq, Structural)]
pub enum Flaw {
    /// The text ends before the section does.
    NoEnd,
    /// The line that opens the section is malformed, or its contents cannot be decoded.
    Malformed,
}

/// A PEM section that cannot be read.
pub struct BrokenSection {
    pub flaw: Flaw,
    pub error: std::io::Error,
}

/// A PEM section as contracts see it: its kind and contents, or what is wrong with it.
pub type Section = Result<(PemKind, Seq<u8>), Flaw>;

/// How a private key is encoded.
#[derive(Clone, Copy, Debug, PartialEq, Eq, Structural)]
pub enum KeyEncoding {
    Pkcs1,
    Pkcs8,
    Sec1,
}

/// A private key in DER.
pub struct PrivateKey {
    pub encoding: KeyEncoding,
    pub der: Vec<u8>,
}

impl View for PemItem {
    type V = (PemKind, Seq<u8>);

    open spec fn view(&self) -> (PemKind, Seq<u8>) {
        (self.kind, self.der@)
    }
}

impl View for PrivateKey {
    type V = (KeyEncoding, Seq<u8>);

    open spec fn view(&self) -> (KeyEncoding, Seq<u8>) {
        (self.encoding, self.der@)
    }
}

/// The outcome of one read: a section, the end of the text, or a section that is broken.
pub open spec fn read_view(read: Result<Option<PemItem>, BrokenSection>) -> Result<
    Option<(PemKind, Seq<u8>)>,
    Flaw,
> {
    match read {
        Ok(Some(item)) => Ok(Some(item@)),
        Ok(None) => Ok(None),
        Err(broken) => Err(broken.flaw),
    }
}

/// What `rustls_pemfile::read_one` gives for `pem`, and the bytes that it leaves unread.
pub uninterp spec fn pem_read_one(pem: Seq<u8>) -> (
    Result<Option<(PemKind, Seq<u8>)>, Flaw>,
    Seq<u8>,
);

/// The text does not stop within a line.
pub open spec fn whole_lines(text: Seq<u8>) -> bool {
    text.len() > 0 ==> ends_line(text.last())
}

/// The read found a section, sound or malformed, that does not lack its end.
pub open spec fn is_whole(read: Result<Option<(PemKind, Seq<u8>)>, Flaw>) -> bool {
    match read {
        Ok(found) => found is Some,
        Err(flaw) => flaw is Malformed,
    }
}

/// The read came to the end of the text without a section.
pub open spec fn is_nothing(read: Result<Option<(PemKind, Seq<u8>)>, Flaw>) -> bool {
    read matches Ok(None)
}

/// Calls `rustls_pemfile::read_one` on bytes in memory, and returns what it read together with
/// the bytes that it left unread, which are the last ones. Both depend on the bytes alone. A read
/// that finds a section, sound or broken, consumes the line that opens it.
///
/// The text is read line by line, and not beyond the line that decides. So where no line is cut,
/// what follows a whole section does not matter to it, and a text without a section does not
/// matter to what follows. A section without an end is told from others that are broken by the
/// text of the error, which begins with `section end` for that one and for no other.
#[verifier::external_body]
fn read_one(pem: &[u8]) -> (r: (Result<Option<PemItem>, BrokenSection>, &[u8]))
    ensures
        read_view(r.0) == pem_read_one(pem@).0,
        r.1@ == pem_read_one(pem@).1,
        r.1@.len() <= pem@.len() && r.1@ == pem@.skip(pem@.len() - r.1@.len()),
        !(r.0 matches Ok(None)) ==> r.1@.len() < pem@.len(),
        whole_lines(pem@) && is_whole(read_view(r.0)) ==> forall|more: Seq<u8>| #[trigger]
            pem_read_one(pem@ + more) == (read_view(r.0), r.1@ + more),
        whole_lines(pem@) && is_nothing(read_view(r.0)) ==> forall|more: Seq<u8>| #[trigger]
            sections(pem@ + more) == sections(more),
{
    let mut rest = pem;
    let read = rustls_pemfile::read_one(&mut rest).map_err(|error| {
        let unended = error.to_string().starts_with("section end ");
        BrokenSection { flaw: if unended { Flaw::NoEnd } else { Flaw::Malformed }, error }
    });
    let item = |kind, der: &[u8]| PemItem { kind, der: der.to_vec() };
    (read.map(|found| found.map(|section| match section {
        Item::X509Certificate(cert) => item(PemKind::Certificate, &cert),
        Item::Pkcs1Key(key) => item(PemKind::Pkcs1Key, key.secret_pkcs1_der()),
        Item::Pkcs8Key(key) => item(PemKind::Pkcs8Key, key.secret_pkcs8_der()),
        Item::Sec1Key(key) => item(PemKind::Sec1Key, key.secret_sec1_der()),
        _ => item(PemKind::Other, &[]),
    })), rest)
}

/// The sections of `pem` in order; `Err` stands where a section is broken.
pub open spec fn sections(pem: Seq<u8>) -> Seq<Section>
    decreases pem.len(),
{
    let (read, rest) = pem_read_one(pem);
    let others = if rest.len() < pem.len() {
        sections(rest)
    } else {
        Seq::empty()
    };
    match read {
        Ok(None) => Seq::empty(),
        Ok(Some(section)) => seq![Ok(section)] + others,
        Err(flaw) => seq![Err(flaw)] + others,
    }
}

/// The encoding of the private key in a section of this kind, if it holds one.
pub open spec fn key_encoding(kind: PemKind) -> Option<KeyEncoding> {
    match kind {
        PemKind::Pkcs1Key => Some(KeyEncoding::Pkcs1),
        PemKind::Pkcs8Key => Some(KeyEncoding::Pkcs8),
        PemKind::Sec1Key => Some(KeyEncoding::Sec1),
        PemKind::Certificate | PemKind::Other => None,
    }
}

/// A section that a search for a private key passes over.
pub open spec fn passed_over(section: Section) -> bool {
    section matches Ok((kind, _)) && key_encoding(kind) is None
}

/// Section `i` is a private key, and the search for one gets that far.
pub open spec fn is_first_key(sections: Seq<Section>, i: int) -> bool {
    &&& 0 <= i < sections.len()
    &&& sections[i] matches Ok((kind, _)) && key_encoding(kind) is Some
    &&& forall|j: int| 0 <= j < i ==> #[trigger] passed_over(sections[j])
}

/// The first private key of a sequence of sections, unless a broken section precedes it.
pub open spec fn first_key(sections: Seq<Section>) -> Option<
    (KeyEncoding, Seq<u8>),
> {
    if exists|i: int| is_first_key(sections, i) {
        let i = choose|i: int| is_first_key(sections, i);
        let (kind, der) = sections[i]->Ok_0;
        Some((key_encoding(kind)->0, der))
    } else {
        None
    }
}

/// The first private key in `pem`; `source` is named where there is none.
pub open spec fn private_key_outcome(pem: Seq<u8>, source: Seq<char>) -> Result<
    (KeyEncoding, Seq<u8>),
    Failure,
> {
    match first_key(sections(pem)) {
        Some(key) => Ok(key),
        None => Err(Failure::InvalidServerKey(source)),
    }
}

/// What a search for a private key does after one read.
pub enum KeySearch {
    /// The section is a private key: the search is over.
    Found(PrivateKey),
    /// The section is something else: read the next one.
    Continue,
    /// There is no further section, or it is broken: the search has failed.
    Failed,
}

/// Decides how a search for a private key goes on after one read.
pub fn key_search_step(read: Result<Option<PemItem>, BrokenSection>) -> (r: KeySearch)
    ensures
        match read_view(read) {
            Ok(Some((kind, der))) => match key_encoding(kind) {
                Some(encoding) => r matches KeySearch::Found(key) && key@ == (encoding, der),
                None => r is Continue,
            },
            _ => r is Failed,
        },
{
    match read {
        Ok(Some(item)) => match item.kind {
            PemKind::Sec1Key => KeySearch::Found(
                PrivateKey { encoding: KeyEncoding::Sec1, der: item.der },
            ),
            PemKind::Pkcs1Key => KeySearch::Found(
                PrivateKey { encoding: KeyEncoding::Pkcs1, der: item.der },
            ),
            PemKind::Pkcs8Key => KeySearch::Found(
                PrivateKey { encoding: KeyEncoding::Pkcs8, der: item.der },
            ),
            PemKind::Certificate | PemKind::Other => KeySearch::Continue,
        },
        Ok(None) => KeySearch::Failed,
        Err(_) => KeySearch::Failed,
    }
}

/// A position that [`is_first_key`] describes is the only one.
pub proof fn lemma_first_key_at(sections: Seq<Section>, i: int)
    requires
        is_first_key(sections, i),
    ensures
        first_key(sections) == Some(
            (key_encoding(sections[i]->Ok_0.0)->0, sections[i]->Ok_0.1),
        ),
{
    let k = choose|k: int| is_first_key(sections, k);
    assert(is_first_key(sections, k));
    if k < i {
        assert(passed_over(sections[k]));
    } else if i < k {
        assert(passed_over(sections[i]));
    }
}

/// Section `i` is malformed, and the search for a private key gets that far.
pub open spec fn stops_at(sections: Seq<Section>, i: int) -> bool {
    &&& 0 <= i < sections.len()
    &&& sections[i] == Err::<(PemKind, Seq<u8>), Flaw>(Flaw::Malformed)
    &&& forall|j: int| 0 <= j < i ==> #[trigger] passed_over(sections[j])
}

/// The search for a private key is over before the text is: a key is found, or a section that is
/// malformed.
pub open spec fn search_ends(sections: Seq<Section>) -> bool {
    first_key(sections) is Some || exists|i: int| stops_at(sections, i)
}

/// Whatever follows `pem`, the search for a private key comes to the same end.
pub open spec fn key_is_settled(pem: Seq<u8>) -> bool {
    forall|more: Seq<u8>| #[trigger]
        first_key(sections(pem + more)) == first_key(sections(pem))
}

/// Whatever follows `pem`, the private key that is found is the first one there.
pub open spec fn key_is_open(pem: Seq<u8>) -> bool {
    forall|more: Seq<u8>| #[trigger] first_key(sections(pem + more)) == first_key(sections(more))
}

/// Every section is one that a search for a private key passes over.
pub open spec fn all_passed_over(sections: Seq<Section>) -> bool {
    forall|i: int| 0 <= i < sections.len() ==> #[trigger] passed_over(sections[i])
}

/// Searches `pem` for its first private key.
pub(crate) fn first_private_key(pem: &[u8], source: &str) -> (r: Result<PrivateKey, Error>)
    ensures
        match private_key_outcome(pem@, source@) {
            Ok(key) => r matches Ok(found) && found@ == key,
            Err(failure) => r matches Err(error) && error@ == failure,
        },
        pem@.len() == 0 ==> r is Err,
        whole_lines(pem@) && search_ends(sections(pem@)) ==> key_is_settled(pem@),
        r is Err && whole_lines(pem@) && all_passed_over(sections(pem@)) ==> key_is_open(pem@),
{
    let ghost all = sections(pem@);
    let mut rest: &[u8] = pem;
    let ghost mut seen: int = 0;
    proof {
        assert forall|more: Seq<u8>| #[trigger] sections(pem@ + more) == all.take(seen) + sections(
            rest@ + more,
        ) by {
            assert(all.take(0) + sections(pem@ + more) == sections(pem@ + more));
        }
    }
    loop
        invariant
            all == sections(pem@),
            0 <= seen <= all.len(),
            all.skip(seen) == sections(rest@),
            forall|j: int| 0 <= j < seen ==> #[trigger] passed_over(all[j]),
            rest@.len() <= pem@.len(),
            whole_lines(pem@) ==> whole_lines(rest@),
            whole_lines(pem@) ==> forall|more: Seq<u8>| #[trigger]
                sections(pem@ + more) == all.take(seen) + sections(rest@ + more),
        decreases rest@.len(),
    {
        let (read, unread) = read_one(rest);
        let ghost tail = sections(rest@);
        let ghost found_now = read_view(read);
        proof {
            if !is_nothing(found_now) {
                assert(tail.len() > 0);
                assert(tail[0] == all[seen]);
                assert(tail.skip(1) == sections(unread@));
                assert(all.skip(seen + 1) == tail.skip(1));
            } else {
                assert(tail.len() == 0);
                assert(seen == all.len());
            }
            if whole_lines(pem@) && is_whole(found_now) {
                assert forall|more: Seq<u8>| #[trigger] sections(pem@ + more) == all.take(
                    seen + 1,
                ) + sections(unread@ + more) by {
                    assert(pem_read_one(rest@ + more) == (found_now, unread@ + more));
                    assert(sections(rest@ + more) == seq![all[seen]] + sections(unread@ + more));
                    assert(all.take(seen + 1) == all.take(seen) + seq![all[seen]]);
                }
            }
        }
        match key_search_step(read) {
            KeySearch::Found(key) => {
                proof {
                    assert(is_first_key(all, seen));
                    lemma_first_key_at(all, seen);
                    if whole_lines(pem@) {
                        assert forall|more: Seq<u8>| #[trigger]
                            first_key(sections(pem@ + more)) == first_key(all) by {
                            let longer = sections(pem@ + more);
                            assert(longer == all.take(seen + 1) + sections(unread@ + more));
                            assert forall|j: int| 0 <= j < seen implies #[trigger] passed_over(
                                longer[j],
                            ) by {
                                assert(passed_over(all[j]));
                            }
                            assert(is_first_key(longer, seen));
                            lemma_first_key_at(longer, seen);
                        }
                    }
                }
                return Ok(key);
            },
            KeySearch::Continue => {
                proof {
                    assert(passed_over(all[seen]));
                    seen = seen + 1;
                }
                rest = unread;
            },
            KeySearch::Failed => {
                proof {
                    assert forall|i: int| !is_first_key(all, i) by {
                        if is_first_key(all, i) {
                            if i < seen {
                                assert(passed_over(all[i]));
                            } else if i > seen {
                                assert(passed_over(all[seen]));
                            }
                        }
                    }
                    assert(first_key(all) is None);
                    if whole_lines(pem@) && is_whole(found_now) {
                        assert forall|more: Seq<u8>| #[trigger]
                            first_key(sections(pem@ + more)) == first_key(all) by {
                            let longer = sections(pem@ + more);
                            assert(longer == all.take(seen + 1) + sections(unread@ + more));
                            assert(!passed_over(longer[seen]));
                            assert forall|i: int| !is_first_key(longer, i) by {
                                if is_first_key(longer, i) && i < seen {
                                    assert(passed_over(all[i]));
                                }
                            }
                        }
                    } else if exists|i: int| stops_at(all, i) {
                        let i = choose|i: int| stops_at(all, i);
                        if i < seen {
                            assert(passed_over(all[i]));
                        } else if i > seen {
                            assert(passed_over(all[seen]));
                        }
                    }
                    if whole_lines(pem@) && all_passed_over(all) {
                        if !is_nothing(found_now) {
                            assert(passed_over(all[seen]));
                        }
                        assert forall|more: Seq<u8>| #[trigger]
                            first_key(sections(pem@ + more)) == first_key(sections(more)) by {
                            assert(sections(rest@ + more) == sections(more));
                            assert(all.take(seen) == all);
                            law_other_sections_are_passed_over(all, sections(more));
                        }
                    }
                }
                return Err(Error::InvalidServerKey(source.to_owned()));
            },
        }
    }
}

/// The bytes of each certificate.
pub open spec fn ders(certs: Seq<Vec<u8>>) -> Seq<Seq<u8>> {
    certs.map_values(|der: Vec<u8>| der@)
}

/// A certificate that was read, or what is wrong with its section.
pub open spec fn cert_view(read: Result<Vec<u8>, BrokenSection>) -> Result<Seq<u8>, Flaw> {
    match read {
        Ok(der) => Ok(der@),
        Err(broken) => Err(broken.flaw),
    }
}

/// [`cert_view`] of each read.
pub open spec fn cert_views(reads: Seq<Result<Vec<u8>, BrokenSection>>) -> Seq<
    Result<Seq<u8>, Flaw>,
> {
    reads.map_values(|read: Result<Vec<u8>, BrokenSection>| cert_view(read))
}

/// The certificate in a section, or what is wrong with it; `None` if it is sound but holds
/// something else.
pub open spec fn certificate_read(section: Section) -> Option<Result<Seq<u8>, Flaw>> {
    match section {
        Ok((PemKind::Certificate, der)) => Some(Ok(der)),
        Ok(_) => None,
        Err(flaw) => Some(Err(flaw)),
    }
}

/// What remains of the sections when only certificates are asked for: the certificates, and
/// the sections that are broken.
pub open spec fn certificate_reads(sections: Seq<Section>) -> Seq<Result<Seq<u8>, Flaw>> {
    sections.filter_map(|section: Section| certificate_read(section))
}

/// The certificates of two runs of sections are those of the one and then those of the other.
pub proof fn lemma_certificate_reads_add(before: Seq<Section>, after: Seq<Section>)
    ensures
        certificate_reads(before + after) == certificate_reads(before) + certificate_reads(after),
    decreases after.len(),
{
    if after.len() == 0 {
        assert(before + after == before);
    } else {
        assert((before + after).drop_last() == before + after.drop_last());
        lemma_certificate_reads_add(before, after.drop_last());
    }
}

/// Sections that are all passed over hold no broken one.
pub proof fn lemma_passed_over_are_sound(sections: Seq<Section>)
    requires
        all_passed_over(sections),
    ensures
        forall|i: int|
            0 <= i < certificate_reads(sections).len() ==> (#[trigger] certificate_reads(
                sections,
            )[i]) is Ok,
    decreases sections.len(),
{
    if sections.len() > 0 {
        let others = sections.drop_last();
        assert forall|i: int| 0 <= i < others.len() implies #[trigger] passed_over(others[i]) by {
            assert(passed_over(sections[i]));
        }
        lemma_passed_over_are_sound(others);
        assert(passed_over(sections[sections.len() - 1]));
    }
}

/// Whatever follows `pem`, the reads of it come first, but for a section that lacks its end.
pub open spec fn reads_are_settled(reads: Seq<Result<Seq<u8>, Flaw>>, pem: Seq<u8>) -> bool {
    forall|more: Seq<u8>, i: int|
        0 <= i < reads.len() && reads[i] != Err::<Seq<u8>, Flaw>(Flaw::NoEnd) ==> {
            &&& i < certificate_reads(sections(pem + more)).len()
            &&& #[trigger] certificate_reads(sections(pem + more))[i] == reads[i]
        }
}

/// Unless a section lacks its end, what follows `pem` adds its own sections, and changes none.
pub open spec fn sections_are_settled(reads: Seq<Result<Seq<u8>, Flaw>>, pem: Seq<u8>) -> bool {
    !reads.contains(Err(Flaw::NoEnd)) ==> forall|more: Seq<u8>| #[trigger]
        sections(pem + more) == sections(pem) + sections(more)
}

/// Calls `rustls_pemfile::certs` on bytes in memory, and runs the iterator to its end. It yields
/// what `rustls_pemfile::read_one` reads, section by section, without the sections that are
/// sound but no certificate. An empty text holds none.
///
/// The text is read line by line. So where no line is cut, what follows it changes nothing of
/// what was read, but for a section that lacks its end, and that can only be the last one.
#[verifier::external_body]
pub(crate) fn certs(pem: &[u8]) -> (r: Vec<Result<Vec<u8>, BrokenSection>>)
    ensures
        cert_views(r@) == certificate_reads(sections(pem@)),
        pem@.len() == 0 ==> r@.len() == 0,
        whole_lines(pem@) ==> reads_are_settled(cert_views(r@), pem@),
        whole_lines(pem@) ==> sections_are_settled(cert_views(r@), pem@),
{
    let mut rest = pem;
    let broken = |error: std::io::Error| {
        let unended = error.to_string().starts_with("section end ");
        BrokenSection { flaw: if unended { Flaw::NoEnd } else { Flaw::Malformed }, error }
    };
    let reads = rustls_pemfile::certs(&mut rest);
    reads.map(|read| read.map(|cert| cert.to_vec()).map_err(broken)).collect()
}

/// `rustls_pemfile`, asked for the certificates of `pem`, has given these reads.
pub closed spec fn reading(pem: Seq<u8>, reads: Seq<Result<Vec<u8>, BrokenSection>>) -> bool {
    exists|text: &[u8], answer: Vec<Result<Vec<u8>, BrokenSection>>|
        {
            &&& text@ == pem
            &&& answer@ == reads
            &&& #[trigger] call_ensures(certs, (text,), answer)
        }
}

/// What a call of [`certs`] returns are the reads.
pub(crate) proof fn lemma_reading(pem: &[u8], reads: Vec<Result<Vec<u8>, BrokenSection>>)
    requires
        call_ensures(certs, (pem,), reads),
    ensures
        reading(pem@, reads@),
{
}

/// Reads are those that a call with that text has returned.
pub(crate) proof fn law_reading_is_a_call(
    pem: Seq<u8>,
    reads: Seq<Result<Vec<u8>, BrokenSection>>,
)
    requires
        reading(pem, reads),
    ensures
        exists|text: &[u8], answer: Vec<Result<Vec<u8>, BrokenSection>>|
            text@ == pem && answer@ == reads && #[trigger] call_ensures(certs, (text,), answer),
        cert_views(reads) == certificate_reads(sections(pem)),
{
}

/// All certificates, or `source` as the name of what is invalid if a section is broken.
pub open spec fn chain_outcome(reads: Seq<Result<Seq<u8>, Flaw>>, source: Seq<char>) -> Result<
    Seq<Seq<u8>>,
    Failure,
> {
    if forall|i: int| 0 <= i < reads.len() ==> (#[trigger] reads[i]) is Ok {
        Ok(reads.map_values(|read: Result<Seq<u8>, Flaw>| read->Ok_0))
    } else {
        Err(Failure::InvalidServerCert(source))
    }
}

/// Takes all certificates that were read as a server's chain. One broken section spoils it.
pub fn certificate_chain(reads: Vec<Result<Vec<u8>, BrokenSection>>, source: &str) -> (r: Result<
    Vec<Vec<u8>>,
    Error,
>)
    ensures
        match chain_outcome(cert_views(reads@), source@) {
            Ok(chain) => r matches Ok(found) && ders(found@) == chain,
            Err(failure) => r matches Err(error) && error@ == failure,
        },
{
    let ghost views = cert_views(reads@);
    let mut chain: Vec<Vec<u8>> = Vec::new();
    for read in iter: reads
        invariant
            views == cert_views(iter.seq()),
            chain@.len() == iter.index(),
            forall|i: int| 0 <= i < iter.index() ==> (#[trigger] views[i]) is Ok,
            forall|i: int|
                0 <= i < iter.index() ==> (#[trigger] chain@[i])@ == views[i]->Ok_0,
    {
        assert(views[iter.index() as int] == cert_view(read));
        match read {
            Ok(der) => {
                chain.push(der);
            },
            Err(_) => {
                return Err(Error::InvalidServerCert(source.to_owned()));
            },
        }
    }
    assert(ders(chain@) == views.map_values(|read: Result<Seq<u8>, Flaw>| read->Ok_0));
    Ok(chain)
}

/// The first certificate that is read as a CA. `failed` tells whether reading stopped on an I/O
/// error after the given sections.
pub open spec fn ca_outcome(
    reads: Seq<Result<Seq<u8>, Flaw>>,
    failed: bool,
    source: Seq<char>,
) -> Result<Seq<u8>, Failure> {
    if reads.len() > 0 {
        match reads[0] {
            Ok(der) => Ok(der),
            Err(_) => Err(Failure::Io),
        }
    } else if failed {
        Err(Failure::Io)
    } else {
        Err(Failure::InvalidCACert(source))
    }
}

/// The reads end without a certificate or a whole section in its place: an I/O error that ended
/// them came before either.
pub open spec fn cut_short(reads: Seq<Result<Seq<u8>, Flaw>>) -> bool {
    reads.len() == 0 || reads[0] == Err::<Seq<u8>, Flaw>(Flaw::NoEnd)
}

/// Takes the first certificate that was read as the CA. A broken section in its place is
/// reported with its own error. `failure` is the error on which reading stopped; it is reported
/// where it came before a certificate or a whole section.
pub fn ca_certificate(
    reads: Vec<Result<Vec<u8>, BrokenSection>>,
    failure: Option<std::io::Error>,
    source: &str,
) -> (r: Result<Vec<u8>, Error>)
    ensures
        match ca_outcome(cert_views(reads@), failure is Some, source@) {
            Ok(der) => r matches Ok(found) && found@ == der,
            Err(expected) => r matches Err(error) && error@ == expected,
        },
        cut_short(cert_views(reads@)) && failure is Some ==> r == Err::<Vec<u8>, Error>(
            Error::Io(failure->0),
        ),
        reads@.len() > 0 && reads@[0] is Err && !(cut_short(cert_views(reads@)) && failure is Some)
            ==> r == Err::<Vec<u8>, Error>(Error::Io(reads@[0]->Err_0.error)),
{
    let mut reads = reads;
    if reads.len() > 0 {
        assert(cert_views(reads@)[0] == cert_view(reads@[0]));
        match reads.remove(0) {
            Ok(der) => Ok(der),
            Err(broken) => match failure {
                Some(cause) if broken.flaw == Flaw::NoEnd => Err(Error::from(cause)),
                _ => Err(Error::from(broken.error)),
            },
        }
    } else {
        match failure {
            Some(error) => Err(Error::from(error)),
            None => Err(Error::InvalidCACert(source.to_owned())),
        }
    }
}

} // verus!

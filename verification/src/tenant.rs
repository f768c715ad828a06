//! Which tenant a client belongs to, by the certificate that it shows.
use crate::error::{Error, Failure};
use vstd::prelude::*;

verus! {

/// The first organization in the subject of a certificate.
pub enum Organization<T> {
    /// The bytes are no X.509 certificate.
    Malformed,
    /// The subject names no organization.
    Absent,
    /// The attribute's value is no text, or of a string type that is not read as text.
    NotText,
    /// The attribute's value.
    Text(T),
}

/// An organization with its text by its characters.
pub open spec fn organization_view(organization: Organization<String>) -> Organization<Seq<char>> {
    match organization {
        Organization::Malformed => Organization::Malformed,
        Organization::Absent => Organization::Absent,
        Organization::NotText => Organization::NotText,
        Organization::Text(text) => Organization::Text(text@),
    }
}

/// Organizations with their texts by their characters.
pub open spec fn organizations_view(organizations: Option<Vec<Option<String>>>) -> Option<
    Seq<Option<Seq<char>>>,
> {
    match organizations {
        Some(list) => Some(
            list@.map_values(
                |text: Option<String>|
                    match text {
                        Some(value) => Some(value@),
                        None => None,
                    },
            ),
        ),
        None => None,
    }
}

/// The organizations that `x509_parser` finds in the subject of the certificate `der`, in order;
/// `None` among them is one that is not read as text. `None` for all is no certificate.
pub uninterp spec fn subject_organizations(der: Seq<u8>) -> Option<Seq<Option<Seq<char>>>>;

/// Calls `x509_parser::parse_x509_certificate`, and asks the certificate's subject for its
/// organizations (`iter_organization`) and each of them for its text (`as_str`). What comes back
/// depends on the bytes alone. A certificate says how long it is, and what follows it is not
/// looked at.
#[verifier::external_body]
fn read_organizations(der: &[u8]) -> (r: Option<Vec<Option<String>>>)
    ensures
        organizations_view(r) == subject_organizations(der@),
        r is Some ==> forall|more: Seq<u8>| #[trigger]
            subject_organizations(der@ + more) == organizations_view(r),
{
    let (_, cert) = x509_parser::parse_x509_certificate(der).ok()?;
    let organizations = cert.subject().iter_organization();
    Some(organizations.map(|attribute| attribute.as_str().ok().map(str::to_string)).collect())
}

/// The first of the organizations in a subject.
pub open spec fn first_of(organizations: Option<Seq<Option<Seq<char>>>>) -> Organization<
    Seq<char>,
> {
    match organizations {
        None => Organization::Malformed,
        Some(list) => if list.len() == 0 {
            Organization::Absent
        } else {
            match list[0] {
                Some(text) => Organization::Text(text),
                None => Organization::NotText,
            }
        },
    }
}

/// The first organization in the subject of the certificate `der`.
pub open spec fn subject_organization(der: Seq<u8>) -> Organization<Seq<char>> {
    first_of(subject_organizations(der))
}

/// Takes the first of the organizations in a subject.
pub fn first_organization(organizations: Option<Vec<Option<String>>>) -> (r: Organization<String>)
    ensures
        organization_view(r) == first_of(organizations_view(organizations)),
{
    match organizations {
        None => Organization::Malformed,
        Some(list) => {
            let mut list = list;
            if list.len() == 0 {
                return Organization::Absent;
            }
            match list.remove(0) {
                Some(text) => Organization::Text(text),
                None => Organization::NotText,
            }
        },
    }
}

/// Whether Unicode counts the character `c`, which is none of ASCII, as alphabetic or numeric.
pub uninterp spec fn unicode_alphanumeric(c: char) -> bool;

/// The letters and digits of ASCII.
pub open spec fn ascii_alphanumeric(c: char) -> bool {
    ('0' <= c && c <= '9') || ('A' <= c && c <= 'Z') || ('a' <= c && c <= 'z')
}

/// The letters and digits of Unicode.
pub open spec fn alphanumeric(c: char) -> bool {
    if c <= '\x7f' {
        ascii_alphanumeric(c)
    } else {
        unicode_alphanumeric(c)
    }
}

/// `char::is_alphanumeric` depends on the character alone. Of the ASCII characters it holds of
/// the letters and the digits.
pub assume_specification[ char::is_alphanumeric ](c: char) -> (r: bool)
    ensures
        c <= '\x7f' ==> r == ascii_alphanumeric(c),
        c > '\x7f' ==> r == unicode_alphanumeric(c),
;

/// Every character is a letter or a digit.
pub open spec fn all_alphanumeric(text: Seq<char>) -> bool {
    forall|i: int| 0 <= i < text.len() ==> #[trigger] alphanumeric(text[i])
}

/// The tenant that an organization names. Without `validate_tenant_prefix`, a certificate
/// without an organization belongs to no tenant, and that is no error.
pub open spec fn tenant_outcome(
    organization: Organization<Seq<char>>,
    validate_tenant_prefix: bool,
) -> Result<Option<Seq<char>>, Failure> {
    match organization {
        Organization::Malformed => Err(Failure::CertificateParse),
        Organization::NotText => Err(Failure::InvalidTenant),
        Organization::Absent => if validate_tenant_prefix {
            Err(Failure::MissingTenantId)
        } else {
            Ok(None)
        },
        Organization::Text(text) => if all_alphanumeric(text) {
            Ok(Some(text))
        } else {
            Err(Failure::InvalidTenantId(text))
        },
    }
}

/// A tenant, or the reason that there is none, is as `expected`.
pub open spec fn tenant_is(
    r: Result<Option<String>, Error>,
    expected: Result<Option<Seq<char>>, Failure>,
) -> bool {
    match expected {
        Ok(Some(id)) => r matches Ok(Some(tenant)) && tenant@ == id,
        Ok(None) => r matches Ok(None),
        Err(failure) => r matches Err(error) && error@ == failure,
    }
}

/// Decides which tenant an organization names.
pub fn tenant_of_organization(
    organization: Organization<String>,
    validate_tenant_prefix: bool,
) -> (r: Result<Option<String>, Error>)
    ensures
        tenant_is(r, tenant_outcome(organization_view(organization), validate_tenant_prefix)),
{
    let tenant_id = match organization {
        Organization::Malformed => return Err(Error::CertificateParse),
        Organization::NotText => return Err(Error::InvalidTenant),
        Organization::Absent => {
            if validate_tenant_prefix {
                return Err(Error::MissingTenantId);
            }
            return Ok(None);
        },
        Organization::Text(text) => text,
    };
    let mut sound: bool = true;
    for c in iter: tenant_id.chars()
        invariant
            iter.seq() == tenant_id@,
            sound <==> forall|i: int|
                0 <= i < iter.index() ==> #[trigger] alphanumeric(tenant_id@[i]),
    {
        assert(c == tenant_id@[iter.index() as int]);
        let accepted: bool = c.is_alphanumeric();
        assert(accepted == alphanumeric(c));
        if !accepted {
            sound = false;
        }
    }
    if !sound {
        return Err(Error::InvalidTenantId(tenant_id));
    }
    Ok(Some(tenant_id))
}

/// Extracts the tenant id from the organization in the subject of the certificate `der`. Bytes
/// behind the certificate do not matter.
pub fn extract_tenant_id(der: &[u8], validate_tenant_prefix: bool) -> (r: Result<
    Option<String>,
    Error,
>)
    ensures
        tenant_is(r, tenant_outcome(subject_organization(der@), validate_tenant_prefix)),
        !(r matches Err(Error::CertificateParse)) ==> forall|more: Seq<u8>| #[trigger]
            subject_organization(der@ + more) == subject_organization(der@),
{
    tenant_of_organization(first_organization(read_organizations(der)), validate_tenant_prefix)
}

} // verus!

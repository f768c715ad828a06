use rcgen::{Certificate, CertificateParams, DistinguishedName, DnType, DnValue};
use rumqttd_tls::error::Error;
use rumqttd_tls::tenant::{
    extract_tenant_id, first_organization, tenant_of_organization, Organization,
};

/// A self-signed certificate with the given organization in its subject.
fn certificate(organization: Option<DnValue>) -> Vec<u8> {
    let mut params = CertificateParams::new(vec!["client".to_string()]);
    let mut name = DistinguishedName::new();
    name.push(DnType::CommonName, "client");
    if let Some(value) = organization {
        name.push(DnType::OrganizationName, value);
    }
    params.distinguished_name = name;
    Certificate::from_params(params)
        .expect("generate certificate")
        .serialize_der()
        .expect("certificate der")
}

fn text(value: &str) -> Option<DnValue> {
    Some(DnValue::Utf8String(value.to_string()))
}

fn named(value: &str) -> Organization<String> {
    Organization::Text(value.to_string())
}

#[test]
fn organization_is_the_tenant() {
    let der = certificate(text("acme42"));
    assert_eq!(extract_tenant_id(&der, false).unwrap(), Some("acme42".to_string()));
    assert_eq!(extract_tenant_id(&der, true).unwrap(), Some("acme42".to_string()));
}

#[test]
fn printable_string_is_read_as_text() {
    let der = certificate(Some(DnValue::PrintableString("acme".to_string())));
    assert_eq!(extract_tenant_id(&der, true).unwrap(), Some("acme".to_string()));
}

#[test]
fn organization_must_be_alphanumeric() {
    let der = certificate(text("acme corp"));
    match extract_tenant_id(&der, false) {
        Err(Error::InvalidTenantId(id)) => assert_eq!(id, "acme corp"),
        _ => panic!("a blank is not alphanumeric"),
    }
}

#[test]
fn organization_may_be_missing_unless_validated() {
    let der = certificate(None);
    assert_eq!(extract_tenant_id(&der, false).unwrap(), None);
    assert!(matches!(extract_tenant_id(&der, true), Err(Error::MissingTenantId)));
}

#[test]
fn organization_must_be_text() {
    let der = certificate(Some(DnValue::BmpString(vec![0, b'a'])));
    assert!(matches!(extract_tenant_id(&der, false), Err(Error::InvalidTenant)));
}

#[test]
fn bytes_must_be_a_certificate() {
    assert!(matches!(extract_tenant_id(b"no certificate", false), Err(Error::CertificateParse)));
    assert!(matches!(extract_tenant_id(&[], true), Err(Error::CertificateParse)));
}

#[test]
fn each_organization_is_decided() {
    assert_eq!(tenant_of_organization(named("Acme7"), true).unwrap(), Some("Acme7".to_string()));
    assert_eq!(tenant_of_organization(named(""), true).unwrap(), Some(String::new()));
    assert_eq!(tenant_of_organization(Organization::Absent, false).unwrap(), None);
    assert!(matches!(
        tenant_of_organization(Organization::Absent, true),
        Err(Error::MissingTenantId)
    ));
    assert!(matches!(
        tenant_of_organization(Organization::NotText, false),
        Err(Error::InvalidTenant)
    ));
    assert!(matches!(
        tenant_of_organization(Organization::Malformed, false),
        Err(Error::CertificateParse)
    ));
}

#[test]
fn letters_and_digits_of_unicode_are_alphanumeric() {
    for id in ["京都", "Ñandú", "٣", "¾", "①", "0", "9", "A", "Z", "a", "z"] {
        assert_eq!(tenant_of_organization(named(id), true).unwrap(), Some(id.to_string()));
    }
    for id in ["💝", "a b", "-", "a_b", "\u{301}", "…"] {
        assert!(matches!(
            tenant_of_organization(named(id), true),
            Err(Error::InvalidTenantId(found)) if found == id
        ));
    }
}

#[test]
fn of_ascii_only_letters_and_digits_are_alphanumeric() {
    for code in 0u8..128 {
        let id = (code as char).to_string();
        let tenant = tenant_of_organization(named(&id), false);
        let expected = (b'0'..=b'9').contains(&code)
            || (b'A'..=b'Z').contains(&code)
            || (b'a'..=b'z').contains(&code);
        assert_eq!(tenant.is_ok(), expected, "character {}", code);
    }
}

#[test]
fn the_first_organization_decides() {
    let text = |value: &str| Some(value.to_string());
    assert!(matches!(
        first_organization(Some(vec![text("acme"), text("other"), None])),
        Organization::Text(id) if id == "acme"
    ));
    assert!(matches!(first_organization(Some(vec![None, text("acme")])), Organization::NotText));
    assert!(matches!(first_organization(Some(vec![])), Organization::Absent));
    assert!(matches!(first_organization(None), Organization::Malformed));
}

#[test]
fn bytes_behind_the_certificate_do_not_matter() {
    let der = [certificate(text("acme")), vec![0x30, 0xff, 7]].concat();
    assert_eq!(extract_tenant_id(&der, true).unwrap(), Some("acme".to_string()));
}

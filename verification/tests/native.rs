use rumqttd_tls::config::{Features, FileContents, TlsConfig, TlsFile};
use rumqttd_tls::error::Error;
use rumqttd_tls::native::identity_of_archive;
use rumqttd_tls::tls::{pkcs12_archive, Handshake, TLSAcceptor};
use tokio_native_tls::native_tls::Identity;

/// A PKCS #12 archive with a self-signed certificate for `localhost` and its key; the password
/// is `hunter2`.
const ARCHIVE: [u8; 1056] = [
    0x30, 0x82, 0x04, 0x1c, 0x02, 0x01, 0x03, 0x30, 0x82, 0x03, 0xd2, 0x06, 0x09, 0x2a, 0x86, 0x48,
    0x86, 0xf7, 0x0d, 0x01, 0x07, 0x01, 0xa0, 0x82, 0x03, 0xc3, 0x04, 0x82, 0x03, 0xbf, 0x30, 0x82,
    0x03, 0xbb, 0x30, 0x82, 0x02, 0x6a, 0x06, 0x09, 0x2a, 0x86, 0x48, 0x86, 0xf7, 0x0d, 0x01, 0x07,
    0x06, 0xa0, 0x82, 0x02, 0x5b, 0x30, 0x82, 0x02, 0x57, 0x02, 0x01, 0x00, 0x30, 0x82, 0x02, 0x50,
    0x06, 0x09, 0x2a, 0x86, 0x48, 0x86, 0xf7, 0x0d, 0x01, 0x07, 0x01, 0x30, 0x5f, 0x06, 0x09, 0x2a,
    0x86, 0x48, 0x86, 0xf7, 0x0d, 0x01, 0x05, 0x0d, 0x30, 0x52, 0x30, 0x31, 0x06, 0x09, 0x2a, 0x86,
    0x48, 0x86, 0xf7, 0x0d, 0x01, 0x05, 0x0c, 0x30, 0x24, 0x04, 0x10, 0x1d, 0x98, 0xf6, 0xaf, 0x60,
    0x8b, 0x82, 0xca, 0x97, 0x30, 0xf1, 0xd0, 0xfd, 0xf3, 0x44, 0xfd, 0x02, 0x02, 0x08, 0x00, 0x30,
    0x0c, 0x06, 0x08, 0x2a, 0x86, 0x48, 0x86, 0xf7, 0x0d, 0x02, 0x09, 0x05, 0x00, 0x30, 0x1d, 0x06,
    0x09, 0x60, 0x86, 0x48, 0x01, 0x65, 0x03, 0x04, 0x01, 0x2a, 0x04, 0x10, 0x42, 0x4d, 0x46, 0xd5,
    0x92, 0x64, 0xad, 0x75, 0x5d, 0xd0, 0x77, 0x79, 0x15, 0x57, 0x4e, 0x34, 0x80, 0x82, 0x01, 0xe0,
    0xe2, 0x61, 0x80, 0x2e, 0x27, 0x13, 0x29, 0xac, 0x20, 0xe0, 0xd7, 0xea, 0xff, 0x4a, 0xfe, 0x39,
    0x97, 0xc9, 0xd7, 0xb4, 0x13, 0x8a, 0xba, 0xe0, 0x75, 0xdd, 0x4c, 0xd1, 0xa2, 0x5b, 0xce, 0x41,
    0x38, 0x63, 0xe1, 0xa2, 0xd5, 0xc0, 0x37, 0xea, 0x96, 0x20, 0x19, 0x47, 0xbd, 0x87, 0xc1, 0x5c,
    0x62, 0x7e, 0x43, 0xd8, 0x45, 0x27, 0x0a, 0x57, 0x1f, 0x46, 0xc9, 0x72, 0x5a, 0xc5, 0xe4, 0xae,
    0xcc, 0xfb, 0x3d, 0xae, 0xe3, 0x3f, 0xe6, 0x79, 0xf0, 0x44, 0x12, 0x00, 0x62, 0xe5, 0x3d, 0x25,
    0xd2, 0xe2, 0x20, 0x35, 0x07, 0xda, 0xfb, 0xb1, 0xd0, 0x4a, 0xec, 0x0a, 0xed, 0x11, 0xfe, 0x7c,
    0x8d, 0xb2, 0x4f, 0xc2, 0x6d, 0x6f, 0xa7, 0xd1, 0x14, 0xcc, 0xac, 0x0d, 0xdd, 0x07, 0xa8, 0x01,
    0x1c, 0x07, 0x00, 0x64, 0x39, 0x9e, 0xe7, 0xb4, 0x5f, 0x26, 0xc0, 0xaf, 0x93, 0x5e, 0x01, 0xec,
    0xcf, 0x4c, 0x86, 0x72, 0x52, 0xb5, 0xa0, 0xf9, 0xec, 0xd2, 0x95, 0x84, 0x5d, 0x92, 0xa6, 0xbb,
    0x4d, 0xb5, 0x06, 0xe0, 0x89, 0x17, 0x69, 0x90, 0x78, 0xef, 0xb3, 0xd4, 0x6a, 0x11, 0x72, 0x05,
    0x16, 0x90, 0x7b, 0x37, 0x7f, 0x53, 0xb3, 0x1b, 0x8f, 0x79, 0x05, 0xaa, 0xad, 0xa9, 0x62, 0xdb,
    0x6a, 0xbf, 0xf7, 0x32, 0x07, 0xee, 0xb0, 0x63, 0x08, 0x70, 0x69, 0xda, 0x59, 0x40, 0xbc, 0xc5,
    0xf4, 0xa5, 0xd2, 0xfc, 0x71, 0x19, 0x91, 0xe4, 0xf2, 0x4e, 0x77, 0x73, 0x3a, 0x3c, 0x06, 0x9d,
    0xb1, 0x84, 0x90, 0x75, 0x2b, 0x94, 0xb3, 0x6a, 0x7a, 0x95, 0x48, 0x48, 0xca, 0xe8, 0x36, 0x0e,
    0x9e, 0x36, 0xa8, 0xf3, 0xfa, 0x01, 0x29, 0x78, 0xe1, 0x2e, 0xf7, 0xf8, 0x8d, 0xaf, 0x05, 0x41,
    0x1b, 0x85, 0x80, 0xf1, 0x2e, 0x25, 0x99, 0x55, 0xe1, 0xbb, 0x52, 0xe5, 0x7c, 0x7a, 0x48, 0x39,
    0x78, 0xe0, 0x75, 0x7e, 0x77, 0x06, 0x18, 0x2c, 0xc3, 0x1a, 0x9e, 0xf5, 0x4a, 0xe3, 0xdd, 0x1c,
    0x14, 0x5a, 0xf1, 0x12, 0x7d, 0x36, 0x3f, 0xcf, 0x0a, 0x89, 0xc7, 0xe6, 0x8a, 0x26, 0x81, 0x42,
    0x97, 0x70, 0xce, 0xe2, 0xee, 0x81, 0xd4, 0x54, 0x46, 0x56, 0x62, 0xe9, 0xc5, 0x65, 0x3a, 0xea,
    0x99, 0xe0, 0xd3, 0x72, 0x6b, 0x13, 0x76, 0xfa, 0xff, 0xcb, 0xc9, 0x35, 0x3a, 0xd1, 0x1c, 0xb8,
    0xd1, 0x87, 0x6f, 0x9d, 0x1d, 0x03, 0x34, 0x0d, 0x39, 0x8b, 0xfb, 0x51, 0xe2, 0x10, 0xdb, 0xd5,
    0x8e, 0x6f, 0xc9, 0x14, 0x0a, 0x61, 0x67, 0x31, 0x6b, 0xd4, 0x50, 0x6e, 0xdf, 0xd9, 0x9f, 0xa3,
    0x1f, 0xff, 0x96, 0x29, 0x13, 0x2e, 0x87, 0x9f, 0xdd, 0x1b, 0xe2, 0xcc, 0x4c, 0x6c, 0xfa, 0x12,
    0x20, 0x93, 0xf8, 0xeb, 0x19, 0x77, 0xed, 0xb5, 0x50, 0xe8, 0x14, 0xe3, 0x41, 0x0b, 0xb8, 0x1b,
    0x95, 0x21, 0xaf, 0x58, 0x08, 0xec, 0xaa, 0x83, 0x59, 0x75, 0xff, 0xe1, 0x5e, 0x58, 0x67, 0x0b,
    0xc2, 0x3b, 0xca, 0xe3, 0x5d, 0xab, 0x83, 0xe7, 0x10, 0x87, 0xb0, 0x19, 0x0b, 0x8b, 0x4d, 0x6a,
    0x7d, 0x5b, 0x59, 0x25, 0x36, 0x4f, 0xd8, 0xcf, 0x9a, 0x48, 0xc3, 0x25, 0xa2, 0xc8, 0x3a, 0xac,
    0x16, 0x39, 0xc9, 0x43, 0x4f, 0x5e, 0x19, 0x33, 0xd1, 0x09, 0x58, 0x22, 0x41, 0x7c, 0xd3, 0x30,
    0x48, 0xc9, 0x08, 0xc4, 0x77, 0xd1, 0x13, 0x49, 0x52, 0x28, 0xff, 0x41, 0x5e, 0x60, 0x06, 0xbd,
    0xba, 0xdb, 0x6a, 0xef, 0x22, 0xef, 0xc9, 0xe4, 0xda, 0x2d, 0x02, 0x11, 0x39, 0x53, 0x84, 0x1b,
    0x30, 0x82, 0x01, 0x49, 0x06, 0x09, 0x2a, 0x86, 0x48, 0x86, 0xf7, 0x0d, 0x01, 0x07, 0x01, 0xa0,
    0x82, 0x01, 0x3a, 0x04, 0x82, 0x01, 0x36, 0x30, 0x82, 0x01, 0x32, 0x30, 0x82, 0x01, 0x2e, 0x06,
    0x0b, 0x2a, 0x86, 0x48, 0x86, 0xf7, 0x0d, 0x01, 0x0c, 0x0a, 0x01, 0x02, 0xa0, 0x81, 0xf7, 0x30,
    0x81, 0xf4, 0x30, 0x5f, 0x06, 0x09, 0x2a, 0x86, 0x48, 0x86, 0xf7, 0x0d, 0x01, 0x05, 0x0d, 0x30,
    0x52, 0x30, 0x31, 0x06, 0x09, 0x2a, 0x86, 0x48, 0x86, 0xf7, 0x0d, 0x01, 0x05, 0x0c, 0x30, 0x24,
    0x04, 0x10, 0x39, 0x3b, 0x67, 0x9e, 0xd4, 0x23, 0xf9, 0x23, 0xa1, 0x2b, 0x88, 0x14, 0xb4, 0x77,
    0x09, 0x18, 0x02, 0x02, 0x08, 0x00, 0x30, 0x0c, 0x06, 0x08, 0x2a, 0x86, 0x48, 0x86, 0xf7, 0x0d,
    0x02, 0x09, 0x05, 0x00, 0x30, 0x1d, 0x06, 0x09, 0x60, 0x86, 0x48, 0x01, 0x65, 0x03, 0x04, 0x01,
    0x2a, 0x04, 0x10, 0x63, 0xbb, 0xec, 0xcf, 0x88, 0xdb, 0x96, 0x0f, 0x69, 0x1b, 0x15, 0xec, 0x72,
    0xae, 0xce, 0xfa, 0x04, 0x81, 0x90, 0xd7, 0x99, 0xef, 0x24, 0x62, 0x8a, 0x84, 0x7c, 0xf0, 0x65,
    0x04, 0x71, 0x9b, 0xfe, 0x46, 0x0e, 0xec, 0x34, 0x2a, 0xeb, 0x70, 0x23, 0x0a, 0xdb, 0xcb, 0xd9,
    0xd4, 0xc9, 0x9e, 0x93, 0xae, 0x40, 0x0a, 0x81, 0xf6, 0x14, 0x95, 0x85, 0x5a, 0x41, 0xb8, 0x98,
    0x9e, 0xa4, 0x20, 0xbb, 0xfb, 0x14, 0xb7, 0x0b, 0x0d, 0x7f, 0x08, 0xd0, 0xc2, 0x4e, 0xa4, 0xf2,
    0x66, 0x82, 0xad, 0x7a, 0xbe, 0xda, 0x20, 0x1a, 0x45, 0x69, 0x3b, 0x72, 0x09, 0xfb, 0xc5, 0xe6,
    0xe9, 0xe4, 0xa3, 0xea, 0x5a, 0xe5, 0xc3, 0x94, 0x5b, 0x6d, 0x4a, 0x30, 0x32, 0x85, 0x51, 0x44,
    0x76, 0x70, 0xcd, 0x5f, 0x6e, 0xa9, 0x7a, 0xf0, 0x1e, 0xf1, 0x93, 0xee, 0x21, 0x8b, 0x74, 0x45,
    0x7b, 0xec, 0xd4, 0xb5, 0x14, 0x9d, 0x03, 0x65, 0x6f, 0x0c, 0x9c, 0x2d, 0xeb, 0x9c, 0xb9, 0x35,
    0x67, 0x8c, 0x01, 0x29, 0xf2, 0xab, 0x68, 0xc1, 0x3b, 0x9b, 0xef, 0x46, 0xbb, 0xf7, 0x22, 0x78,
    0x93, 0x1b, 0xac, 0xd5, 0xda, 0x9c, 0x31, 0x25, 0x30, 0x23, 0x06, 0x09, 0x2a, 0x86, 0x48, 0x86,
    0xf7, 0x0d, 0x01, 0x09, 0x15, 0x31, 0x16, 0x04, 0x14, 0xad, 0xf4, 0xd8, 0x99, 0x76, 0x04, 0xe8,
    0x75, 0xa7, 0xd9, 0x0c, 0x0a, 0x7e, 0xd5, 0xb3, 0x73, 0x98, 0x5b, 0x10, 0xa7, 0x30, 0x41, 0x30,
    0x31, 0x30, 0x0d, 0x06, 0x09, 0x60, 0x86, 0x48, 0x01, 0x65, 0x03, 0x04, 0x02, 0x01, 0x05, 0x00,
    0x04, 0x20, 0x6d, 0x4b, 0x29, 0x7c, 0x2a, 0x60, 0xd1, 0x03, 0xe4, 0x30, 0xe3, 0x37, 0x69, 0x94,
    0x22, 0x67, 0x50, 0x3b, 0xab, 0xbb, 0x45, 0xc5, 0xe7, 0xf3, 0x7e, 0xb7, 0x53, 0x99, 0x7b, 0x8d,
    0xd6, 0x9c, 0x04, 0x08, 0x78, 0x66, 0x5d, 0x05, 0xc8, 0xee, 0x84, 0x67, 0x02, 0x02, 0x08, 0x00,
];

const NATIVE: Features = Features {
    use_rustls: false,
    use_native_tls: true,
    verify_client_cert: false,
    validate_tenant_prefix: false,
};

fn file(contents: FileContents) -> TlsFile {
    TlsFile { path: "identity.p12".to_string(), contents }
}

fn read(bytes: &[u8]) -> FileContents {
    FileContents::Read { bytes: bytes.to_vec(), failure: None }
}

fn failed(bytes: &[u8]) -> FileContents {
    FileContents::Read {
        bytes: bytes.to_vec(),
        failure: Some(std::io::Error::new(std::io::ErrorKind::Other, "disk on fire")),
    }
}

fn config(contents: FileContents, password: &str) -> TlsConfig {
    TlsConfig::NativeTls { pkcs12path: file(contents), pkcs12pass: password.to_string() }
}

#[test]
fn archive_gives_an_acceptor() {
    let acceptor = match TLSAcceptor::new(config(read(&ARCHIVE), "hunter2"), NATIVE) {
        Ok(acceptor) => acceptor,
        Err(error) => panic!("the archive is sound: {:?}", error),
    };
    assert!(matches!(acceptor, TLSAcceptor::NativeTLS { .. }));
    assert_eq!(acceptor.accept(Handshake::NativeTls(Ok(()))).unwrap(), None);
}

#[test]
fn failed_handshake_is_reported() {
    let acceptor = match TLSAcceptor::native_tls(&file(read(&ARCHIVE)), "hunter2") {
        Ok(acceptor) => acceptor,
        Err(error) => panic!("the archive is sound: {:?}", error),
    };
    let cause = match Identity::from_pkcs12(b"no archive", "") {
        Ok(_) => panic!("this is no archive"),
        Err(cause) => cause,
    };
    assert!(matches!(
        acceptor.accept(Handshake::NativeTls(Err(cause))),
        Err(Error::NativeTls(_))
    ));
}

#[test]
fn archive_that_cannot_be_read_is_invalid() {
    for (contents, password) in [
        (read(&ARCHIVE), "wrong"),
        (read(b"no archive"), "hunter2"),
        (failed(&ARCHIVE), "hunter2"),
    ] {
        assert!(matches!(
            TLSAcceptor::new(config(contents, password), NATIVE),
            Err(Error::InvalidServerCert(name)) if name == "identity.p12"
        ));
    }
}

#[test]
fn archive_must_be_there() {
    assert!(matches!(
        TLSAcceptor::new(config(FileContents::Unopened, "hunter2"), NATIVE),
        Err(Error::ServerCertNotFound(name)) if name == "identity.p12"
    ));
}

#[test]
fn archive_is_the_contents_of_the_file() {
    assert_eq!(pkcs12_archive(&file(read(&[1, 2, 3]))).unwrap(), &[1u8, 2, 3][..]);
    assert!(matches!(
        pkcs12_archive(&file(failed(&[1, 2, 3]))),
        Err(Error::InvalidServerCert(name)) if name == "identity.p12"
    ));
    assert!(matches!(
        pkcs12_archive(&file(FileContents::Unopened)),
        Err(Error::ServerCertNotFound(name)) if name == "identity.p12"
    ));
}

#[test]
fn identity_is_what_the_archive_gave() {
    assert!(identity_of_archive(Identity::from_pkcs12(&ARCHIVE, "hunter2"), "a").is_ok());
    assert!(matches!(
        identity_of_archive(Identity::from_pkcs12(&ARCHIVE, "wrong"), "a"),
        Err(Error::InvalidServerCert(name)) if name == "a"
    ));
}

#[test]
fn native_tls_may_be_switched_off() {
    let features = Features { use_native_tls: false, use_rustls: true, ..NATIVE };
    assert!(matches!(
        TLSAcceptor::new(config(read(&ARCHIVE), "hunter2"), features),
        Err(Error::NativeTlsNotEnabled)
    ));
}

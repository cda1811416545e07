use rustls::pki_types::{CertificateDer, PrivateKeyDer, PrivatePkcs8KeyDer, ServerName};
use tp_bridge::cert::{
    certs_from, generate_self_signed_certs, subject_names, transport_certs,
    CertificateGenerationError,
};

fn names(list: &[&str]) -> Vec<String> {
    list.iter().map(|s| s.to_string()).collect()
}

#[test]
fn subject_names_are_the_address_and_localhost() {
    assert_eq!(subject_names("192.168.1.5".to_string()), names(&["192.168.1.5", "localhost"]));
    assert_eq!(subject_names("::1".to_string()), names(&["::1", "localhost"]));
}

#[test]
fn certs_from_keeps_the_bytes() {
    match certs_from(Ok((vec![1, 2, 3], vec![4, 5]))) {
        Ok(c) => {
            assert_eq!(c.cert, vec![1, 2, 3]);
            assert_eq!(c.key, vec![4, 5]);
        }
        Err(_) => panic!("a bundle was expected"),
    }
}

#[test]
fn certs_from_keeps_the_reason() {
    match certs_from(Err("no entropy".to_string())) {
        Err(CertificateGenerationError::Rejected { reason }) => assert_eq!(reason, "no entropy"),
        _ => panic!("a refusal was expected"),
    }
}

#[test]
fn no_names_no_certificate() {
    assert!(matches!(
        generate_self_signed_certs(Vec::new()),
        Err(CertificateGenerationError::NoSubjectNames)
    ));
}

#[test]
fn a_name_that_cannot_be_encoded_is_rejected() {
    match generate_self_signed_certs(names(&["caf\u{e9}.example"])) {
        Err(CertificateGenerationError::Rejected { reason }) => assert!(!reason.is_empty()),
        _ => panic!("a refusal was expected"),
    }
}

#[test]
fn bundle_is_der_and_differs_from_run_to_run() {
    let a = generate_self_signed_certs(names(&["localhost"])).ok().unwrap();
    let b = generate_self_signed_certs(names(&["localhost"])).ok().unwrap();
    assert_eq!(a.cert[0], 0x30);
    assert_eq!(a.key[0], 0x30);
    assert_ne!(a.cert, a.key);
    assert_ne!(a.key, b.key);
    assert_ne!(a.cert, b.cert);
}

#[test]
fn secure_scenario_certificate_is_valid_for_both_names() {
    let certs = generate_self_signed_certs(names(&["192.168.1.5", "localhost"])).ok().unwrap();
    let der = CertificateDer::from(certs.cert.clone());
    let parsed = rustls::server::ParsedCertificate::try_from(&der).unwrap();
    let ip = ServerName::try_from("192.168.1.5").unwrap();
    let host = ServerName::try_from("localhost").unwrap();
    let other_ip = ServerName::try_from("192.168.1.6").unwrap();
    let other_host = ServerName::try_from("example.org").unwrap();
    assert!(rustls::client::verify_server_name(&parsed, &ip).is_ok());
    assert!(rustls::client::verify_server_name(&parsed, &host).is_ok());
    assert!(rustls::client::verify_server_name(&parsed, &other_ip).is_err());
    assert!(rustls::client::verify_server_name(&parsed, &other_host).is_err());
}

#[test]
fn secure_scenario_bundle_configures_a_tls_listener() {
    let certs = generate_self_signed_certs(names(&["192.168.1.5", "localhost"])).ok().unwrap();
    let chain = vec![CertificateDer::from(certs.cert)];
    let key = PrivateKeyDer::Pkcs8(PrivatePkcs8KeyDer::from(certs.key));
    let provider = std::sync::Arc::new(rustls::crypto::ring::default_provider());
    let config = rustls::ServerConfig::builder_with_provider(provider)
        .with_safe_default_protocol_versions()
        .unwrap()
        .with_no_client_auth()
        .with_single_cert(chain, key);
    assert!(config.is_ok());
}

#[test]
fn plain_http_needs_no_certificate() {
    assert!(matches!(transport_certs(true, "192.168.1.5".to_string()), Ok(None)));
    assert!(matches!(transport_certs(true, "not a name !".to_string()), Ok(None)));
}

#[test]
fn https_gets_a_bundle() {
    match transport_certs(false, "192.168.1.5".to_string()) {
        Ok(Some(c)) => {
            assert!(!c.cert.is_empty());
            assert!(!c.key.is_empty());
        }
        _ => panic!("a bundle was expected"),
    }
}

#[test]
fn https_does_not_fall_back_to_plain_http() {
    assert!(matches!(
        transport_certs(false, "caf\u{e9}".to_string()),
        Err(CertificateGenerationError::Rejected { .. })
    ));
}

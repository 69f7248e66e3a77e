use zerossl::{Csr, ErrorKind};
use zerossl::{generate_ca, generate_ca_signed_cert, generate_csr, generate_rsa_2048_priv_key};

fn name_to_string(name: &openssl::x509::X509NameRef) -> String {
    let mut parts: Vec<String> = Vec::new();
    for entry in name.entries() {
        let tag = match entry.object().nid() {
            openssl::nid::Nid::COMMONNAME => "CN".to_string(),
            openssl::nid::Nid::COUNTRYNAME => "C".to_string(),
            openssl::nid::Nid::ORGANIZATIONNAME => "O".to_string(),
            openssl::nid::Nid::ORGANIZATIONALUNITNAME => "OU".to_string(),
            openssl::nid::Nid::DESCRIPTION => "description".to_string(),
            other => format!("{:?}", other),
        };
        let value = entry.data().to_string().unwrap();
        parts.push(format!("{}={}", tag, value));
    }
    parts.join(",")
}

#[test]
fn generate_rsa_2048_priv_key_test() {
    let _ = generate_rsa_2048_priv_key().unwrap();
}

#[test]
fn generate_csr_ip_test() {
    let pkey = generate_rsa_2048_priv_key().unwrap();

    let mut alt_names: Vec<String> = Vec::new();
    alt_names.push("172.33.33.33".to_string());
    alt_names.push("172.33.33.34".to_string());

    let mut csr = Csr::new("172.33.33.33".to_string());
    let csr = csr
        .with_alt_names(alt_names, true)
        .with_country("AU".to_string())
        .with_org_name("Lit".to_string())
        .with_org_unit("Node Devs".to_string());

    let csr = generate_csr(&pkey, &csr).unwrap();

    let csr_pem = csr.to_pem().unwrap();

    assert!(csr_pem.len() > 0);
}

#[test]
fn generate_csr_dns_test() {
    let pkey = generate_rsa_2048_priv_key().unwrap();

    let mut alt_names: Vec<String> = Vec::new();
    alt_names.push("www.example.com".to_string());
    alt_names.push("www2.example.com".to_string());

    let mut csr = Csr::new("example.com".to_string());
    let csr = csr
        .with_alt_names(alt_names, false)
        .with_country("AU".to_string())
        .with_org_name("Lit".to_string())
        .with_org_unit("Node Devs".to_string());

    let csr = generate_csr(&pkey, &csr).unwrap();

    let csr_pem = csr.to_pem().unwrap();

    assert!(csr_pem.len() > 0);
}

#[test]
fn csr_dns_scenario() {
    let pkey = generate_rsa_2048_priv_key().unwrap();

    let mut csr = Csr::new("example.com".to_string());
    csr.with_alt_names(
        vec!["www.example.com".to_string(), "www2.example.com".to_string()],
        false,
    );
    csr.with_country("AU".to_string());
    csr.with_org_name("Lit".to_string());
    csr.with_org_unit("Node Devs".to_string());

    let req = generate_csr(&pkey, &csr).unwrap();
    let pem = zerossl::csr_pem(&req).unwrap();
    assert_eq!(pem.as_bytes(), req.to_pem().unwrap().as_slice());

    let parsed = openssl::x509::X509Req::from_pem(pem.as_bytes()).unwrap();
    assert_eq!(
        name_to_string(parsed.subject_name()),
        "CN=example.com,C=AU,O=Lit,OU=Node Devs"
    );

    let text = String::from_utf8(parsed.to_text().unwrap()).unwrap();
    assert!(text.contains("DNS:www.example.com"));
    assert!(text.contains("DNS:www2.example.com"));
    assert_eq!(text.matches("DNS:").count(), 2);
    assert!(!text.contains("IP Address:"));
}

#[test]
fn csr_ip_scenario() {
    let pkey = generate_rsa_2048_priv_key().unwrap();

    let mut csr = Csr::new("172.33.33.33".to_string());
    csr.with_alt_names(
        vec!["172.33.33.33".to_string(), "172.33.33.34".to_string()],
        true,
    );

    assert_eq!(
        csr.all_names(),
        vec!["172.33.33.33".to_string(), "172.33.33.34".to_string()]
    );

    let req = generate_csr(&pkey, &csr).unwrap();
    let text = String::from_utf8(req.to_text().unwrap()).unwrap();
    assert!(text.contains("IP Address:172.33.33.33"));
    assert!(text.contains("IP Address:172.33.33.34"));
    assert_eq!(text.matches("IP Address:").count(), 2);
    assert!(!text.contains("DNS:"));
}

#[test]
fn csr_pem_round_trip_subject() {
    let pkey = generate_rsa_2048_priv_key().unwrap();

    let mut csr = Csr::new("example.com".to_string());
    csr.with_country("AU".to_string());
    csr.with_org_name("Lit".to_string());
    csr.with_org_unit("Node Devs".to_string());
    csr.with_description("a test subject".to_string());

    let built_name = zerossl::extract_name_from_csr(&csr).unwrap();

    let req = generate_csr(&pkey, &csr).unwrap();
    let parsed = openssl::x509::X509Req::from_pem(&req.to_pem().unwrap()).unwrap();

    assert_eq!(
        name_to_string(parsed.subject_name()),
        name_to_string(&built_name)
    );
    assert_eq!(parsed.version(), 0);
}

#[test]
fn ca_is_self_signed() {
    let pkey = generate_rsa_2048_priv_key().unwrap();

    let mut csr = Csr::new("root.example.com".to_string());
    csr.with_org_name("Lit".to_string());

    let ca = generate_ca(&pkey, &csr, None).unwrap();
    assert_eq!(
        name_to_string(ca.subject_name()),
        name_to_string(ca.issuer_name())
    );
    assert_eq!(
        name_to_string(ca.subject_name()),
        "CN=root.example.com,O=Lit"
    );
}

#[test]
fn ca_validity_defaults_to_a_year() {
    let pkey = generate_rsa_2048_priv_key().unwrap();
    let csr = Csr::new("root.example.com".to_string());

    let ca = generate_ca(&pkey, &csr, None).unwrap();
    let diff = ca.not_before().diff(ca.not_after()).unwrap();
    assert_eq!(diff.days, 365);
    assert_eq!(diff.secs, 0);
}

#[test]
fn ca_extensions_mark_a_certificate_authority() {
    let pkey = generate_rsa_2048_priv_key().unwrap();
    let csr = Csr::new("root.example.com".to_string());

    let ca = generate_ca(&pkey, &csr, Some(7)).unwrap();
    let text = String::from_utf8(ca.to_text().unwrap()).unwrap();

    assert!(text.contains("X509v3 Basic Constraints: critical"));
    assert!(text.contains("CA:TRUE"));
    assert!(text.contains("X509v3 Key Usage: critical"));
    assert!(text.contains("Certificate Sign, CRL Sign"));
    assert!(text.contains("X509v3 Subject Key Identifier"));
}

#[test]
fn leaf_chains_to_its_ca() {
    let ca_key = generate_rsa_2048_priv_key().unwrap();
    let mut ca_csr = Csr::new("root.example.com".to_string());
    ca_csr.with_org_name("Lit".to_string());
    let ca = generate_ca(&ca_key, &ca_csr, Some(30)).unwrap();

    let leaf_key = generate_rsa_2048_priv_key().unwrap();
    let mut leaf_csr = Csr::new("www.example.com".to_string());
    leaf_csr.with_alt_names(vec!["www2.example.com".to_string()], false);
    leaf_csr.with_country("AU".to_string());
    let leaf = generate_ca_signed_cert(&leaf_key, &leaf_csr, &ca, Some(90)).unwrap();

    assert_eq!(
        name_to_string(leaf.issuer_name()),
        name_to_string(ca.subject_name())
    );
    assert_eq!(
        name_to_string(leaf.subject_name()),
        "CN=www.example.com,C=AU"
    );

    let diff = leaf.not_before().diff(leaf.not_after()).unwrap();
    assert_eq!(diff.days, 90);
    let ca_diff = ca.not_before().diff(ca.not_after()).unwrap();
    assert_eq!(ca_diff.days, 30);

    let text = String::from_utf8(leaf.to_text().unwrap()).unwrap();
    assert!(text.contains("CA:FALSE"));
    assert!(text.contains("X509v3 Key Usage: critical"));
    assert!(text.contains("Digital Signature, Non Repudiation, Key Encipherment"));
    assert!(text.contains("X509v3 Subject Key Identifier"));
    assert!(text.contains("X509v3 Authority Key Identifier"));
    assert!(text.contains("DNS:www2.example.com"));
}

#[test]
fn all_names_deduplicates_case_insensitively() {
    let mut csr = Csr::new("Example.COM".to_string());
    csr.with_alt_names(
        vec!["example.com".to_string(), "www.example.com".to_string()],
        false,
    );
    assert_eq!(
        csr.all_names(),
        vec!["Example.COM".to_string(), "www.example.com".to_string()]
    );
}

#[test]
fn all_names_starts_with_the_common_name() {
    let csr = Csr::new("example.com".to_string());
    assert_eq!(csr.all_names(), vec!["example.com".to_string()]);
}

#[test]
fn invalid_ip_alt_name_is_an_extension_error() {
    let pkey = generate_rsa_2048_priv_key().unwrap();

    let mut csr = Csr::new("example.com".to_string());
    csr.with_alt_names(vec!["not-an-ip".to_string()], true);

    let err = match generate_csr(&pkey, &csr) {
        Ok(_) => panic!("an invalid IP literal must not produce a request"),
        Err(e) => e,
    };
    assert_eq!(err.kind(), ErrorKind::ExtensionBuild);
}

#[test]
fn descriptor_accessors_return_what_was_set() {
    let mut csr = Csr::new("example.com".to_string());
    csr.with_alt_names(vec!["a.example.com".to_string()], false);
    csr.with_country("AU".to_string());
    csr.with_org_name("Lit".to_string());
    csr.with_org_unit("Node Devs".to_string());
    csr.with_description("desc".to_string());

    assert_eq!(csr.common_name(), "example.com".to_string());
    assert_eq!(csr.alt_names(), Some(vec!["a.example.com".to_string()]));
    assert_eq!(csr.alt_name_is_ip(), false);
    assert_eq!(csr.country(), Some("AU".to_string()));
    assert_eq!(csr.org_name(), Some("Lit".to_string()));
    assert_eq!(csr.org_unit(), Some("Node Devs".to_string()));
    assert_eq!(csr.description(), Some("desc".to_string()));

    let empty = Csr::default();
    assert_eq!(empty.common_name(), "".to_string());
    assert_eq!(empty.alt_names(), None);
    assert_eq!(empty.country(), None);
}

#[test]
fn oversized_country_is_an_encoding_error() {
    let pkey = generate_rsa_2048_priv_key().unwrap();

    let mut csr = Csr::new("example.com".to_string());
    csr.with_country("AUS".to_string());

    let err = match generate_csr(&pkey, &csr) {
        Ok(_) => panic!("a three-letter country code must not be encodable"),
        Err(e) => e,
    };
    assert_eq!(err.kind(), ErrorKind::Encoding);
    assert!(err.cause.is_some());
}

#[test]
fn oversized_common_name_is_refused_up_front() {
    let pkey = generate_rsa_2048_priv_key().unwrap();

    let csr = Csr::new("a".repeat(5000));
    let err = match generate_csr(&pkey, &csr) {
        Ok(_) => panic!("an attribute value beyond the limit must be refused"),
        Err(e) => e,
    };
    assert_eq!(err.kind(), ErrorKind::Encoding);
    assert!(err.cause.is_none());
    assert_eq!(err.msg, Some("attribute value too long".to_string()));
}

#[test]
fn ca_serial_is_a_random_159_bit_integer() {
    let pkey = generate_rsa_2048_priv_key().unwrap();
    let csr = Csr::new("root.example.com".to_string());

    let first = generate_ca(&pkey, &csr, Some(1)).unwrap();
    let second = generate_ca(&pkey, &csr, Some(1)).unwrap();

    let first_serial = first.serial_number().to_bn().unwrap();
    let second_serial = second.serial_number().to_bn().unwrap();
    assert!(first_serial.num_bits() <= 159);
    assert!(second_serial.num_bits() <= 159);
    assert!(first_serial != second_serial);

    assert_eq!(first.version(), 2);
}

#[test]
fn leaf_extensions_stand_in_order() {
    let ca_key = generate_rsa_2048_priv_key().unwrap();
    let ca = generate_ca(&ca_key, &Csr::new("root.example.com".to_string()), None).unwrap();

    let key = generate_rsa_2048_priv_key().unwrap();
    let mut csr = Csr::new("www.example.com".to_string());
    csr.with_alt_names(vec!["www2.example.com".to_string()], false);
    let leaf = generate_ca_signed_cert(&key, &csr, &ca, None).unwrap();

    let text = String::from_utf8(leaf.to_text().unwrap()).unwrap();
    let basic = text.find("X509v3 Basic Constraints").unwrap();
    let usage = text.find("X509v3 Key Usage").unwrap();
    let ski = text.find("X509v3 Subject Key Identifier").unwrap();
    let aki = text.find("X509v3 Authority Key Identifier").unwrap();
    let san = text.find("X509v3 Subject Alternative Name").unwrap();
    assert!(basic < usage);
    assert!(usage < ski);
    assert!(ski < aki);
    assert!(aki < san);
}

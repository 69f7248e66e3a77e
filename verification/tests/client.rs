use zerossl::{Client, Csr, ErrorKind, Resp};
use zerossl::{CreateCertificateReq, ListCertificatesReq};
use zerossl::client::validation::{OtherValidation, ValidationOptions};
use zerossl::generate_rsa_2048_priv_key;

fn empty_other_validation() -> OtherValidation {
    OtherValidation {
        file_validation_url_http: None,
        file_validation_url_https: None,
        file_validation_content: None,
        cname_validation_p1: None,
        cname_validation_p2: None,
    }
}

#[test]
fn client_points_at_the_service() {
    let client = Client::new("not-a-real-key".to_string());
    assert_eq!(client.api_key().as_str(), "not-a-real-key");
    assert_eq!(client.api_url().as_str(), "https://api.zerossl.com");

    let plain = Client::default();
    assert_eq!(plain.api_key().as_str(), "");
    assert_eq!(plain.api_url().as_str(), "https://api.zerossl.com");
}

#[test]
fn create_certificate_req_joins_domains() {
    let req = CreateCertificateReq::new(
        vec!["example.com".to_string(), "www.example.com".to_string()],
        "PEM".to_string(),
    );
    assert_eq!(req.certificate_domains, "example.com,www.example.com");
    assert_eq!(req.certificate_csr, "PEM");
    assert_eq!(req.certificate_validity_days, None);
    assert_eq!(req.strict_domains, None);
}

#[test]
fn create_certificate_req_knobs() {
    let mut req = CreateCertificateReq::new(vec!["example.com".to_string()], "PEM".to_string());
    req.with_certificate_validity_days(90);
    assert_eq!(req.certificate_validity_days, Some(90));

    req.with_strict_domains(true);
    assert_eq!(req.strict_domains, Some(1));
    req.with_strict_domains(false);
    assert_eq!(req.strict_domains, None);
}

#[test]
fn create_certificate_req_from_csr() {
    let pkey = generate_rsa_2048_priv_key().unwrap();

    let mut csr = Csr::new("example.com".to_string());
    csr.with_alt_names(
        vec!["example.com".to_string(), "www.example.com".to_string()],
        false,
    );
    csr.with_country("AU".to_string());

    let req = CreateCertificateReq::from_csr(&pkey, &csr).unwrap();
    assert_eq!(req.certificate_domains, "example.com,www.example.com");
    assert!(req
        .certificate_csr
        .starts_with("-----BEGIN CERTIFICATE REQUEST-----"));
    assert_eq!(req.certificate_validity_days, None);
    assert_eq!(req.strict_domains, None);

    let parsed = openssl::x509::X509Req::from_pem(req.certificate_csr.as_bytes()).unwrap();
    assert_eq!(parsed.version(), 0);
}

#[test]
fn list_certificates_req_builders() {
    let all = ListCertificatesReq::default();
    assert_eq!(all.certificate_status, None);
    assert_eq!(all.search, None);

    let mut by_domain = ListCertificatesReq::for_search("example.com".to_string());
    assert_eq!(by_domain.search, Some("example.com".to_string()));

    by_domain.with_status(vec!["draft", "pending_validation"]);
    assert_eq!(
        by_domain.certificate_status,
        Some("draft,pending_validation".to_string())
    );

    let explicit = ListCertificatesReq::new(
        Some("issued".to_string()),
        None,
        Some("example.com".to_string()),
        Some(25),
        Some(2),
    );
    assert_eq!(explicit.certificate_status, Some("issued".to_string()));
    assert_eq!(explicit.limit, Some(25));
    assert_eq!(explicit.page, Some(2));
}

#[test]
fn purge_status_selection_covers_the_asked_groups() {
    assert_eq!(zerossl::purge_status_selection(false, false), None);
    assert_eq!(
        zerossl::purge_status_selection(true, false),
        Some(vec!["draft", "pending_validation"])
    );
    assert_eq!(zerossl::purge_status_selection(false, true), Some(vec!["issued"]));
    assert_eq!(
        zerossl::purge_status_selection(true, true),
        Some(vec!["draft", "pending_validation", "issued"])
    );
}

#[test]
fn result_status_reports_success() {
    let ok = zerossl::ResultStatus { success: Some(true), error: None };
    assert!(ok.is_ok());

    let silent = zerossl::ResultStatus { success: None, error: None };
    assert!(silent.is_ok());

    let failed = zerossl::ResultStatus {
        success: Some(false),
        error: Some(zerossl::ErrorMsg {
            code: Some(-42),
            typ: Some("bad_request".to_string()),
            details: Some("missing field".to_string()),
        }),
    };
    assert!(!failed.is_ok());
    let carried = failed.err_msg().unwrap();
    assert_eq!(carried.code, Some(-42));
    assert_eq!(carried.typ, Some("bad_request".to_string()));
    assert_eq!(carried.details, Some("missing field".to_string()));
    assert_eq!(
        failed.err_msg_string(),
        Some("zerossl error msg: -42: bad_request: missing field".to_string())
    );
    let err = failed.to_err();
    assert_eq!(err.kind(), ErrorKind::Request);
}

#[test]
fn result_status_alt_counts_one_as_success() {
    let ok = zerossl::ResultStatusAlt { success: Some(1) };
    assert!(ok.is_ok());
    let failed = zerossl::ResultStatusAlt { success: Some(0) };
    assert!(!failed.is_ok());
    let silent = zerossl::ResultStatusAlt { success: None };
    assert!(silent.is_ok());
}

#[test]
fn error_msg_renders_each_part() {
    let bare = zerossl::ErrorMsg { code: None, typ: None, details: None };
    assert_eq!(bare.message(), "zerossl error msg");

    let coded = zerossl::ErrorMsg { code: Some(2839), typ: None, details: None };
    assert_eq!(coded.message(), "zerossl error msg: 2839");
}

#[test]
fn file_validation_extracts_the_identifier() {
    let mut record = empty_other_validation();
    record.file_validation_url_https =
        Some("https://example.com/.well-known/pki-validation/AB12cd34.txt".to_string());
    record.file_validation_content =
        Some(vec!["token-one".to_string(), "token-two".to_string()]);

    let (id, content) = record.file_validation().unwrap();
    assert_eq!(id, "AB12cd34");
    assert_eq!(content, vec!["token-one".to_string(), "token-two".to_string()]);

    let missing = empty_other_validation();
    assert_eq!(missing.file_validation(), None);
}

#[test]
fn validation_options_look_up_the_domain() {
    let mut record = empty_other_validation();
    record.file_validation_url_https = Some("https://example.com/file9.txt".to_string());
    record.file_validation_content = Some(vec!["c".to_string()]);

    let options = ValidationOptions {
        email_validation: None,
        other_methods: Some(vec![
            ("other.example.com".to_string(), empty_other_validation()),
            ("example.com".to_string(), record),
        ]),
    };

    let (id, content) = options.file_validation(&"example.com".to_string()).unwrap();
    assert_eq!(id, "file9");
    assert_eq!(content, vec!["c".to_string()]);

    assert_eq!(options.file_validation(&"other.example.com".to_string()), None);
    assert_eq!(options.file_validation(&"unknown.example.com".to_string()), None);
}

#[test]
fn certificate_record_delegates_file_validation() {
    let mut record = empty_other_validation();
    record.file_validation_url_https = Some("https://example.com/zz.txt".to_string());
    record.file_validation_content = Some(vec!["line".to_string()]);

    let cert = zerossl::Certificate {
        id: Some("abc".to_string()),
        cert_type: None,
        common_name: Some("example.com".to_string()),
        additional_domains: None,
        created: None,
        expires: None,
        status: Some("draft".to_string()),
        validation_type: None,
        validation_emails: None,
        replacement_for: None,
        validation: Some(ValidationOptions {
            email_validation: None,
            other_methods: Some(vec![("example.com".to_string(), record)]),
        }),
    };

    let (id, content) = cert.file_validation(&"example.com".to_string()).unwrap();
    assert_eq!(id, "zz");
    assert_eq!(content, vec!["line".to_string()]);

    let bare = zerossl::Certificate {
        id: None,
        cert_type: None,
        common_name: None,
        additional_domains: None,
        created: None,
        expires: None,
        status: None,
        validation_type: None,
        validation_emails: None,
        replacement_for: None,
        validation: None,
    };
    assert_eq!(bare.file_validation(&"example.com".to_string()), None);
}

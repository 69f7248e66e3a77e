//! The request and response shapes of the certificate-issuance service, and
//! the assembly of a creation request from a descriptor and key pair.

use vstd::prelude::*;
use openssl::pkey::PKey;
use openssl::pkey::Private;
use openssl::x509::X509Req;
use crate::certs::csr::Csr;
use crate::certs::csr::csr_request_exts;
use crate::certs::csr::dn_entries;
use crate::certs::csr::generate_csr;
use crate::certs::csr::spec_all_names;
use crate::certs::x509::pem_of_req;
use crate::certs::x509::req_exts;
use crate::certs::x509::req_subject;
use crate::certs::x509::req_version;
use crate::client::result::ErrorMsg;
use crate::client::result::Resp;
use crate::client::result::ResultStatus;
use crate::client::validation::ValidationOptions;
use crate::client::validation::ValidationType;
use crate::client::validation::spec_options_file_validation;
use crate::error::Error;
use crate::error::ErrorKind;
use crate::text::ascii_str_of;
use crate::text::join_strings;
use crate::text::spec_join;

verus! {

// ---------------------------------------------------------------------------
// Creating a certificate.
// ---------------------------------------------------------------------------

/// A request to create a certificate: the covered domains joined with
/// commas, the PEM-encoded signing request, and the optional validity and
/// strictness knobs.
#[derive(Debug)]
pub struct CreateCertificateReq {
    pub certificate_domains: String,
    pub certificate_csr: String,
    pub certificate_validity_days: Option<u8>,
    pub strict_domains: Option<u8>,
}

impl CreateCertificateReq {
    /// A creation request covering the given domains, joined with commas,
    /// with the given PEM-encoded signing request and no optional knob.
    pub fn new(certificate_domains: Vec<String>, certificate_csr: String) -> (r: Self)
        ensures
            r.certificate_domains@ == spec_join(certificate_domains.deep_view(), ","@),
            r.certificate_csr == certificate_csr,
            r.certificate_validity_days is None,
            r.strict_domains is None,
    {
        Self {
            certificate_domains: join_strings(&certificate_domains, ","),
            certificate_csr,
            certificate_validity_days: None,
            strict_domains: None,
        }
    }

    /// Assembles a creation request from a key pair and descriptor: the
    /// domain list is the descriptor's deduplicated name list joined with
    /// commas, and the body is the PEM encoding of the signing request the
    /// descriptor and key produce.
    pub fn from_csr(pkey: &PKey<Private>, csr: &Csr) -> (r: Result<Self, Error>)
        ensures
            r is Ok ==> r->Ok_0.certificate_domains@ == spec_join(spec_all_names(csr@), ","@),
            r is Ok ==> exists|req: X509Req|
                req_version(req) == 0 && req_subject(req) == dn_entries(csr@) && req_exts(req)
                    == csr_request_exts(csr@) && r->Ok_0.certificate_csr@ == ascii_str_of(
                    #[trigger] pem_of_req(req),
                ),
            r is Ok ==> r->Ok_0.certificate_validity_days is None,
            r is Ok ==> r->Ok_0.strict_domains is None,
            r is Err ==> (r->Err_0.kind == ErrorKind::Encoding || r->Err_0.kind
                == ErrorKind::ExtensionBuild || r->Err_0.kind == ErrorKind::Signing),
    {
        let x509_req = generate_csr(pkey, csr)?;
        let csr_pem_str = crate::certs::csr::csr_pem(&x509_req)?;

        Ok(Self::new(csr.all_names(), csr_pem_str))
    }

    /// Sets the requested validity in days.
    pub fn with_certificate_validity_days(&mut self, days: u8) -> (r: &mut Self)
        ensures
            r.certificate_validity_days == Some(days),
            r.certificate_domains == old(self).certificate_domains,
            r.certificate_csr == old(self).certificate_csr,
            r.strict_domains == old(self).strict_domains,
            *final(self) == *final(r),
    {
        self.certificate_validity_days = Some(days);
        self
    }

    /// Sets strict domain handling: one when asked for, absent otherwise.
    pub fn with_strict_domains(&mut self, strict_domains: bool) -> (r: &mut Self)
        ensures
            r.strict_domains == (if strict_domains {
                Some(1u8)
            } else {
                None::<u8>
            }),
            r.certificate_domains == old(self).certificate_domains,
            r.certificate_csr == old(self).certificate_csr,
            r.certificate_validity_days == old(self).certificate_validity_days,
            *final(self) == *final(r),
    {
        self.strict_domains = if strict_domains {
            Some(1)
        } else {
            None
        };
        self
    }
}

/// The response to a creation request: the status envelope and the created
/// certificate record.
#[derive(Debug)]
pub struct CreateCertificateRes {
    pub result_status: ResultStatus,
    pub certificate: Certificate,
}

impl CreateCertificateRes {
    /// The created certificate record.
    pub fn certificate(&self) -> (r: &Certificate)
        ensures
            *r == self.certificate,
    {
        &self.certificate
    }
}

impl Resp for CreateCertificateRes {
    fn is_ok(&self) -> bool {
        self.result_status.status_ok()
    }

    fn err_msg(&self) -> Option<ErrorMsg> {
        self.result_status.status_err_msg()
    }

    fn err_msg_string(&self) -> Option<String> {
        self.result_status.status_message()
    }

    fn to_err(&self) -> Error {
        Error::request("request failed".to_owned(), self.err_msg_string())
    }
}

// ---------------------------------------------------------------------------
// Listing certificates.
// ---------------------------------------------------------------------------

/// A query over the certificate inventory: all fields optional.
#[derive(Debug)]
pub struct ListCertificatesReq {
    pub certificate_status: Option<String>,
    pub certificate_type: Option<String>,
    pub search: Option<String>,
    pub limit: Option<u32>,
    pub page: Option<u32>,
}

impl ListCertificatesReq {
    /// An empty query.
    pub fn default() -> (r: Self)
        ensures
            r.certificate_status is None,
            r.certificate_type is None,
            r.search is None,
            r.limit is None,
            r.page is None,
    {
        Self {
            certificate_status: None,
            certificate_type: None,
            search: None,
            limit: None,
            page: None,
        }
    }

    /// A query with the given fields.
    pub fn new(
        certificate_status: Option<String>,
        certificate_type: Option<String>,
        search: Option<String>,
        limit: Option<u32>,
        page: Option<u32>,
    ) -> (r: Self)
        ensures
            r.certificate_status == certificate_status,
            r.certificate_type == certificate_type,
            r.search == search,
            r.limit == limit,
            r.page == page,
    {
        Self { certificate_status, certificate_type, search, limit, page }
    }

    /// A query searching for the given text.
    pub fn for_search(search: String) -> (r: Self)
        ensures
            r.search == Some(search),
            r.certificate_status is None,
            r.certificate_type is None,
            r.limit is None,
            r.page is None,
    {
        Self { search: Some(search), ..Self::default() }
    }

    /// Restricts the query to the given statuses, joined with commas.
    pub fn with_status(&mut self, status: Vec<&str>) -> (r: &mut Self)
        ensures
            match r.certificate_status {
                Some(s) => s@ == spec_join(status.deep_view(), ","@),
                None => false,
            },
            r.certificate_type == old(self).certificate_type,
            r.search == old(self).search,
            r.limit == old(self).limit,
            r.page == old(self).page,
            *final(self) == *final(r),
    {
        self.certificate_status = Some(crate::text::join_str_refs(&status, ","));
        self
    }
}

/// The response to an inventory query: the status envelope and the matching
/// certificate records.
#[derive(Debug)]
pub struct ListCertificatesRes {
    pub result_status: ResultStatus,
    pub results: Vec<Certificate>,
}

impl ListCertificatesRes {
    /// The matching certificate records.
    pub fn results(&self) -> (r: &Vec<Certificate>)
        ensures
            *r == self.results,
    {
        &self.results
    }
}

impl Resp for ListCertificatesRes {
    fn is_ok(&self) -> bool {
        self.result_status.status_ok()
    }

    fn err_msg(&self) -> Option<ErrorMsg> {
        self.result_status.status_err_msg()
    }

    fn err_msg_string(&self) -> Option<String> {
        self.result_status.status_message()
    }

    fn to_err(&self) -> Error {
        Error::request("request failed".to_owned(), self.err_msg_string())
    }
}

// ---------------------------------------------------------------------------
// The certificate record.
// ---------------------------------------------------------------------------

/// One certificate as the inventory reports it: identity, lifecycle and
/// validation material, every field optional.
#[derive(Debug)]
pub struct Certificate {
    pub id: Option<String>,
    pub cert_type: Option<String>,
    pub common_name: Option<String>,
    pub additional_domains: Option<String>,
    pub created: Option<String>,
    pub expires: Option<String>,
    pub status: Option<String>,
    pub validation_type: Option<ValidationType>,
    pub validation_emails: Option<String>,
    pub replacement_for: Option<String>,
    pub validation: Option<ValidationOptions>,
}

impl Certificate {
    /// The file-validation identifier and content for the given domain, when
    /// the record carries validation material for it.
    pub fn file_validation(&self, domain: &String) -> (r: Option<(String, Vec<String>)>)
        ensures
            r is Some <==> (self.validation is Some && spec_options_file_validation(
                self.validation->0,
                domain@,
            ) is Some),
            r is Some ==> (r->0).0@ == (spec_options_file_validation(
                self.validation->0,
                domain@,
            )->0).0,
            r is Some ==> (r->0).1.deep_view() == (spec_options_file_validation(
                self.validation->0,
                domain@,
            )->0).1,
    {
        if let Some(validation) = &self.validation {
            return validation.file_validation(domain);
        }
        None
    }
}

} // verus!

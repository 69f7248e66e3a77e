//! Assembly of X.509 artifacts — certificate signing requests, self-signed
//! CA certificates, and CA-issued leaf certificates — from a declarative
//! subject descriptor, together with the request and response shapes of the
//! certificate-issuance service that consumes them. The distinguished-name
//! ordering, extension sets, validity windows and name lists are stated as
//! contracts and proved; the OpenSSL calls that realize them stand behind a
//! trusted boundary in `certs::x509`.

pub mod certs;
pub mod client;
pub mod error;
pub mod text;

pub use certs::csr::Csr;
pub use certs::csr::csr_pem;
pub use certs::csr::extract_name_from_csr;
pub use certs::csr::generate_ca;
pub use certs::csr::generate_ca_signed_cert;
pub use certs::csr::generate_csr;
pub use certs::csr::generate_rsa_2048_priv_key;
pub use client::Client;
pub use client::purge_status_selection;
pub use client::certificates::Certificate;
pub use client::certificates::CreateCertificateReq;
pub use client::certificates::CreateCertificateRes;
pub use client::certificates::ListCertificatesReq;
pub use client::certificates::ListCertificatesRes;
pub use client::result::ErrorMsg;
pub use client::result::Resp;
pub use client::result::ResultStatus;
pub use client::result::ResultStatusAlt;
pub use error::Error;
pub use error::ErrorKind;

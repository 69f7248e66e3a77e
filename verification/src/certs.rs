pub mod csr;
pub mod x509;

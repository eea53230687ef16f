//! Self-signed X.509 certificate generation: a request model, its validation
//! into a certificate plan, and the assembly of certificate, private key and
//! PKCS#12 bundle.

pub mod backend;
pub mod cert;
pub mod config;
pub mod i18n;
pub mod options;
pub mod plan;
pub mod request;
pub mod san;
pub mod subject;
mod text;
pub mod validity;

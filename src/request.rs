use vstd::prelude::*;
use crate::san::SanKind;
use crate::subject::DnField;
use crate::validity::ValidityWindow;

verus! {

/// Key algorithm of the generated key pair, which also fixes the signature
/// algorithm of the self-signature.
#[derive(Debug, Clone, Copy, PartialEq, Eq, Structural)]
pub enum KeyType {
    Rsa,
    Ecdsa,
    Ed25519,
}

/// What a caller asks for: identity, validity, optional subject fields, key
/// algorithm and the PKCS#12 passphrase (empty means no passphrase).
pub struct CertOptions {
    pub cn: String,
    pub sans: Vec<String>,
    pub validity_days: i64,
    pub country: Option<String>,
    pub state: Option<String>,
    pub city: Option<String>,
    pub organization: Option<String>,
    pub org_unit: Option<String>,
    pub key_type: KeyType,
    pub pfx_password: String,
}

/// The produced material: certificate PEM, PKCS#8 private key PEM and the
/// DER-encoded PKCS#12 bundle, with what the certificate holds.
pub struct GeneratedCert {
    pub cert_pem: String,
    pub key_pem: String,
    pub pfx: Vec<u8>,
    /// The subject Name of the certificate, attribute by attribute.
    pub subject: Ghost<Seq<(DnField, Seq<char>)>>,
    /// The subject alternative names of the certificate, in order.
    pub sans: Ghost<Seq<SanKind>>,
    /// The validity period of the certificate.
    pub validity: Ghost<ValidityWindow>,
}

/// A request that cannot be turned into a certificate.
#[derive(Debug, Clone, Copy, PartialEq, Eq, Structural)]
pub enum ValidationError {
    EmptyCommonName,
    NonPositiveValidity,
    /// The validity window reaches before 1970 or past the end of year 9999.
    ValidityOutOfRange,
    /// The subject alternative name at this index is neither an IP literal
    /// nor an IA5 (ASCII) DNS name.
    InvalidSan(usize),
}

/// Failure of a build, by stage.
#[derive(Debug, Clone, Copy, PartialEq, Eq, Structural)]
pub enum CertError {
    /// The request was refused before any key was generated.
    Validation(ValidationError),
    /// The key pair could not be generated.
    KeyGeneration,
    /// The certificate could not be encoded or signed.
    Signing,
    /// PEM or DER encoding failed; the encoders in use cannot fail.
    Serialization,
    /// The PKCS#12 bundle could not be built.
    Packaging,
}

impl CertError {
    /// Whether the request itself was at fault, rather than a later stage.
    pub fn is_validation(&self) -> (r: bool)
        ensures
            r == (*self is Validation),
    {
        match self {
            CertError::Validation(_) => true,
            _ => false,
        }
    }
}

} // verus!

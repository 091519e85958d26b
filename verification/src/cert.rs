//! Certificate data model.
//!
//! A certificate is held as the plain values the trust logic reads: the
//! DER-encoded subject and issuer distinguished names, the CA flag from the
//! basic-constraints extension, and the full DER encoding.  Parsing and
//! signature verification are done by the `x509-cert` and `p256` crates
//! behind trusted wrappers.

use vstd::prelude::*;

use p256::ecdsa::signature::Verifier;
use x509_cert::der::{Decode, DecodePem, Encode, EncodePem};

verus! {

/// Mathematical model of a parsed certificate.
pub struct CertModel {
    pub subject: Seq<u8>,
    pub issuer: Seq<u8>,
    pub is_ca: bool,
    pub der: Seq<u8>,
}

/// A parsed certificate, reduced to the fields the trust logic reads.
pub struct CertData {
    /// DER encoding of the subject distinguished name.
    pub subject_dn: Vec<u8>,
    /// DER encoding of the issuer distinguished name.
    pub issuer_dn: Vec<u8>,
    /// Whether the basic-constraints extension marks this certificate a CA.
    pub is_ca: bool,
    /// The full DER encoding of the certificate.
    pub der: Vec<u8>,
}

impl View for CertData {
    type V = CertModel;

    open spec fn view(&self) -> CertModel {
        CertModel {
            subject: self.subject_dn@,
            issuer: self.issuer_dn@,
            is_ca: self.is_ca,
            der: self.der@,
        }
    }
}

/// What `x509_cert::Certificate::from_der` recovers from a DER encoding:
/// `None` where the bytes do not parse, otherwise the fields of the
/// certificate.  Parsing is a function of the bytes alone.
pub uninterp spec fn cert_of_der(der: Seq<u8>) -> Option<CertModel>;

/// What `x509_cert::Certificate::from_pem` recovers from a PEM string,
/// reduced to the same fields.  A function of the text alone.
pub uninterp spec fn cert_of_pem(pem: Seq<char>) -> Option<CertModel>;

/// What `x509_cert::der::EncodePem::to_pem` produces for a certificate's
/// DER encoding, where the encoding succeeds.
pub uninterp spec fn pem_of_der(der: Seq<u8>) -> Seq<char>;

/// Whether the ECDSA P-256 signature carried by the certificate encoded as
/// `subject_der` verifies under the public key of the certificate encoded
/// as `issuer_der`.  ECDSA verification is deterministic, so this is a
/// function of the two encodings alone.
pub uninterp spec fn sig_verifies(subject_der: Seq<u8>, issuer_der: Seq<u8>) -> bool;

/// Relies on `x509_cert::Certificate::from_der`, `to_der` on the name
/// fields, and `BasicConstraints::from_der`: recovers the fields the trust
/// logic reads from a DER-encoded certificate.
#[verifier::external_body]
pub fn parse_cert_der(der: &Vec<u8>) -> (r: Option<CertData>)
    ensures
        match r {
            Some(c) => cert_of_der(der@) == Some(c@) && c.der@ == der@,
            None => cert_of_der(der@) is None,
        },
{
    let cert = x509_cert::Certificate::from_der(der).ok()?;
    let subject_dn = cert.tbs_certificate.subject.to_der().ok()?;
    let issuer_dn = cert.tbs_certificate.issuer.to_der().ok()?;
    let is_ca = cert.tbs_certificate.extensions.as_ref().and_then(|exts| {
        let bc_oid: x509_cert::der::oid::ObjectIdentifier = "2.5.29.19".parse().ok()?;
        let ext = exts.iter().find(|e| e.extn_id == bc_oid)?;
        let bc = x509_cert::ext::pkix::BasicConstraints::from_der(ext.extn_value.as_bytes()).ok()?;
        Some(bc.ca)
    }).unwrap_or(false);
    Some(CertData { subject_dn, issuer_dn, is_ca, der: der.clone() })
}

/// Relies on `x509_cert::Certificate::from_pem`: parses a PEM-encoded
/// certificate and recovers the same fields as `parse_cert_der`.
#[verifier::external_body]
pub fn parse_cert_pem(pem: &String) -> (r: Option<CertData>)
    ensures
        match r {
            Some(c) => cert_of_pem(pem@) == Some(c@),
            None => cert_of_pem(pem@) is None,
        },
{
    let cert = x509_cert::Certificate::from_pem(pem.as_bytes()).ok()?;
    let subject_dn = cert.tbs_certificate.subject.to_der().ok()?;
    let issuer_dn = cert.tbs_certificate.issuer.to_der().ok()?;
    let der = cert.to_der().ok()?;
    let is_ca = cert.tbs_certificate.extensions.as_ref().and_then(|exts| {
        let bc_oid: x509_cert::der::oid::ObjectIdentifier = "2.5.29.19".parse().ok()?;
        let ext = exts.iter().find(|e| e.extn_id == bc_oid)?;
        Some(x509_cert::ext::pkix::BasicConstraints::from_der(ext.extn_value.as_bytes()).ok()?.ca)
    }).unwrap_or(false);
    Some(CertData { subject_dn, issuer_dn, is_ca, der })
}

/// Relies on `x509_cert::der::EncodePem::to_pem`: re-encodes a parsed
/// certificate as PEM.
#[verifier::external_body]
pub fn encode_cert_pem(c: &CertData) -> (r: Option<String>)
    ensures
        r matches Some(s) ==> s@ == pem_of_der(c.der@),
{
    let cert = x509_cert::Certificate::from_der(&c.der).ok()?;
    cert.to_pem(x509_cert::der::pem::LineEnding::LF).ok()
}

/// Relies on `p256::ecdsa::Signature::from_der`, `VerifyingKey::from_sec1_bytes`
/// and `Verifier::verify`: checks the subject certificate's signature over its
/// to-be-signed encoding under the issuer certificate's public key.
#[verifier::external_body]
pub fn check_signature(subject: &CertData, issuer: &CertData) -> (r: bool)
    ensures
        r == sig_verifies(subject.der@, issuer.der@),
{
    (|| -> Option<()> {
        let subj = x509_cert::Certificate::from_der(&subject.der).ok()?;
        let issu = x509_cert::Certificate::from_der(&issuer.der).ok()?;
        let signature = p256::ecdsa::Signature::from_der(subj.signature.as_bytes()?).ok()?;
        let spki = issu.tbs_certificate.subject_public_key_info.subject_public_key.as_bytes()?;
        let key = p256::ecdsa::VerifyingKey::from_sec1_bytes(spki).ok()?;
        key.verify(&subj.tbs_certificate.to_der().ok()?, &signature).ok()
    })().is_some()
}

/// Byte-for-byte equality of two byte vectors.
pub fn bytes_eq(a: &Vec<u8>, b: &Vec<u8>) -> (r: bool)
    ensures
        r == (a@ == b@),
{
    if a.len() != b.len() {
        return false;
    }
    let n = a.len();
    let mut i: usize = 0;
    while i < n
        invariant
            n == a@.len(),
            n == b@.len(),
            0 <= i <= n,
            forall|k: int| 0 <= k < i ==> a@[k] == b@[k],
        decreases n - i,
    {
        if a[i] != b[i] {
            return false;
        }
        i += 1;
    }
    proof {
        assert(a@ =~= b@);
    }
    true
}

} // verus!

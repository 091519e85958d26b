//! Simplified mdoc verifier.
//!
//! A thin front over the credential engine and the issuer-signature
//! verification of `Mdoc`: parses a stringified credential, extracts its
//! data elements, and — where usable trust anchors are supplied —
//! verifies the issuer against them with intermediate chaining.  Absence
//! of usable anchors is distinct from failed validation: it yields an
//! `Unchecked` issuer status, never `Valid` or `Invalid`, and `valid`
//! asserts trust only on a `Valid` outcome.

use vstd::prelude::*;

use crate::cert::{cert_of_pem, parse_cert_pem};
use crate::engine::parses_as_document;
use crate::mdoc::{Mdoc, KeyAlias, Namespace};
use crate::reader::AuthenticationStatus;

verus! {

/// Verification errors.
#[derive(Debug)]
pub enum VerifierError {
    VerificationFailed(String),
}

/// Simplified verification result.
pub struct VerificationResult {
    /// Whether the credential is trusted: true exactly where the issuer
    /// authentication came out `Valid`.  Structure-only validation — no
    /// usable anchors — never asserts trust.
    pub valid: bool,
    /// The issuer-authentication outcome: `Unchecked` where no usable
    /// anchor was supplied, else `Valid` or `Invalid`.
    pub issuer_authentication: AuthenticationStatus,
    pub doc_type: String,
    /// Element values by namespace and element name.
    pub data: Vec<(String, Vec<(String, String)>)>,
}

/// Simplified mdoc verifier; the credential engine does the parsing.
pub struct MdocVerifier {}

impl MdocVerifier {
    pub fn new() -> MdocVerifier {
        MdocVerifier {  }
    }

    /// Verify an mdoc against dynamically supplied PEM trust anchors.
    /// Anchors that do not parse are skipped, not fatal.  With no usable
    /// anchor the issuer status is `Unchecked` and no trust is asserted;
    /// with at least one, the issuer is verified against them with
    /// intermediate chaining and the status is `Valid` or `Invalid`.
    pub fn verify(&self, mdoc_string: String, trust_anchor_pems: Vec<String>) -> (r: Result<
        VerificationResult,
        VerifierError,
    >)
        ensures
            r is Err <==> !parses_as_document(mdoc_string@),
            r matches Ok(v) ==> (v.valid <==> v.issuer_authentication
                == AuthenticationStatus::Valid),
            r matches Ok(v) ==> ((forall|i: int|
                0 <= i < trust_anchor_pems@.len() ==> cert_of_pem(
                    #[trigger] trust_anchor_pems@[i]@,
                ) is None) ==> v.issuer_authentication == AuthenticationStatus::Unchecked),
            r matches Ok(v) ==> ((exists|i: int|
                0 <= i < trust_anchor_pems@.len() && cert_of_pem(
                    #[trigger] trust_anchor_pems@[i]@,
                ) is Some) ==> v.issuer_authentication != AuthenticationStatus::Unchecked),
    {
        let mdoc = match Mdoc::from_stringified_document(
            mdoc_string,
            KeyAlias("verification".to_string()),
        ) {
            Ok(mdoc) => mdoc,
            Err(e) => {
                return Err(VerifierError::VerificationFailed(init_error_text(&e)));
            }
        };

        // Keep the anchors whose PEM parses; an unparseable anchor is
        // skipped, not fatal.
        let mut usable: Vec<String> = Vec::new();
        let mut i: usize = 0;
        while i < trust_anchor_pems.len()
            invariant
                0 <= i <= trust_anchor_pems@.len(),
                usable@.len() > 0 ==> exists|k: int|
                    0 <= k < i && cert_of_pem(#[trigger] trust_anchor_pems@[k]@) is Some,
                (exists|k: int|
                    0 <= k < i && cert_of_pem(#[trigger] trust_anchor_pems@[k]@) is Some)
                    ==> usable@.len() > 0,
            decreases trust_anchor_pems@.len() - i,
        {
            if parse_cert_pem(&trust_anchor_pems[i]).is_some() {
                usable.push(trust_anchor_pems[i].clone());
            }
            i += 1;
        }

        let (issuer_authentication, is_trusted): (AuthenticationStatus, bool) = if usable.len()
            == 0 {
            // No usable anchors: structure validation only, and no trust
            // is asserted.
            (AuthenticationStatus::Unchecked, false)
        } else {
            match mdoc.verify_issuer_signature(Some(usable), true) {
                Ok(_) => (AuthenticationStatus::Valid, true),
                Err(_) => (AuthenticationStatus::Invalid, false),
            }
        };

        let details = mdoc.details();
        let mut data: Vec<(String, Vec<(String, String)>)> = Vec::new();
        let mut d: usize = 0;
        while d < details.len()
            decreases details.len() - d,
        {
            let (namespace, elements) = &details[d];
            let mut element_map: Vec<(String, String)> = Vec::new();
            let mut j: usize = 0;
            while j < elements.len()
                decreases elements.len() - j,
            {
                let value = match &elements[j].value {
                    Some(value) => value.clone(),
                    None => "null".to_string(),
                };
                element_map.push((elements[j].identifier.clone(), value));
                j += 1;
            }
            let Namespace(name) = namespace;
            data.push((name.clone(), element_map));
            d += 1;
        }
        Ok(VerificationResult {
            valid: is_trusted,
            issuer_authentication,
            doc_type: mdoc.doctype(),
            data,
        })
    }

    /// Verify without trust anchors: structure validation only.  The
    /// issuer status is `Unchecked` and no trust is asserted.
    pub fn verify_structure_only(&self, mdoc_string: String) -> (r: Result<
        VerificationResult,
        VerifierError,
    >)
        ensures
            r is Err <==> !parses_as_document(mdoc_string@),
            r matches Ok(v) ==> v.issuer_authentication == AuthenticationStatus::Unchecked
                && v.valid == false,
    {
        self.verify(mdoc_string, Vec::new())
    }

    /// Convenience method for a single trust anchor.
    pub fn verify_with_single_anchor(
        &self,
        mdoc_string: String,
        trust_anchor_pem: String,
    ) -> (r: Result<VerificationResult, VerifierError>)
        ensures
            r is Err <==> !parses_as_document(mdoc_string@),
            r matches Ok(v) ==> (v.valid <==> v.issuer_authentication
                == AuthenticationStatus::Valid),
    {
        let mut anchors: Vec<String> = Vec::new();
        anchors.push(trust_anchor_pem);
        self.verify(mdoc_string, anchors)
    }
}

/// A short text for a construction error.
pub fn init_error_text(e: &crate::mdoc::MdocInitError) -> (r: String)
{
    match e {
        crate::mdoc::MdocInitError::DocumentCborDecoding(msg) => msg.clone(),
        crate::mdoc::MdocInitError::IssuerSignedBase64UrlDecoding => "failed to decode base64url".to_string(),
        crate::mdoc::MdocInitError::IssuerSignedCborDecoding => "failed to decode IssuerSigned from CBOR".to_string(),
        crate::mdoc::MdocInitError::IssuerAuthPayloadMissing => "IssuerAuth CoseSign1 has no payload".to_string(),
        crate::mdoc::MdocInitError::IssuerAuthPayloadDecoding => "failed to decode IssuerAuth payload as an MSO".to_string(),
        crate::mdoc::MdocInitError::KeyAliasMissing => "a key alias is required".to_string(),
        crate::mdoc::MdocInitError::NamespacesMissing => "IssuerSigned did not contain namespaces".to_string(),
        crate::mdoc::MdocInitError::DocumentUtf8Decoding => "failed to decode Document from UTF-8 string".to_string(),
        crate::mdoc::MdocInitError::InvalidJwk => "failed to parse JWK".to_string(),
        crate::mdoc::MdocInitError::GeneralConstructionError => "failed to construct mdoc".to_string(),
    }
}

} // verus!

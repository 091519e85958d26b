//! The simplest mDL verification API.
//!
//! One call in, one JSON string out.  Issuance, the counterpart of this
//! surface, needs the issuance side of the credential engine and lives
//! outside the verified library.

use vstd::prelude::*;

use crate::engine::{parses_as_document, simple_verification_json, string_eq};
use crate::verification::MdocVerifier;

verus! {

/// Simple-API errors.
#[derive(Debug)]
pub enum MdlError {
    InvalidData(String),
    IssuerError(String),
    VerifierError(String),
    JsonError(String),
}

/// The simplest mDL verification front.
pub struct SimpleMdl {}

impl SimpleMdl {
    pub fn new() -> SimpleMdl {
        SimpleMdl {  }
    }

    /// Verify an mDL against trust anchors and render the outcome as JSON:
    /// the validity flag (true exactly where the issuer verified against a
    /// usable anchor), the document type, and the data elements of the mDL
    /// namespace.  The call fails exactly where the credential does not
    /// parse.
    pub fn verify_to_json(&self, mdl_string: String, trust_anchor_pems: Vec<String>) -> (r: Result<
        String,
        MdlError,
    >)
        ensures
            r is Err <==> !parses_as_document(mdl_string@),
            r matches Err(e) ==> e matches MdlError::VerifierError(_),
    {
        let verifier = MdocVerifier::new();
        let result = match verifier.verify(mdl_string, trust_anchor_pems) {
            Ok(result) => result,
            Err(e) => {
                return Err(MdlError::VerifierError(verifier_error_text(&e)));
            }
        };
        let mut mdl_data: Option<&Vec<(String, String)>> = None;
        let mut i: usize = 0;
        while i < result.data.len()
            decreases result.data.len() - i,
        {
            if string_eq(&result.data[i].0, "org.iso.18013.5.1") {
                mdl_data = Some(&result.data[i].1);
            }
            i += 1;
        }
        match simple_verification_json(result.valid, &result.doc_type, mdl_data) {
            Ok(json) => Ok(json),
            Err(value) => Err(MdlError::JsonError(value)),
        }
    }

    /// Verify without trust anchors: structure validation only.  The
    /// rendered validity flag is false: no trust is asserted without
    /// anchors.
    pub fn verify_structure_to_json(&self, mdl_string: String) -> (r: Result<String, MdlError>)
        ensures
            r is Err <==> !parses_as_document(mdl_string@),
            r matches Err(e) ==> e matches MdlError::VerifierError(_),
    {
        self.verify_to_json(mdl_string, Vec::new())
    }
}

/// A short text for a verifier error.
fn verifier_error_text(e: &crate::verification::VerifierError) -> (r: String)
{
    match e {
        crate::verification::VerifierError::VerificationFailed(msg) => msg.clone(),
    }
}

} // verus!

//! The holder's credential: an issuer-signed mobile document.
//!
//! The document itself is engine data; this module holds it together with
//! the key alias under which the holder's device key is stored, and
//! verifies the issuer's signature over it, optionally walking the
//! certificate chain embedded in its header through the trust-chain
//! resolver.

use vstd::prelude::*;

use crate::cert::{CertData, CertModel, encode_cert_pem, parse_cert_der, parse_cert_pem};
use crate::engine::{
    base64url_decode, base64url_decoded, document_assemble, document_details, document_doctype,
    document_from_cbor, document_id, document_index_namespaces, document_json, document_parse,
    document_stringify, document_x5chain, issuer_auth_verify, issuer_signed_of_document,
    issuer_signed_parse, parses_as_document, parses_as_document_cbor, parses_as_issuer_signed,
    registry_from_pems, validate_chain_mdl, x5chain_common_name, x5chain_entries,
};
use crate::resolver::{certs_view, chain_trusted, resolve_trust_chain};

verus! {

/// A namespace for mdoc data elements.
#[derive(Debug, Clone, Hash, PartialEq, Eq, PartialOrd, Ord)]
pub struct Namespace(pub String);

/// The alias under which the holder's device key is stored.
#[derive(Debug, Clone)]
pub struct KeyAlias(pub String);

/// Simple representation of an mdoc data element.
#[derive(Debug, Clone)]
pub struct Element {
    /// Name of the data element.
    pub identifier: String,
    /// JSON representation of the data element, missing if the value
    /// cannot be represented as JSON.
    pub value: Option<String>,
}

/// Construction errors.
#[derive(Debug)]
pub enum MdocInitError {
    DocumentCborDecoding(String),
    IssuerSignedBase64UrlDecoding,
    IssuerSignedCborDecoding,
    IssuerAuthPayloadMissing,
    IssuerAuthPayloadDecoding,
    KeyAliasMissing,
    NamespacesMissing,
    DocumentUtf8Decoding,
    InvalidJwk,
    GeneralConstructionError,
}

/// Serialization errors.
#[derive(Debug)]
pub enum MdocEncodingError {
    DocumentCborEncoding,
    SerializationError,
}

/// Issuer-signature verification errors.
#[derive(Debug)]
pub enum MdocVerificationError {
    /// The issuer-auth header carries no certificate chain.
    X5ChainMissing,
    X5ChainParsing(String),
    TrustAnchorRegistryError(String),
    /// The chain was rejected against the trust anchors.
    X5ChainValidationFailed(String),
    /// The issuer's signature did not verify.
    IssuerAuthFailed(String),
}

/// Result of issuer signature verification.
#[derive(Debug, Clone)]
pub struct IssuerVerificationResult {
    /// Whether the issuer signature was successfully verified.
    pub verified: bool,
    /// Common name from the issuer certificate, if available.
    pub common_name: Option<String>,
    /// Error message if verification failed.
    pub error: Option<String>,
}

/// An issuer-signed mobile document together with its key alias.
pub struct Mdoc {
    inner: isomdl::presentation::device::Document,
    key_alias: KeyAlias,
}

impl Mdoc {
    /// The engine's document.
    pub(crate) fn document(&self) -> &isomdl::presentation::device::Document {
        &self.inner
    }

    pub(crate) fn new_from_parts(
        inner: isomdl::presentation::device::Document,
        key_alias: KeyAlias,
    ) -> Mdoc {
        Mdoc { inner, key_alias }
    }

    /// Construct an mdoc from a base64url-encoded issuer-signed credential.
    /// Reports a base64url decoding error exactly where the text is not
    /// valid base64url, and a CBOR decoding error exactly where the
    /// decoded bytes are not an issuer-signed credential.
    pub fn new_from_base64url_encoded_issuer_signed(
        base64url_encoded_issuer_signed: String,
        key_alias: KeyAlias,
    ) -> (r: Result<Mdoc, MdocInitError>)
        ensures
            r matches Err(MdocInitError::IssuerSignedBase64UrlDecoding) <==> base64url_decoded(
                base64url_encoded_issuer_signed@,
            ) is None,
            base64url_decoded(base64url_encoded_issuer_signed@) matches Some(b) ==> ((r matches Err(
                MdocInitError::IssuerSignedCborDecoding,
            )) <==> !parses_as_issuer_signed(b)),
    {
        let bytes = match base64url_decode(&base64url_encoded_issuer_signed) {
            Some(bytes) => bytes,
            None => {
                return Err(MdocInitError::IssuerSignedBase64UrlDecoding);
            }
        };
        let issuer_signed = match issuer_signed_parse(&bytes) {
            Ok(issuer_signed) => issuer_signed,
            Err(e) => {
                return Err(e);
            }
        };
        let namespaces = match document_index_namespaces(&issuer_signed) {
            Ok(namespaces) => namespaces,
            Err(e) => {
                return Err(e);
            }
        };
        match document_assemble(issuer_signed, namespaces) {
            Ok(inner) => Ok(Mdoc { inner, key_alias }),
            Err(e) => Err(e),
        }
    }

    /// Construct an mdoc from a stringified document.  Fails with a
    /// decoding error exactly where the engine refuses the text.
    pub fn from_stringified_document(
        stringified_document: String,
        key_alias: KeyAlias,
    ) -> (r: Result<Mdoc, MdocInitError>)
        ensures
            r is Err <==> !parses_as_document(stringified_document@),
            r matches Err(e) ==> e matches MdocInitError::DocumentUtf8Decoding,
    {
        match document_parse(&stringified_document) {
            Ok(inner) => Ok(Mdoc { inner, key_alias }),
            Err(_) => Err(MdocInitError::DocumentUtf8Decoding),
        }
    }

    /// Construct an mdoc from a stringified document with a default key
    /// alias, for callers to whom the alias is not critical.
    pub fn from_string(stringified_document: String) -> (r: Result<Mdoc, MdocInitError>)
        ensures
            r is Err <==> !parses_as_document(stringified_document@),
            r matches Err(e) ==> e matches MdocInitError::DocumentUtf8Decoding,
    {
        match document_parse(&stringified_document) {
            Ok(inner) => Ok(Mdoc { inner, key_alias: KeyAlias("parsed".to_string()) }),
            Err(_) => Err(MdocInitError::DocumentUtf8Decoding),
        }
    }

    /// Construct an mdoc from a CBOR-encoded document.  Fails with a
    /// decoding error exactly where the engine refuses the bytes.
    pub fn from_cbor_encoded_document(
        cbor_encoded_document: Vec<u8>,
        key_alias: KeyAlias,
    ) -> (r: Result<Mdoc, MdocInitError>)
        ensures
            r is Err <==> !parses_as_document_cbor(cbor_encoded_document@),
            r matches Err(e) ==> e matches MdocInitError::DocumentCborDecoding(_),
    {
        match document_from_cbor(&cbor_encoded_document) {
            Ok(inner) => Ok(Mdoc { inner, key_alias }),
            Err(e) => Err(MdocInitError::DocumentCborDecoding(e)),
        }
    }

    /// The local ID of this credential.
    pub fn id(&self) -> u128 {
        document_id(&self.inner)
    }

    /// The document type of this mdoc, for example `org.iso.18013.5.1.mDL`.
    pub fn doctype(&self) -> String {
        document_doctype(&self.inner)
    }

    /// Simple representation of the mdoc namespaces and data elements,
    /// converted from the engine's listing without loss or reordering.
    pub fn details(&self) -> (r: Vec<(Namespace, Vec<Element>)>)
    {
        convert_details(document_details(&self.inner))
    }

    /// The alias of the key this credential is bound to.
    pub fn key_alias(&self) -> KeyAlias {
        self.key_alias.clone()
    }

    /// Serialize as JSON.
    pub fn json(&self) -> (r: Result<String, MdocEncodingError>)
    {
        match document_json(&self.inner) {
            Ok(s) => Ok(s),
            Err(_) => Err(MdocEncodingError::SerializationError),
        }
    }

    /// Serialize to the portable string form.
    pub fn stringify(&self) -> (r: Result<String, MdocEncodingError>)
    {
        match document_stringify(&self.inner) {
            Ok(s) => Ok(s),
            Err(_) => Err(MdocEncodingError::SerializationError),
        }
    }

    /// Verify the issuer signature of this credential.
    ///
    /// The certificate chain is taken from the issuer-auth header.  With
    /// trust anchors supplied, the chain is validated against them first —
    /// expanded through the trust-chain resolver where intermediate
    /// chaining is enabled — and a validation failure is reported before
    /// any signature check.  Without anchors (or with an empty list) no
    /// chain validation happens and only the signature itself decides, so
    /// neither a registry error nor a validation failure can be reported.
    pub fn verify_issuer_signature(
        &self,
        trust_anchors: Option<Vec<String>>,
        use_intermediate_chaining: bool,
    ) -> (r: Result<IssuerVerificationResult, MdocVerificationError>)
        ensures
            r matches Ok(v) ==> v.verified == true && v.error is None,
            (match trust_anchors {
                Some(anchors) => anchors@.len() == 0,
                None => true,
            }) ==> !(r matches Err(MdocVerificationError::TrustAnchorRegistryError(_)))
                && !(r matches Err(MdocVerificationError::X5ChainValidationFailed(_))),
    {
        let x5chain = match document_x5chain(&self.inner) {
            Ok(x5chain) => x5chain,
            Err(e) => {
                return Err(e);
            }
        };
        let common_name = Some(x5chain_common_name(&x5chain));

        let has_anchors = match &trust_anchors {
            Some(anchors) => anchors.len() > 0,
            None => false,
        };
        if has_anchors {
            let anchors = match trust_anchors {
                Some(anchors) => anchors,
                None => Vec::new(),
            };
            let mut pem_anchors: Vec<String> = Vec::new();
            let mut i: usize = 0;
            while i < anchors.len()
                decreases anchors.len() - i,
            {
                pem_anchors.push(anchors[i].clone());
                i += 1;
            }
            if use_intermediate_chaining {
                let entries = x5chain_entries(&x5chain);
                let (expanded, _trusted_models) = expand_anchor_pems(&entries, &anchors);
                let mut k: usize = 0;
                while k < expanded.len()
                    decreases expanded.len() - k,
                {
                    pem_anchors.push(expanded[k].clone());
                    k += 1;
                }
            }
            let registry = match registry_from_pems(&pem_anchors) {
                Ok(registry) => registry,
                Err(e) => {
                    return Err(MdocVerificationError::TrustAnchorRegistryError(e));
                }
            };
            match validate_chain_mdl(&x5chain, &registry) {
                Some(errors) => {
                    return Err(MdocVerificationError::X5ChainValidationFailed(errors));
                }
                None => {}
            }
        }

        let issuer_signed = match issuer_signed_of_document(&self.inner) {
            Ok(issuer_signed) => issuer_signed,
            Err(e) => {
                return Err(MdocVerificationError::IssuerAuthFailed(e));
            }
        };
        match issuer_auth_verify(&x5chain, &issuer_signed) {
            Ok(()) => Ok(IssuerVerificationResult { verified: true, common_name, error: None }),
            Err(e) => Err(MdocVerificationError::IssuerAuthFailed(e)),
        }
    }
}

/// The models of the certificates that parse among the DER chain entries,
/// in order; entries that are not byte strings or do not parse are
/// skipped.
pub open spec fn der_entry_models(entries: Seq<Option<Vec<u8>>>) -> Seq<CertModel>
    decreases entries.len(),
{
    if entries.len() == 0 {
        Seq::empty()
    } else {
        let rest = der_entry_models(entries.drop_last());
        match entries.last() {
            Some(der) => match crate::cert::cert_of_der(der@) {
                Some(m) => rest.push(m),
                None => rest,
            },
            None => rest,
        }
    }
}

/// The models of the anchors that parse among the PEM texts, in order;
/// texts that do not parse are skipped.
pub open spec fn pem_anchor_models(pems: Seq<String>) -> Seq<CertModel>
    decreases pems.len(),
{
    if pems.len() == 0 {
        Seq::empty()
    } else {
        let rest = pem_anchor_models(pems.drop_last());
        match crate::cert::cert_of_pem(pems.last()@) {
            Some(m) => rest.push(m),
            None => rest,
        }
    }
}

/// Convert a plain namespace listing into the library's element
/// representation: one entry per namespace, in order, each element's
/// identifier and value carried over unchanged (`None` where the engine
/// could not render the value as JSON).
pub fn convert_details(raw: Vec<(String, Vec<(String, Option<String>)>)>) -> (r: Vec<
    (Namespace, Vec<Element>),
>)
    ensures
        r@.len() == raw@.len(),
        forall|i: int|
            #![trigger r@[i]]
            0 <= i < raw@.len() ==> r@[i].0 == Namespace(raw@[i].0) && r@[i].1@.len()
                == raw@[i].1@.len() && (forall|j: int|
                #![trigger r@[i].1@[j]]
                0 <= j < raw@[i].1@.len() ==> r@[i].1@[j].identifier == raw@[i].1@[j].0
                    && r@[i].1@[j].value == raw@[i].1@[j].1),
{
    let ghost raw0 = raw@;
    let mut raw = raw;
    let mut out: Vec<(Namespace, Vec<Element>)> = Vec::new();
    while raw.len() > 0
        invariant
            out@.len() + raw@.len() == raw0.len(),
            raw@ == raw0.subrange(out@.len() as int, raw0.len() as int),
            forall|i: int|
                #![trigger out@[i]]
                0 <= i < out@.len() ==> out@[i].0 == Namespace(raw0[i].0) && out@[i].1@.len()
                    == raw0[i].1@.len() && (forall|j: int|
                    #![trigger out@[i].1@[j]]
                    0 <= j < raw0[i].1@.len() ==> out@[i].1@[j].identifier == raw0[i].1@[j].0
                        && out@[i].1@[j].value == raw0[i].1@[j].1),
        decreases raw@.len(),
    {
        let ghost k = out@.len() as int;
        proof {
            assert(raw@[0] == raw0[k]);
        }
        let (namespace, elements) = raw.remove(0);
        proof {
            assert(raw@ =~= raw0.subrange(k + 1, raw0.len() as int));
        }
        let ghost elems0 = elements@;
        let mut elements = elements;
        let mut converted: Vec<Element> = Vec::new();
        while elements.len() > 0
            invariant
                converted@.len() + elements@.len() == elems0.len(),
                elements@ == elems0.subrange(converted@.len() as int, elems0.len() as int),
                forall|j: int|
                    #![trigger converted@[j]]
                    0 <= j < converted@.len() ==> converted@[j].identifier == elems0[j].0
                        && converted@[j].value == elems0[j].1,
            decreases elements@.len(),
        {
            let ghost c = converted@.len() as int;
            proof {
                assert(elements@[0] == elems0[c]);
            }
            let (identifier, value) = elements.remove(0);
            proof {
                assert(elements@ =~= elems0.subrange(c + 1, elems0.len() as int));
            }
            converted.push(Element { identifier, value });
        }
        out.push((Namespace(namespace), converted));
    }
    proof {
        assert(raw0.subrange(raw0.len() as int, raw0.len() as int) =~= Seq::<(
            String,
            Vec<(String, Option<String>)>,
        )>::empty());
    }
    out
}

/// Expand the supplied anchors by the chain-trusted CA certificates among
/// the header entries, handing back the PEM encodings of the newly
/// promoted certificates together with the model of the certificate each
/// encodes.  Entries that are not byte strings, bytes that do not parse,
/// and anchors that do not parse are skipped, not fatal.  Every
/// certificate handed back is chain-trusted: it is reachable from the
/// parsed anchors through valid CA links within the parsed entries.
pub fn expand_anchor_pems(entries: &Vec<Option<Vec<u8>>>, anchor_pems: &Vec<String>) -> (r: (
    Vec<String>,
    Ghost<Seq<CertModel>>,
))
    ensures
        r.1@.len() == r.0@.len(),
        forall|k: int| 0 <= k < r.0@.len() ==> chain_trusted(
            der_entry_models(entries@),
            pem_anchor_models(anchor_pems@),
            #[trigger] r.1@[k],
        ) && r.0@[k]@ == crate::cert::pem_of_der(r.1@[k].der),
{
    let ghost chain_m = der_entry_models(entries@);
    let ghost anchors_m = pem_anchor_models(anchor_pems@);
    let mut candidates: Vec<CertData> = Vec::new();
    let mut i: usize = 0;
    while i < entries.len()
        invariant
            0 <= i <= entries@.len(),
            certs_view(candidates@) == der_entry_models(entries@.take(i as int)),
        decreases entries.len() - i,
    {
        let ghost pre = candidates@;
        match &entries[i] {
            Some(der) => {
                match parse_cert_der(der) {
                    Some(cert) => {
                        candidates.push(cert);
                    }
                    None => {}
                }
            }
            None => {}
        }
        proof {
            assert(entries@.take(i + 1).drop_last() =~= entries@.take(i as int));
            assert(entries@.take(i + 1).last() == entries@[i as int]);
            assert(certs_view(candidates@) =~= der_entry_models(entries@.take(i + 1)));
        }
        i += 1;
    }
    proof {
        assert(entries@.take(entries@.len() as int) =~= entries@);
    }
    let mut anchors: Vec<CertData> = Vec::new();
    let mut j: usize = 0;
    while j < anchor_pems.len()
        invariant
            0 <= j <= anchor_pems@.len(),
            certs_view(anchors@) == pem_anchor_models(anchor_pems@.take(j as int)),
        decreases anchor_pems.len() - j,
    {
        match parse_cert_pem(&anchor_pems[j]) {
            Some(cert) => {
                anchors.push(cert);
            }
            None => {}
        }
        proof {
            assert(anchor_pems@.take(j + 1).drop_last() =~= anchor_pems@.take(j as int));
            assert(anchor_pems@.take(j + 1).last() == anchor_pems@[j as int]);
            assert(certs_view(anchors@) =~= pem_anchor_models(anchor_pems@.take(j + 1)));
        }
        j += 1;
    }
    proof {
        assert(anchor_pems@.take(anchor_pems@.len() as int) =~= anchor_pems@);
    }
    let anchor_count = anchors.len();
    let resolved = resolve_trust_chain(candidates, anchors);
    proof {
        assert forall|t: int| 0 <= t < resolved@.len() implies chain_trusted(
            chain_m,
            anchors_m,
            #[trigger] resolved@[t]@,
        ) by {
            assert(certs_view(resolved@)[t] == resolved@[t]@);
            assert(certs_view(resolved@).contains(resolved@[t]@));
        }
    }
    let mut out: Vec<String> = Vec::new();
    let ghost mut witnesses: Seq<CertModel> = Seq::empty();
    let mut k: usize = anchor_count;
    while k < resolved.len()
        invariant
            forall|t: int| 0 <= t < resolved@.len() ==> chain_trusted(
                chain_m,
                anchors_m,
                #[trigger] resolved@[t]@,
            ),
            chain_m == der_entry_models(entries@),
            anchors_m == pem_anchor_models(anchor_pems@),
            witnesses.len() == out@.len(),
            forall|t: int| 0 <= t < out@.len() ==> chain_trusted(
                chain_m,
                anchors_m,
                #[trigger] witnesses[t],
            ) && out@[t]@ == crate::cert::pem_of_der(witnesses[t].der),
        decreases resolved.len() - k,
    {
        match encode_cert_pem(&resolved[k]) {
            Some(pem) => {
                proof {
                    assert(pem@ == crate::cert::pem_of_der(resolved@[k as int]@.der));
                    witnesses = witnesses.push(resolved@[k as int]@);
                }
                out.push(pem);
            }
            None => {}
        }
        k += 1;
    }
    (out, Ghost(witnesses))
}

} // verus!

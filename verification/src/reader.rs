//! Reader-side presentation session and the OID4VP redirect verifier.
//!
//! The proximity flow is a single round trip: `establish_session` parses
//! the holder's engagement and builds the encrypted request,
//! `handle_response` decrypts the response and reports the two
//! authentication outcomes.  `verify_oid4vp_response` is the stateless
//! redirect variant: it binds both checks to the fixed OID4VP transcript
//! instead of a BLE-derived one.  Each authentication status is decided
//! independently; a failed check degrades the status and never aborts the
//! call, and absent input material yields `Unchecked`, never `Valid` or
//! `Invalid`.

use vstd::prelude::*;

use std::collections::HashMap;

use crate::engine::{
    build_request_namespaces, device_key_coordinates, device_namespaces_bytes,
    device_signature_check,
    error_map_json, first_central_uuid, issuer_auth_verify, json_object_to_items,
    mdl_response_extracts, outcome_error_entries, outcome_namespaces, outcome_statuses,
    parse_mdl_response, parses_as_device_response, raw_entries_json, reader_establish,
    reader_handle_response, registry_accepts, registry_from_pems, response_doc_type,
    response_issuer_signed, sec1_point_from_compressed, sec1_point_from_coordinates,
    sha256_digest, sha256_of, string_eq, utf8_bytes, utf8_of, validate_chain_mdl, x5chain_entries,
};
use crate::mdoc::expand_anchor_pems;
use crate::transcript::{encode_device_auth_payload, encode_handover, oid4vp_transcript_spec};

verus! {

/// Outcome of an authentication check.  `Unchecked` means the required
/// input material was absent; it is never used for a check that ran and
/// was inconclusive.
#[derive(Debug, Clone, Copy, PartialEq, Eq, Structural)]
pub enum AuthenticationStatus {
    Valid,
    Invalid,
    Unchecked,
}

/// A value of a returned data element.
#[derive(Debug)]
pub enum MDocItem {
    Text(String),
    Bool(bool),
    Integer(i64),
    ItemMap(Vec<(String, MDocItem)>),
    Array(Vec<MDocItem>),
}

/// Session-establishment and redirect-verification errors.
#[derive(Debug)]
pub enum MDLReaderSessionError {
    Generic { value: String },
}

impl MDLReaderSessionError {
    /// The error's message.
    pub fn message(&self) -> (r: String)
        ensures
            self matches MDLReaderSessionError::Generic { value } ==> r@ == value@,
    {
        match self {
            MDLReaderSessionError::Generic { value } => value.clone(),
        }
    }
}

/// The reader's live session, together with whether trust anchors were
/// supplied at establishment: absence of anchors must later collapse the
/// issuer status to `Unchecked`, so the fact is recorded here.
pub struct MDLSessionManager {
    pub(crate) inner: isomdl::presentation::reader::SessionManager,
    anchors_supplied: bool,
}

impl MDLSessionManager {
    /// Whether trust anchors were supplied when the session was
    /// established.
    pub closed spec fn spec_anchors_supplied(&self) -> bool {
        self.anchors_supplied
    }
}

/// What `establish_session` hands back: the session, the encrypted request
/// and the transport identifiers.
pub struct MDLReaderSessionData {
    pub state: MDLSessionManager,
    /// The central-client transport identifier the holder advertised.
    pub uuid: u128,
    pub request: Vec<u8>,
    /// The BLE identification value.
    pub ble_ident: Vec<u8>,
}

/// Response-processing errors.
#[derive(Debug, PartialEq)]
pub enum MDLReaderResponseError {
    InvalidDecryption,
    InvalidParsing,
    InvalidIssuerAuthentication,
    InvalidDeviceAuthentication,
    Generic { value: String },
}

/// The processed response of a proximity exchange.
pub struct MDLReaderResponseData {
    pub state: MDLSessionManager,
    /// The namespaces of the mDL, without top-level document types.
    pub verified_response: Vec<(String, Vec<(String, MDocItem)>)>,
    /// Outcome of issuer authentication.
    pub issuer_authentication: AuthenticationStatus,
    /// Outcome of device authentication.
    pub device_authentication: AuthenticationStatus,
    /// Errors that occurred during response processing.
    pub errors: Option<String>,
}

impl MDLReaderResponseData {
    /// The returned elements by namespace.
    pub fn verified_response(&self) -> &Vec<(String, Vec<(String, MDocItem)>)> {
        &self.verified_response
    }
}

/// Serialization errors for processed responses.
#[derive(Debug)]
pub enum MDLReaderResponseSerializeError {
    Generic { value: String },
}

/// The outcome of a redirect-flow verification.
pub struct MDLReaderVerifiedData {
    pub verified_response: Vec<(String, Vec<(String, MDocItem)>)>,
    pub issuer_authentication: AuthenticationStatus,
    pub device_authentication: AuthenticationStatus,
    pub errors: Option<String>,
}

/// OID4VP handover: the client-id hash, the response-uri hash, and the
/// nonce.
pub struct OID4VPHandover(pub Vec<u8>, pub Vec<u8>, pub String);

/// OID4VP session transcript: no device engagement, no reader key, only
/// the handover.
pub struct OID4VPSessionTranscript(pub Option<()>, pub Option<()>, pub OID4VPHandover);

impl OID4VPHandover {
    /// Build the handover for one exchange: the first two fields are the
    /// SHA-256 digests of the client id and the response URI, byte for
    /// byte, and the third is the nonce.
    pub fn new(client_id: &String, response_uri: &String, nonce: &String) -> (r: OID4VPHandover)
        ensures
            r.0@ == sha256_of(utf8_of(client_id@)),
            r.1@ == sha256_of(utf8_of(response_uri@)),
            r.0@.len() == 32,
            r.1@.len() == 32,
            r.2@ == nonce@,
    {
        let cid_hash = sha256_digest(&utf8_bytes(client_id));
        let uri_hash = sha256_digest(&utf8_bytes(response_uri));
        OID4VPHandover(cid_hash, uri_hash, nonce.clone())
    }
}

impl OID4VPSessionTranscript {
    /// Build the transcript for one exchange: both leading elements are
    /// absent by construction.
    pub fn new(client_id: &String, response_uri: &String, nonce: &String) -> (r:
        OID4VPSessionTranscript)
        ensures
            r.0 is None && r.1 is None,
            r.2.0@ == sha256_of(utf8_of(client_id@)),
            r.2.1@ == sha256_of(utf8_of(response_uri@)),
            r.2.0@.len() == 32,
            r.2.1@.len() == 32,
            r.2.2@ == nonce@,
    {
        OID4VPSessionTranscript(None, None, OID4VPHandover::new(client_id, response_uri, nonce))
    }

    /// The transcript's CBOR encoding: `[null, null, handover]`.
    pub fn encode(&self) -> (r: Vec<u8>)
        ensures
            r@ == seq![0x83u8, 0xF6u8, 0xF6u8] + crate::transcript::handover_spec(
                self.2.0@,
                self.2.1@,
                utf8_of(self.2.2@),
            ),
    {
        let nonce_utf8 = utf8_bytes(&self.2.2);
        let handover = encode_handover(&self.2.0, &self.2.1, &nonce_utf8);
        let mut out: Vec<u8> = Vec::new();
        out.push(0x83);
        out.push(0xF6);
        out.push(0xF6);
        crate::transcript::extend_bytes(&mut out, &handover);
        proof {
            assert(out@ =~= seq![0x83u8, 0xF6u8, 0xF6u8] + crate::transcript::handover_spec(
                self.2.0@,
                self.2.1@,
                utf8_of(self.2.2@),
            ));
        }
        out
    }
}

/// The OID4VP transcript bytes for one exchange: the CBOR encoding of
/// `[null, null, [SHA-256(clientId), SHA-256(responseUri), nonce]]`.
pub fn oid4vp_transcript_bytes(client_id: &String, response_uri: &String, nonce: &String) -> (r:
    Vec<u8>)
    ensures
        r@ == oid4vp_transcript_spec(utf8_of(client_id@), utf8_of(response_uri@), utf8_of(nonce@)),
{
    let transcript = OID4VPSessionTranscript::new(client_id, response_uri, nonce);
    let encoded = transcript.encode();
    proof {
        assert(encoded@ =~= oid4vp_transcript_spec(
            utf8_of(client_id@),
            utf8_of(response_uri@),
            utf8_of(nonce@),
        ));
    }
    encoded
}

/// Pick the transport identifier from what the holder advertised: the
/// first advertised identifier, and a deterministic failure where the
/// holder advertised none.
pub fn select_central_client(advertised: Option<u128>) -> (r: Result<u128, MDLReaderSessionError>)
    ensures
        advertised matches Some(u) ==> r matches Ok(x) && x == u,
        advertised is None ==> r is Err,
{
    match advertised {
        Some(uuid) => Ok(uuid),
        None => Err(MDLReaderSessionError::Generic {
            value: "the device did not transmit a central client uuid".to_string(),
        }),
    }
}

/// Decide the issuer-authentication status.  Absent anchors collapse to
/// `Unchecked` — absence of anchors is distinct from failed validation —
/// and with anchors present the chain validation and the signature check
/// must both pass.
pub fn decide_issuer_status(anchors_supplied: bool, chain_valid: bool, signature_ok: bool) -> (r:
    AuthenticationStatus)
    ensures
        !anchors_supplied ==> r == AuthenticationStatus::Unchecked,
        anchors_supplied && chain_valid && signature_ok ==> r == AuthenticationStatus::Valid,
        anchors_supplied && !(chain_valid && signature_ok) ==> r == AuthenticationStatus::Invalid,
{
    if !anchors_supplied {
        AuthenticationStatus::Unchecked
    } else if chain_valid && signature_ok {
        AuthenticationStatus::Valid
    } else {
        AuthenticationStatus::Invalid
    }
}

/// Decide the device-authentication status: the material is always
/// present in a parsed response, so the signature outcome alone decides
/// and `Unchecked` never appears.
pub fn decide_device_status(signature_ok: bool) -> (r: AuthenticationStatus)
    ensures
        r == (if signature_ok {
            AuthenticationStatus::Valid
        } else {
            AuthenticationStatus::Invalid
        }),
        r != AuthenticationStatus::Unchecked,
{
    if signature_ok {
        AuthenticationStatus::Valid
    } else {
        AuthenticationStatus::Invalid
    }
}

/// The verified data assembled from its parts.
pub open spec fn assembled_data(
    items: Vec<(String, Vec<(String, MDocItem)>)>,
    issuer: AuthenticationStatus,
    device_ok: bool,
    errors: Option<String>,
) -> MDLReaderVerifiedData {
    MDLReaderVerifiedData {
        verified_response: items,
        issuer_authentication: issuer,
        device_authentication: if device_ok {
            AuthenticationStatus::Valid
        } else {
            AuthenticationStatus::Invalid
        },
        errors,
    }
}

/// Assemble the outcome of a redirect verification.
pub fn assemble_verified_data(
    items: Vec<(String, Vec<(String, MDocItem)>)>,
    issuer: AuthenticationStatus,
    device_ok: bool,
    errors: Option<String>,
) -> (r: MDLReaderVerifiedData)
    ensures
        r == assembled_data(items, issuer, device_ok, errors),
{
    MDLReaderVerifiedData {
        verified_response: items,
        issuer_authentication: issuer,
        device_authentication: decide_device_status(device_ok),
        errors,
    }
}

/// Law: the device-signature outcome decides the device-authentication
/// status alone.  Two verifications that differ only in that outcome
/// yield the same elements, the same issuer status and the same errors,
/// and flip the device status between `Valid` and `Invalid`.
pub proof fn lemma_device_outcome_isolated(
    items: Vec<(String, Vec<(String, MDocItem)>)>,
    issuer: AuthenticationStatus,
    errors: Option<String>,
)
    ensures
        assembled_data(items, issuer, true, errors).verified_response == assembled_data(
            items,
            issuer,
            false,
            errors,
        ).verified_response,
        assembled_data(items, issuer, true, errors).issuer_authentication == assembled_data(
            items,
            issuer,
            false,
            errors,
        ).issuer_authentication,
        assembled_data(items, issuer, true, errors).errors == assembled_data(
            items,
            issuer,
            false,
            errors,
        ).errors,
        assembled_data(items, issuer, true, errors).device_authentication
            == AuthenticationStatus::Valid,
        assembled_data(items, issuer, false, errors).device_authentication
            == AuthenticationStatus::Invalid,
{
}

/// Render collected check errors: `None` exactly when no error was
/// collected, else the JSON object mapping each check name to its
/// one-element message list.
pub fn render_check_errors(entries: Vec<(String, String)>) -> (r: Option<String>)
    ensures
        r is None <==> entries@.len() == 0,
{
    if entries.len() == 0 {
        None
    } else {
        Some(error_map_json(&entries))
    }
}

/// Render the engine's reported errors: `None` exactly when the list is
/// empty, else one JSON object over the already-serialized details.
pub fn render_response_errors(entries: Vec<(String, String)>) -> (r: Option<String>)
    ensures
        r is None <==> entries@.len() == 0,
{
    if entries.len() == 0 {
        None
    } else {
        Some(raw_entries_json(&entries))
    }
}

/// The processed response assembled from its parts.
pub open spec fn assembled_response(
    state: MDLSessionManager,
    items: Vec<(String, Vec<(String, MDocItem)>)>,
    issuer: AuthenticationStatus,
    device: AuthenticationStatus,
    errors: Option<String>,
) -> MDLReaderResponseData {
    MDLReaderResponseData {
        state,
        verified_response: items,
        issuer_authentication: issuer,
        device_authentication: device,
        errors,
    }
}

/// Assemble the outcome of a proximity response: every part passes
/// through unchanged.
pub fn assemble_response_data(
    state: MDLSessionManager,
    items: Vec<(String, Vec<(String, MDocItem)>)>,
    issuer: AuthenticationStatus,
    device: AuthenticationStatus,
    errors: Option<String>,
) -> (r: MDLReaderResponseData)
    ensures
        r == assembled_response(state, items, issuer, device, errors),
{
    MDLReaderResponseData {
        state,
        verified_response: items,
        issuer_authentication: issuer,
        device_authentication: device,
        errors,
    }
}

/// Establish a proximity session from the holder's engagement URI: derive
/// the reader's session crypto, build the encrypted request for the
/// requested elements, and select the holder's first advertised
/// central-client transport identifier — failing deterministically where
/// none was advertised.
pub fn establish_session(
    uri: String,
    requested_items: HashMap<String, HashMap<String, bool>>,
    trust_anchor_registry: Option<Vec<String>>,
) -> (r: Result<MDLReaderSessionData, MDLReaderSessionError>)
    ensures
        requested_items@.len() == 0 ==> r is Err,
        (exists|ns: String|
            requested_items@.dom().contains(ns) && #[trigger] requested_items@[ns]@.len() == 0)
            ==> r is Err,
        (match trust_anchor_registry {
            Some(anchors) => !registry_accepts(anchors@),
            None => false,
        }) ==> r is Err,
        r matches Ok(d) ==> (d.state.spec_anchors_supplied() <==> (match trust_anchor_registry {
            Some(anchors) => anchors@.len() > 0,
            None => false,
        })),
{
    let namespaces = match build_request_namespaces(requested_items) {
        Ok(namespaces) => namespaces,
        Err(value) => {
            return Err(MDLReaderSessionError::Generic { value });
        }
    };
    let anchors = match trust_anchor_registry {
        Some(anchors) => anchors,
        None => Vec::new(),
    };
    let anchors_supplied = anchors.len() > 0;
    let registry = match registry_from_pems(&anchors) {
        Ok(registry) => registry,
        Err(value) => {
            return Err(MDLReaderSessionError::Generic { value });
        }
    };
    let (manager, request, ble_ident) = match reader_establish(&uri, namespaces, registry) {
        Ok(t) => t,
        Err(value) => {
            return Err(MDLReaderSessionError::Generic { value });
        }
    };
    let advertised = first_central_uuid(&manager);
    let uuid = match select_central_client(advertised) {
        Ok(uuid) => uuid,
        Err(e) => {
            return Err(e);
        }
    };
    Ok(MDLReaderSessionData {
        state: MDLSessionManager { inner: manager, anchors_supplied },
        uuid,
        request,
        ble_ident,
    })
}

/// Process the holder's encrypted response: decrypt it, convert the
/// returned elements, and report the two authentication outcomes.  A
/// verification failure degrades a status; it never aborts the call once
/// the response decodes.  The engine's reported errors come back as one
/// JSON object, absent exactly when no error was reported.  Where the
/// session was established without trust anchors, the issuer status is
/// `Unchecked` — never `Valid` or `Invalid` — and the anchor-less
/// certificate error is dropped with it.
pub fn handle_response(state: &MDLSessionManager, response: Vec<u8>) -> (r: Result<
    MDLReaderResponseData,
    MDLReaderResponseError,
>)
    ensures
        r matches Err(e) ==> e matches MDLReaderResponseError::Generic { .. },
        r matches Ok(d) ==> (!state.spec_anchors_supplied() ==> d.issuer_authentication
            == AuthenticationStatus::Unchecked),
        r matches Ok(d) ==> d.state.spec_anchors_supplied() == state.spec_anchors_supplied(),
{
    let anchors_supplied = state.anchors_supplied;
    let (manager, outcome) = reader_handle_response(&state.inner, &response);
    let namespaces = outcome_namespaces(&outcome);
    let mut verified_response: Vec<(String, Vec<(String, MDocItem)>)> = Vec::new();
    let mut i: usize = 0;
    while i < namespaces.len()
        decreases namespaces.len() - i,
    {
        let (namespace, value) = &namespaces[i];
        match json_object_to_items(value) {
            Some(items) => {
                verified_response.push((namespace.clone(), items));
            }
            None => {
                return Err(MDLReaderResponseError::Generic {
                    value: "Items not object".to_string(),
                });
            }
        }
        i += 1;
    }
    let (engine_issuer, device_authentication) = outcome_statuses(&outcome);

    // Without anchors the issuer check could not have run against
    // anything: collapse its status to Unchecked and drop the
    // certificate error the engine reports for its empty registry.
    let issuer_authentication = if anchors_supplied {
        engine_issuer
    } else {
        AuthenticationStatus::Unchecked
    };
    let mut entries = outcome_error_entries(&outcome);
    let mut kept: Vec<(String, String)> = Vec::new();
    while entries.len() > 0
        decreases entries.len(),
    {
        let entry = entries.remove(0);
        if anchors_supplied || !string_eq(&entry.0, "certificate_errors") {
            kept.push(entry);
        }
    }
    let errors = render_response_errors(kept);

    Ok(assemble_response_data(
        MDLSessionManager { inner: manager, anchors_supplied },
        verified_response,
        issuer_authentication,
        device_authentication,
        errors,
    ))
}

/// Verify an OID4VP redirect presentation, stateless and in one shot.
///
/// The call succeeds exactly when the bytes decode to a device response
/// holding an extractable mDL document and, with anchors supplied and
/// chaining disabled, the anchors build a registry; everything after that
/// is reported through the statuses rather than an error.  Both checks
/// bind to the OID4VP transcript built from the nonce, the client id and
/// the response URI.  With intermediate chaining enabled, the chain
/// embedded in the response is first expanded through the trust-chain
/// resolver against the supplied anchors; with it disabled, only the
/// supplied anchors reach the registry and no chain-walking occurs.
/// Supplying no anchors — or an empty list — always yields an `Unchecked`
/// issuer status, never `Valid` or `Invalid`; the device status is
/// decided independently.
pub fn verify_oid4vp_response(
    response: Vec<u8>,
    nonce: String,
    client_id: String,
    response_uri: String,
    trust_anchor_registry: Option<Vec<String>>,
    use_intermediate_chaining: bool,
) -> (r: Result<MDLReaderVerifiedData, MDLReaderSessionError>)
    ensures
        r is Ok ==> parses_as_device_response(response@) && mdl_response_extracts(response@),
        !use_intermediate_chaining ==> ((r is Ok) <==> (parses_as_device_response(response@)
            && mdl_response_extracts(response@) && (match trust_anchor_registry {
            Some(anchors) => anchors@.len() == 0 || registry_accepts(anchors@),
            None => true,
        }))),
        r matches Ok(data) ==> ((match trust_anchor_registry {
            Some(anchors) => anchors@.len() == 0,
            None => true,
        }) ==> data.issuer_authentication == AuthenticationStatus::Unchecked),
        r matches Ok(data) ==> data.device_authentication != AuthenticationStatus::Unchecked,
        r matches Ok(data) ==> ((match trust_anchor_registry {
            Some(anchors) => anchors@.len() > 0,
            None => false,
        }) ==> data.issuer_authentication != AuthenticationStatus::Unchecked),
{
    let (document, x5chain, namespaces) = match parse_mdl_response(&response) {
        Ok(t) => t,
        Err(value) => {
            return Err(MDLReaderSessionError::Generic { value });
        }
    };

    // Returned elements, with non-object namespaces skipped, not fatal.
    let mut verified_response: Vec<(String, Vec<(String, MDocItem)>)> = Vec::new();
    let mut i: usize = 0;
    while i < namespaces.len()
        decreases namespaces.len() - i,
    {
        let (namespace, value) = &namespaces[i];
        match json_object_to_items(value) {
            Some(items) => {
                verified_response.push((namespace.clone(), items));
            }
            None => {}
        }
        i += 1;
    }

    let mut error_entries: Vec<(String, String)> = Vec::new();

    // Device authentication binds to the OID4VP transcript.
    let transcript_bytes = oid4vp_transcript_bytes(&client_id, &response_uri, &nonce);
    let device_ok = match check_device_signature(&document, &transcript_bytes) {
        Ok(()) => true,
        Err(value) => {
            error_entries.push(("device_authentication_errors".to_string(), value));
            false
        }
    };

    // Issuer authentication: absent anchors collapse to Unchecked.
    let anchors_supplied = match &trust_anchor_registry {
        Some(anchors) => anchors.len() > 0,
        None => false,
    };
    let mut chain_valid = false;
    let mut signature_ok = false;
    if anchors_supplied {
        let anchors = match trust_anchor_registry {
            Some(anchors) => anchors,
            None => Vec::new(),
        };
        let registry_result = if use_intermediate_chaining {
            // The expanded list holds the anchors first, then the PEM
            // encodings of the chain-trusted certificates of the header.
            let mut pem_anchors: Vec<String> = Vec::new();
            let mut j: usize = 0;
            while j < anchors.len()
                decreases anchors.len() - j,
            {
                pem_anchors.push(anchors[j].clone());
                j += 1;
            }
            let entries = x5chain_entries(&x5chain);
            let (expanded, _trusted_models) = expand_anchor_pems(&entries, &anchors);
            let mut k: usize = 0;
            while k < expanded.len()
                decreases expanded.len() - k,
            {
                pem_anchors.push(expanded[k].clone());
                k += 1;
            }
            registry_from_pems(&pem_anchors)
        } else {
            // Chaining disabled: only the supplied anchors reach the
            // registry.
            registry_from_pems(&anchors)
        };
        match registry_result {
            Ok(registry) => {
                match validate_chain_mdl(&x5chain, &registry) {
                    None => {
                        chain_valid = true;
                        let issuer_signed = response_issuer_signed(&document);
                        match issuer_auth_verify(&x5chain, &issuer_signed) {
                            Ok(()) => {
                                signature_ok = true;
                            }
                            Err(value) => {
                                error_entries.push((
                                    "issuer_authentication_errors".to_string(),
                                    value,
                                ));
                            }
                        }
                    }
                    Some(value) => {
                        error_entries.push(("certificate_errors".to_string(), value));
                    }
                }
            }
            Err(value) => {
                return Err(MDLReaderSessionError::Generic { value });
            }
        }
    }
    let issuer_authentication = decide_issuer_status(anchors_supplied, chain_valid, signature_ok);

    // No errors collected means no errors reported.
    let errors = render_check_errors(error_entries);
    Ok(assemble_verified_data(verified_response, issuer_authentication, device_ok, errors))
}

/// Check the response document's device signature against the given
/// transcript bytes: recover the device key from the MSO, assemble the
/// device-authentication detached payload, and verify the COSE signature.
fn check_device_signature(
    document: &isomdl::definitions::device_response::Document,
    transcript_bytes: &Vec<u8>,
) -> (r: Result<(), String>)
{
    let key = match device_key_sec1(document) {
        Ok(key) => key,
        Err(e) => {
            return Err(e);
        }
    };

    let ns_bytes = match device_namespaces_bytes(document) {
        Ok(ns_bytes) => ns_bytes,
        Err(e) => {
            return Err(e);
        }
    };
    let doc_type = response_doc_type(document);
    let doctype_utf8 = utf8_bytes(&doc_type);
    let payload = encode_device_auth_payload(transcript_bytes, &doctype_utf8, &ns_bytes);
    device_signature_check(document, &key, &payload)
}

/// Recover the document's declared device key as a SEC1 point.  The
/// length guard stands here, in verified code: a declared P-256 key whose
/// coordinates are not exactly 32 bytes is refused — the engine's own
/// conversion would abort on it — and a compressed key is decoded through
/// the non-aborting point parser.
fn device_key_sec1(document: &isomdl::definitions::device_response::Document) -> (r: Result<
    Vec<u8>,
    String,
>)
{
    let (x, y, sign) = match device_key_coordinates(document) {
        Ok(t) => t,
        Err(e) => {
            return Err(e);
        }
    };
    match (y, sign) {
        (Some(y), _) => {
            if x.len() == 32 && y.len() == 32 {
                Ok(sec1_point_from_coordinates(&x, &y))
            } else {
                Err("malformed device key coordinates".to_string())
            }
        }
        (None, Some(s)) => {
            match sec1_point_from_compressed(&x, s) {
                Some(point) => Ok(point),
                None => Err("invalid device key".to_string()),
            }
        }
        (None, None) => Err("unsupported device key type".to_string()),
    }
}

} // verus!

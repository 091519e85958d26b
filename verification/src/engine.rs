//! Trusted boundary to the `isomdl` credential engine and its companions.
//!
//! Every function here is a thin wrapper around one call into an outside
//! crate; the session and verification logic that decides what to do with
//! the results lives in the verified modules.  Types of the engine that
//! flow through the logic are declared opaque: the logic never reads
//! their insides.

use vstd::prelude::*;

use std::collections::BTreeMap;
use std::collections::HashMap;

use base64::prelude::BASE64_URL_SAFE_NO_PAD;
use base64::prelude::Engine;
use isomdl::definitions::device_engagement::{CentralClientMode, DeviceRetrievalMethods};
use isomdl::definitions::device_request;
use isomdl::definitions::helpers::NonEmptyMap;
use isomdl::definitions::x509::trust_anchor::{PemTrustAnchor, TrustAnchorRegistry, TrustPurpose};
use isomdl::definitions::{BleOptions, DeviceRetrievalMethod};
use isomdl::definitions::helpers::Tag24;
use isomdl::definitions::{CoseKey, DeviceAuth, EC2Curve, EC2Y, IssuerSigned, Mso, SessionEstablishment};
use isomdl::presentation::Stringify;
use isomdl::presentation::device::{SessionManager, SessionManagerEngaged, SessionManagerInit};
use isomdl::cose::sign1::VerificationResult;
use serde_json::Value;
use uuid::Uuid;
use isomdl::presentation::authentication::AuthenticationStatus as EngineStatus;
use isomdl::presentation::authentication::ResponseAuthenticationOutcome;
use p256::elliptic_curve::sec1::ToEncodedPoint;
use sha2::Digest;

use crate::mdoc::MdocInitError;
use crate::reader::{AuthenticationStatus, MDocItem};

verus! {

#[verifier::external_type_specification]
#[verifier::external_body]
pub struct ExDeviceDocument(isomdl::presentation::device::Document);

#[verifier::external_type_specification]
#[verifier::external_body]
pub struct ExSessionManagerEngaged(isomdl::presentation::device::SessionManagerEngaged);

#[verifier::external_type_specification]
#[verifier::external_body]
pub struct ExDeviceSessionManager(isomdl::presentation::device::SessionManager);

#[verifier::external_type_specification]
#[verifier::external_body]
pub struct ExReaderSessionManager(isomdl::presentation::reader::SessionManager);

/// The engine's requested-items structure, carried opaquely between the
/// request and the response of one holder exchange.
#[verifier::external_body]
pub struct EngineRequestedItems {
    inner: Vec<device_request::ItemsRequest>,
}

/// The engine's request-namespaces structure, built from plain values and
/// carried opaquely into session establishment.
#[verifier::external_body]
pub struct EngineNamespaces {
    inner: device_request::Namespaces,
}

/// A holder document's namespaces, re-indexed by element identifier and
/// carried opaquely into document assembly.
#[verifier::external_body]
pub struct EngineDocNamespaces {
    inner: isomdl::definitions::helpers::NonEmptyMap<
        String,
        isomdl::definitions::helpers::NonEmptyMap<
            String,
            isomdl::definitions::helpers::Tag24<isomdl::definitions::IssuerSignedItem>,
        >,
    >,
}

#[verifier::external_type_specification]
#[verifier::external_body]
pub struct ExIssuerSigned(isomdl::definitions::IssuerSigned);

#[verifier::external_type_specification]
#[verifier::external_body]
pub struct ExResponseDocument(isomdl::definitions::device_response::Document);

#[verifier::external_type_specification]
#[verifier::external_body]
pub struct ExX5Chain(isomdl::definitions::x509::X5Chain);

#[verifier::external_type_specification]
#[verifier::external_body]
pub struct ExTrustAnchorRegistry(isomdl::definitions::x509::trust_anchor::TrustAnchorRegistry);

#[verifier::external_type_specification]
#[verifier::external_body]
pub struct ExResponseOutcome(ResponseAuthenticationOutcome);

#[verifier::external_type_specification]
#[verifier::external_body]
pub struct ExJsonValue(serde_json::Value);

/// What `sha2::Sha256::digest` returns: a function of the input bytes alone.
pub uninterp spec fn sha256_of(data: Seq<u8>) -> Seq<u8>;

/// What `str::as_bytes` returns: the UTF-8 encoding of the text.
pub uninterp spec fn utf8_of(s: Seq<char>) -> Seq<u8>;

/// Whether and how `p256::ecdsa::Signature::from_slice` accepts the bytes,
/// composed with `to_bytes`: `None` where the bytes are no valid encoding,
/// otherwise the 64-byte fixed-size form.  A function of the bytes alone.
pub uninterp spec fn p256_sig_normalized(sig: Seq<u8>) -> Option<Seq<u8>>;

/// Whether `isomdl::cbor::from_slice::<DeviceResponse>` accepts the bytes.
pub uninterp spec fn parses_as_device_response(bytes: Seq<u8>) -> bool;

/// Whether `isomdl::presentation::reader::parse` accepts the device
/// response the bytes decode to: an mDL document is present, its
/// issuer-auth header carries a parsable X5Chain, and its namespaces
/// convert to JSON values.  A function of the bytes alone.
pub uninterp spec fn mdl_response_extracts(bytes: Seq<u8>) -> bool;

/// Whether `isomdl::cbor::from_slice::<IssuerSigned>` accepts the bytes.
pub uninterp spec fn parses_as_issuer_signed(bytes: Seq<u8>) -> bool;

/// Whether `TrustAnchorRegistry::from_pem_certificates` accepts the PEM
/// texts, every one of them: a function of the texts alone.
pub uninterp spec fn registry_accepts(pems: Seq<String>) -> bool;

/// Whether `isomdl::presentation::Stringify::parse` accepts the text.
pub uninterp spec fn parses_as_document(encoded: Seq<char>) -> bool;

/// Whether `isomdl::cbor::from_slice::<Document>` accepts the bytes.
pub uninterp spec fn parses_as_document_cbor(bytes: Seq<u8>) -> bool;

/// What `base64::Engine::decode` with the URL-safe no-pad alphabet recovers:
/// `None` where the text is not valid base64url.
pub uninterp spec fn base64url_decoded(s: Seq<char>) -> Option<Seq<u8>>;

/// Relies on `sha2::Sha256::digest`: SHA-256 always yields 32 bytes.
#[verifier::external_body]
pub fn sha256_digest(data: &Vec<u8>) -> (r: Vec<u8>)
    ensures
        r@ == sha256_of(data@),
        r@.len() == 32,
{
    sha2::Sha256::digest(data.as_slice()).to_vec()
}

/// Relies on `str::as_bytes`: the UTF-8 encoding of the string, empty only
/// for the empty string.
#[verifier::external_body]
pub fn utf8_bytes(s: &String) -> (r: Vec<u8>)
    ensures
        r@ == utf8_of(s@),
        r@.len() == 0 <==> s@.len() == 0,
{
    s.as_bytes().to_vec()
}

/// Relies on `base64::Engine::decode` with `URL_SAFE_NO_PAD`.
#[verifier::external_body]
pub fn base64url_decode(s: &String) -> (r: Option<Vec<u8>>)
    ensures
        match r {
            Some(b) => base64url_decoded(s@) == Some(b@),
            None => base64url_decoded(s@) is None,
        },
{
    BASE64_URL_SAFE_NO_PAD.decode(s).ok()
}

/// Relies on `p256::ecdsa::Signature::from_slice` and `to_bytes`: parses a
/// signature and re-encodes it in the 64-byte fixed form.
#[verifier::external_body]
pub fn normalize_signature(sig: &Vec<u8>) -> (r: Option<Vec<u8>>)
    ensures
        match r {
            Some(b) => p256_sig_normalized(sig@) == Some(b@),
            None => p256_sig_normalized(sig@) is None,
        },
{
    let parsed = p256::ecdsa::Signature::from_slice(sig).ok()?;
    Some(parsed.to_bytes().to_vec())
}

/// Relies on `SessionManagerInit::initialise`, `ble_ident` and
/// `qr_engagement`: derives ephemeral session crypto for the holder and the
/// QR engagement artifact.  The result depends on fresh ephemeral keys, so
/// nothing relates it to the arguments.
#[verifier::external_body]
pub fn engage_session(
    document: &isomdl::presentation::device::Document,
    transport_uuid: u128,
) -> (r: Result<(isomdl::presentation::device::SessionManagerEngaged, String, Vec<u8>), String>)
{
    let drms = DeviceRetrievalMethods::new(DeviceRetrievalMethod::BLE(BleOptions {
        peripheral_server_mode: None,
        central_client_mode: Some(CentralClientMode { uuid: Uuid::from_u128(transport_uuid) }),
    }));
    let documents = NonEmptyMap::new("org.iso.18013.5.1.mDL".into(), document.clone());
    let session = SessionManagerInit::initialise(documents, Some(drms), None)
        .map_err(|e| format!("Could not initialize session: {e:?}"))?;
    let ble_ident = session.ble_ident()
        .map_err(|e| format!("Couldn't get BLE identification: {e:?}"))?.to_vec();
    let (engaged, qr_code_uri) = session.qr_engagement()
        .map_err(|e| format!("Could not generate qr engagement: {e:?}"))?;
    Ok((engaged, qr_code_uri, ble_ident))
}

/// Relies on `isomdl::cbor::from_slice::<SessionEstablishment>` and
/// `SessionManagerEngaged::process_session_establishment`: decrypts the
/// reader's session establishment against a clone of the engaged state and
/// hands back the live session, the engine's requested-items structure,
/// and the errors the engine reported while handling the request (a
/// decryption failure stands in this list, not in the `Err` arm).
#[verifier::external_body]
pub fn process_establishment(
    engaged: &isomdl::presentation::device::SessionManagerEngaged,
    request: &Vec<u8>,
) -> (r: Result<
    (isomdl::presentation::device::SessionManager, EngineRequestedItems, Vec<String>),
    String,
>)
{
    let establishment: SessionEstablishment =
        isomdl::cbor::from_slice(request).map_err(|e| format!("Could not deserialize request: {e:?}"))?;
    let registry = TrustAnchorRegistry { anchors: vec![] };
    let (manager, outcome) = engaged.clone().process_session_establishment(establishment, registry)
        .map_err(|e| format!("Could not process session establishment: {e:?}"))?;
    let errors = outcome.errors.iter().map(|(k, v)| format!("{k}: {v}")).collect();
    Ok((manager, EngineRequestedItems { inner: outcome.items_request }, errors))
}

/// Relies on the fields of the engine's requested-items structure: the
/// same requests as plain values.
#[verifier::external_body]
pub fn requested_items_plain(items: &EngineRequestedItems) -> (r: Vec<crate::holder::ItemsRequest>)
{
    items.inner.iter().map(|req| crate::holder::ItemsRequest {
        doc_type: req.doc_type.clone(),
        namespaces: req.namespaces.clone().into_inner().into_iter()
            .map(|(ns, es)| (ns, es.into_inner().into_iter().collect()))
            .collect(),
    }).collect()
}

/// Relies on `SessionManager::prepare_response` and
/// `get_next_signature_payload`: filters the requested items by consent,
/// builds the to-be-signed response and hands out the next signature
/// payload, or `None` where the engine has none.
#[verifier::external_body]
pub fn prepare_response_payload(
    session: &mut isomdl::presentation::device::SessionManager,
    items: &EngineRequestedItems,
    permitted: HashMap<String, HashMap<String, Vec<String>>>,
) -> (r: Option<Vec<u8>>)
{
    let permitted = permitted.into_iter()
        .map(|(doc_type, namespaces)| (doc_type, namespaces.into_iter().collect()))
        .collect();
    session.prepare_response(&items.inner, permitted);
    session.get_next_signature_payload().map(|(_, payload)| payload.to_vec())
}

/// Relies on `SessionManager::submit_next_signature`.  The engine
/// re-parses its own serialization inside this call and would abort on an
/// internal round-trip mismatch; no contract here rests on that path.
#[verifier::external_body]
pub fn submit_next_signature(
    session: &mut isomdl::presentation::device::SessionManager,
    signature: Vec<u8>,
) -> (r: Result<(), String>)
{
    session.submit_next_signature(signature)
        .map_err(|e| format!("Could not submit next signature: {e:?}"))
}

/// Relies on `SessionManager::retrieve_response`: `None` where documents
/// are still waiting for signatures.
#[verifier::external_body]
pub fn retrieve_response(session: &mut isomdl::presentation::device::SessionManager) -> (r: Option<
    Vec<u8>,
>)
{
    session.retrieve_response()
}

/// Relies on `isomdl::cbor::to_vec` over a session-termination record:
/// the record is constant, its encoding is the fixed CBOR map
/// `{"status": 20}`, and serializing it cannot fail.
#[verifier::external_body]
pub fn termination_message() -> (r: Result<Vec<u8>, String>)
    ensures
        r is Ok,
        r matches Ok(b) ==> b@ == crate::holder::termination_message_spec(),
{
    let msg = isomdl::definitions::session::SessionData {
        data: None,
        status: Some(isomdl::definitions::session::Status::SessionTermination),
    };
    isomdl::cbor::to_vec(&msg).map_err(|e| format!("Could not serialize message bytes: {e:?}"))
}

/// Relies on `NonEmptyMap::try_from`: builds the engine's request
/// namespaces from plain values.  It refuses exactly the empty request —
/// no namespaces at all, or a namespace with no elements.
#[verifier::external_body]
pub fn build_request_namespaces(requested_items: HashMap<String, HashMap<String, bool>>) -> (r:
    Result<EngineNamespaces, String>)
    ensures
        r is Ok ==> requested_items@.len() > 0 && (forall|ns: String|
            requested_items@.dom().contains(ns) ==> #[trigger] requested_items@[ns]@.len() > 0),
        r is Ok <== requested_items@.len() > 0 && (forall|ns: String|
            requested_items@.dom().contains(ns) ==> #[trigger] requested_items@[ns]@.len() > 0),
{
    let namespaces: Result<std::collections::BTreeMap<_, _>, _> = requested_items.into_iter()
        .map(|(doc_type, ns)| {
            let ns: std::collections::BTreeMap<_, _> = ns.into_iter().collect();
            ns.try_into().map(|n| (doc_type, n))
        })
        .collect();
    let namespaces = namespaces.map_err(|e| format!("Unable to build data elements: {e:?}"))?;
    let inner: device_request::Namespaces = namespaces.try_into()
        .map_err(|e| format!("Unable to build namespaces: {e:?}"))?;
    Ok(EngineNamespaces { inner })
}

/// Relies on `reader::SessionManager::establish_session`: parses the
/// holder's engagement, derives the reader's session crypto and builds the
/// encrypted request.  The result depends on fresh ephemeral keys.
#[verifier::external_body]
pub fn reader_establish(
    uri: &String,
    namespaces: EngineNamespaces,
    registry: isomdl::definitions::x509::trust_anchor::TrustAnchorRegistry,
) -> (r: Result<(isomdl::presentation::reader::SessionManager, Vec<u8>, Vec<u8>), String>)
{
    let (manager, request, ble_ident) =
        isomdl::presentation::reader::SessionManager::establish_session(uri.clone(), namespaces.inner, registry)
            .map_err(|e| format!("unable to establish session: {e:?}"))?;
    Ok((manager, request, ble_ident.to_vec()))
}

/// Relies on `reader::SessionManager::first_central_client_uuid`: the first
/// central-client transport identifier the holder advertised, if any.
#[verifier::external_body]
pub fn first_central_uuid(manager: &isomdl::presentation::reader::SessionManager) -> (r: Option<
    u128,
>)
{
    manager.first_central_client_uuid().map(|u| u.as_u128())
}

/// Relies on `reader::SessionManager::handle_response`: decrypts and
/// validates the holder's response against a clone of the session, handing
/// back the advanced session and the engine's validation outcome.
#[verifier::external_body]
pub fn reader_handle_response(
    manager: &isomdl::presentation::reader::SessionManager,
    response: &Vec<u8>,
) -> (r: (isomdl::presentation::reader::SessionManager, ResponseAuthenticationOutcome))
{
    let mut state = manager.clone();
    let outcome = state.handle_response(response);
    (state, outcome)
}

/// Relies on the fields of `ResponseAuthenticationOutcome`: maps the
/// engine's two authentication statuses onto the library's, variant by
/// variant.
#[verifier::external_body]
pub fn outcome_statuses(outcome: &ResponseAuthenticationOutcome) -> (r: (
    AuthenticationStatus,
    AuthenticationStatus,
))
{
    let conv = |s: &EngineStatus| match s {
        EngineStatus::Valid => AuthenticationStatus::Valid,
        EngineStatus::Invalid => AuthenticationStatus::Invalid,
        EngineStatus::Unchecked => AuthenticationStatus::Unchecked,
    };
    (conv(&outcome.issuer_authentication), conv(&outcome.device_authentication))
}

/// Relies on the `errors` field of `ResponseAuthenticationOutcome` and
/// `serde_json::to_string` per value: the error map as plain pairs of
/// check name and serialized detail, in map order.
#[verifier::external_body]
pub fn outcome_error_entries(outcome: &ResponseAuthenticationOutcome) -> (r: Vec<
    (String, String),
>)
{
    outcome.errors.iter()
        .map(|(k, v)| (k.clone(), serde_json::to_string(v).unwrap_or_default()))
        .collect()
}

/// Relies on the `response` field of `ResponseAuthenticationOutcome`: hands
/// out the per-namespace JSON values.
#[verifier::external_body]
pub fn outcome_namespaces(outcome: &ResponseAuthenticationOutcome) -> (r: Vec<
    (String, serde_json::Value),
>)
{
    outcome.response.iter().map(|(k, v)| (k.clone(), v.clone())).collect()
}

/// Relies on the variants of `serde_json::Value`: converts a JSON value to
/// the library's item type, arm by arm; `None` for nulls and non-integer
/// numbers, which the engine never produces here.
#[verifier::external_body]
pub fn json_value_to_item(value: &serde_json::Value) -> (r: Option<MDocItem>)
{
    match value {
        Value::Null => None,
        Value::Bool(b) => Some(MDocItem::Bool(*b)),
        Value::Number(n) => n.as_i64().map(MDocItem::Integer),
        Value::String(s) => Some(MDocItem::Text(s.clone())),
        Value::Array(a) => a.iter().map(json_value_to_item).collect::<Option<Vec<_>>>()
            .map(MDocItem::Array),
        Value::Object(m) => m.iter()
            .map(|(k, v)| json_value_to_item(v).map(|i| (k.clone(), i)))
            .collect::<Option<Vec<_>>>()
            .map(MDocItem::ItemMap),
    }
}

/// Relies on `serde_json::Value::as_object`: `None` where the value is not
/// an object, otherwise its entries converted to library items.
#[verifier::external_body]
pub fn json_object_to_items(value: &serde_json::Value) -> (r: Option<Vec<(String, MDocItem)>>)
{
    value.as_object()?.iter()
        .map(|(k, v)| json_value_to_item(v).map(|i| (k.clone(), i)))
        .collect::<Option<Vec<_>>>()
}

/// Relies on `serde_json::to_string`: serializes collected error messages
/// as a map from check name to a one-element message list, mirroring the
/// engine's error format.
#[verifier::external_body]
pub fn error_map_json(entries: &Vec<(String, String)>) -> (r: String)
{
    let map: BTreeMap<String, Vec<String>> =
        entries.iter().map(|(k, v)| (k.clone(), vec![v.clone()])).collect();
    serde_json::to_string(&map).unwrap_or_default()
}

/// Relies on `serde_json::from_str` and `to_string`: re-serializes pairs
/// of key and already-serialized JSON detail as one JSON object.
#[verifier::external_body]
pub fn raw_entries_json(entries: &Vec<(String, String)>) -> (r: String)
{
    let map: BTreeMap<&String, Value> = entries.iter()
        .map(|(k, v)| (k, serde_json::from_str(v).unwrap_or(Value::String(v.clone()))))
        .collect();
    serde_json::to_string(&map).unwrap_or_default()
}

/// Relies on `[String]::join`: one text from many, for error messages.
#[verifier::external_body]
pub fn join_strings(parts: Vec<String>) -> (r: String)
{
    parts.join("; ")
}

/// Relies on `str::eq`: string equality as text equality.
#[verifier::external_body]
pub fn string_eq(a: &String, b: &str) -> (r: bool)
    ensures
        r == (a@ == b@),
{
    a.as_str() == b
}

/// Relies on `serde_json::to_string_pretty`: renders a simple verification
/// outcome as JSON, with the data absent where the mDL namespace was.
/// Serialization of string maps and plain values cannot fail.
#[verifier::external_body]
pub fn simple_verification_json(
    valid: bool,
    doc_type: &String,
    data: Option<&Vec<(String, String)>>,
) -> (r: Result<String, String>)
    ensures
        r is Ok,
{
    let data: Option<BTreeMap<&String, &String>> =
        data.map(|entries| entries.iter().map(|(k, v)| (k, v)).collect());
    let mut root = serde_json::Map::new();
    root.insert("valid".to_string(), Value::Bool(valid));
    root.insert("doc_type".to_string(), Value::String(doc_type.clone()));
    root.insert("data".to_string(), serde_json::to_value(data).map_err(|e| format!("JSON error: {e}"))?);
    serde_json::to_string_pretty(&Value::Object(root)).map_err(|e| format!("JSON error: {e}"))
}

/// Relies on `isomdl::cbor::from_slice::<DeviceResponse>` and
/// `isomdl::presentation::reader::parse`: decodes the response bytes,
/// picks the mDL document out of them, extracts its X5Chain header, and
/// parses the response namespaces to JSON values.  Both steps accept or
/// refuse as a function of the bytes alone.
#[verifier::external_body]
pub fn parse_mdl_response(bytes: &Vec<u8>) -> (r: Result<
    (isomdl::definitions::device_response::Document, isomdl::definitions::x509::X5Chain, Vec<
        (String, serde_json::Value),
    >),
    String,
>)
    ensures
        r is Ok ==> parses_as_device_response(bytes@) && mdl_response_extracts(bytes@),
        r is Ok <== parses_as_device_response(bytes@) && mdl_response_extracts(bytes@),
{
    let response: isomdl::definitions::DeviceResponse = isomdl::cbor::from_slice(bytes)
        .map_err(|e| format!("Unable to parse DeviceResponse: {e}"))?;
    match isomdl::presentation::reader::parse(&response) {
        Ok((document, x5chain, namespaces)) => Ok((
            document.clone(),
            x5chain,
            namespaces.into_iter().collect(),
        )),
        Err(e) => Err(format!("Failed to parse device response: {e}")),
    }
}

/// Relies on `X5Chain::into_cbor`: the certificate entries of the chain
/// header, each `Some` DER bytes where the entry is a CBOR byte string.
#[verifier::external_body]
pub fn x5chain_entries(x5chain: &isomdl::definitions::x509::X5Chain) -> (r: Vec<Option<Vec<u8>>>)
{
    match x5chain.into_cbor() {
        ciborium::Value::Bytes(b) => vec![Some(b)],
        ciborium::Value::Array(entries) => entries.into_iter()
            .map(|v| match v {
                ciborium::Value::Bytes(b) => Some(b),
                _ => None,
            })
            .collect(),
        _ => vec![],
    }
}

/// Relies on `X5Chain::end_entity_common_name`.
#[verifier::external_body]
pub fn x5chain_common_name(x5chain: &isomdl::definitions::x509::X5Chain) -> (r: String)
{
    x5chain.end_entity_common_name().to_string()
}

/// Relies on `TrustAnchorRegistry::from_pem_certificates` with the IACA
/// purpose: the build succeeds or fails as a function of the PEM texts
/// alone, and one refused text fails the whole build.
#[verifier::external_body]
pub fn registry_from_pems(pems: &Vec<String>) -> (r: Result<
    isomdl::definitions::x509::trust_anchor::TrustAnchorRegistry,
    String,
>)
    ensures
        r is Ok <==> registry_accepts(pems@),
{
    TrustAnchorRegistry::from_pem_certificates(
        pems.iter().map(|pem| PemTrustAnchor {
            certificate_pem: pem.clone(),
            purpose: TrustPurpose::Iaca,
        }).collect(),
    ).map_err(|e| format!("Failed to create trust registry: {e}"))
}

/// Relies on `ValidationRuleset::Mdl.validate`: `None` where the ruleset
/// accepts the chain against the registry, otherwise the joined errors.
/// The outcome depends on the clock (validity periods), so nothing more is
/// stated.
#[verifier::external_body]
pub fn validate_chain_mdl(
    x5chain: &isomdl::definitions::x509::X5Chain,
    registry: &isomdl::definitions::x509::trust_anchor::TrustAnchorRegistry,
) -> (r: Option<String>)
{
    let errors = isomdl::definitions::x509::validation::ValidationRuleset::Mdl
        .validate(x5chain, registry)
        .errors;
    if errors.is_empty() {
        None
    } else {
        Some(errors.iter().map(|e| format!("{e:?}")).collect::<Vec<_>>().join(", "))
    }
}

/// Relies on `isomdl::presentation::authentication::mdoc::issuer_authentication`:
/// verifies the issuer's COSE signature over the issuer-signed structure
/// under the chain's end-entity key.
#[verifier::external_body]
pub fn issuer_auth_verify(
    x5chain: &isomdl::definitions::x509::X5Chain,
    issuer_signed: &isomdl::definitions::IssuerSigned,
) -> (r: Result<(), String>)
{
    isomdl::presentation::authentication::mdoc::issuer_authentication(x5chain.clone(), issuer_signed)
        .map_err(|e| format!("{e:?}"))
}

/// Relies on the `issuer_signed` field of the response document.
#[verifier::external_body]
pub fn response_issuer_signed(document: &isomdl::definitions::device_response::Document) -> (r:
    isomdl::definitions::IssuerSigned)
{
    document.issuer_signed.clone()
}

/// Relies on `isomdl::cbor::to_vec` over the document's device-signed
/// namespaces: their full serialization, embedded CBOR tag included.
#[verifier::external_body]
pub fn device_namespaces_bytes(document: &isomdl::definitions::device_response::Document) -> (r: Result<
    Vec<u8>,
    String,
>)
{
    isomdl::cbor::to_vec(&document.device_signed.namespaces).map_err(|e| format!("{e:?}"))
}

/// Relies on the `doc_type` field of the response document.
#[verifier::external_body]
pub fn response_doc_type(document: &isomdl::definitions::device_response::Document) -> (r: String)
{
    document.doc_type.clone()
}

/// Relies on the MSO device key of the document: hands its P-256
/// coordinates out as plain bytes — the x coordinate with either the y
/// coordinate or the compression sign bit, one arm per key form.  The
/// coordinates come back unchecked; the caller decides their lengths.
#[verifier::external_body]
pub fn device_key_coordinates(document: &isomdl::definitions::device_response::Document) -> (r:
    Result<(Vec<u8>, Option<Vec<u8>>, Option<bool>), String>)
{
    let mso_bytes = document.issuer_signed.issuer_auth.payload.as_ref()
        .ok_or("missing issuer_auth payload")?;
    let mso: Tag24<Mso> = isomdl::cbor::from_slice(mso_bytes).map_err(|e| format!("{e:?}"))?;
    match mso.into_inner().device_key_info.device_key {
        CoseKey::EC2 { crv: EC2Curve::P256, x, y: EC2Y::Value(y) } => Ok((x, Some(y), None)),
        CoseKey::EC2 { crv: EC2Curve::P256, x, y: EC2Y::SignBit(s) } => Ok((x, None, Some(s))),
        _ => Err("unsupported device key type".to_string()),
    }
}

/// Relies on `p256::EncodedPoint::from_affine_coordinates`: the
/// uncompressed SEC1 encoding of the point.  The call aborts on
/// coordinates that are not exactly 32 bytes, so the `requires` excludes
/// them.
#[verifier::external_body]
pub fn sec1_point_from_coordinates(x: &Vec<u8>, y: &Vec<u8>) -> (r: Vec<u8>)
    requires
        x@.len() == 32,
        y@.len() == 32,
{
    p256::EncodedPoint::from_affine_coordinates(
        p256::FieldBytes::from_slice(x), p256::FieldBytes::from_slice(y), false,
    ).as_bytes().to_vec()
}

/// Relies on `p256::EncodedPoint::from_bytes` over a tagged compressed
/// point: `None` where the bytes are no valid encoding; never aborts.
#[verifier::external_body]
pub fn sec1_point_from_compressed(x: &Vec<u8>, sign: bool) -> (r: Option<Vec<u8>>)
{
    let mut bytes = x.clone();
    bytes.insert(0, if sign { 3 } else { 2 });
    p256::EncodedPoint::from_bytes(bytes).ok().map(|p| p.as_bytes().to_vec())
}

/// Relies on `coset::CoseSign1::verify` semantics via the engine's COSE
/// wrapper: verifies the document's device signature as a detached
/// signature over the given payload under the given SEC1 public key.
#[verifier::external_body]
pub fn device_signature_check(
    document: &isomdl::definitions::device_response::Document,
    key_sec1: &Vec<u8>,
    detached_payload: &Vec<u8>,
) -> (r: Result<(), String>)
{
    let key = p256::ecdsa::VerifyingKey::from_sec1_bytes(key_sec1).map_err(|e| format!("{e:?}"))?;
    let DeviceAuth::DeviceSignature(sig) = &document.device_signed.device_auth else {
        return Err("device MAC is not supported".to_string());
    };
    match sig.verify::<p256::ecdsa::VerifyingKey, p256::ecdsa::Signature>(&key, Some(detached_payload), None) {
        VerificationResult::Success => Ok(()),
        VerificationResult::Failure(e) => Err(format!("failed verifying device signature: {e}")),
        VerificationResult::Error(e) => Err(format!("error verifying device signature: {e}")),
    }
}

/// Relies on `isomdl::presentation::Stringify::parse`: decodes a document
/// from its portable string form; acceptance is a function of the text
/// alone.
#[verifier::external_body]
pub fn document_parse(encoded: &String) -> (r: Result<isomdl::presentation::device::Document, String>)
    ensures
        r is Ok <==> parses_as_document(encoded@),
{
    isomdl::presentation::device::Document::parse(encoded.clone()).map_err(|e| format!("{e:?}"))
}

/// Relies on `isomdl::presentation::Stringify::stringify`.
#[verifier::external_body]
pub fn document_stringify(document: &isomdl::presentation::device::Document) -> (r: Result<
    String,
    String,
>)
{
    document.stringify().map_err(|e| format!("{e:?}"))
}

/// Relies on `serde_json::to_string` over the document.
#[verifier::external_body]
pub fn document_json(document: &isomdl::presentation::device::Document) -> (r: Result<String, String>)
{
    serde_json::to_string(document).map_err(|e| format!("{e:?}"))
}

/// Relies on `isomdl::cbor::from_slice::<Document>`; acceptance is a
/// function of the bytes alone.
#[verifier::external_body]
pub fn document_from_cbor(bytes: &Vec<u8>) -> (r: Result<isomdl::presentation::device::Document, String>)
    ensures
        r is Ok <==> parses_as_document_cbor(bytes@),
{
    isomdl::cbor::from_slice(bytes).map_err(|e| format!("{e}"))
}

/// Relies on the document's `id` field: its local identifier as an integer.
#[verifier::external_body]
pub fn document_id(document: &isomdl::presentation::device::Document) -> (r: u128)
{
    document.id.as_u128()
}

/// Relies on the document's MSO `doc_type` field.
#[verifier::external_body]
pub fn document_doctype(document: &isomdl::presentation::device::Document) -> (r: String)
{
    document.mso.doc_type.clone()
}

/// Relies on the document's namespaces: each element rendered with
/// `serde_json::to_string_pretty`, `None` where the value has no JSON form.
#[verifier::external_body]
pub fn document_details(document: &isomdl::presentation::device::Document) -> (r: Vec<
    (String, Vec<(String, Option<String>)>),
>)
{
    document.namespaces.clone().into_inner().into_iter()
        .map(|(namespace, elements)| {
            let elements = elements.into_inner().into_values()
                .map(|tagged| {
                    let element = tagged.into_inner();
                    (element.element_identifier, serde_json::to_string_pretty(&element.element_value).ok())
                })
                .collect();
            (namespace, elements)
        })
        .collect()
}

/// Relies on `isomdl::cbor::from_slice::<IssuerSigned>`: acceptance is a
/// function of the bytes alone.
#[verifier::external_body]
pub fn issuer_signed_parse(bytes: &Vec<u8>) -> (r: Result<
    isomdl::definitions::IssuerSigned,
    MdocInitError,
>)
    ensures
        r is Ok <==> parses_as_issuer_signed(bytes@),
        r matches Err(e) ==> e matches MdocInitError::IssuerSignedCborDecoding,
{
    isomdl::cbor::from_slice(bytes).map_err(|_| MdocInitError::IssuerSignedCborDecoding)
}

/// Relies on `NonEmptyMap::try_from` over the issuer-signed namespaces:
/// re-indexes each namespace's items by their element identifiers.
#[verifier::external_body]
pub fn document_index_namespaces(issuer_signed: &isomdl::definitions::IssuerSigned) -> (r: Result<
    EngineDocNamespaces,
    MdocInitError,
>)
    ensures
        r matches Err(e) ==> (e matches MdocInitError::NamespacesMissing || (
        e matches MdocInitError::GeneralConstructionError)),
{
    let inner = issuer_signed.namespaces.clone().ok_or(MdocInitError::NamespacesMissing)?
        .into_inner().into_iter()
        .map(|(k, v)| {
            let m = v.into_inner().into_iter().map(|i| (i.as_ref().element_identifier.clone(), i))
                .collect::<BTreeMap<_, _>>()
                .try_into().map_err(|_| MdocInitError::GeneralConstructionError)?;
            Ok((k, m))
        })
        .collect::<Result<BTreeMap<_, _>, MdocInitError>>()?
        .try_into().map_err(|_| MdocInitError::GeneralConstructionError)?;
    Ok(EngineDocNamespaces { inner })
}

/// Relies on `isomdl::cbor::from_slice::<Tag24<Mso>>` and the engine's
/// document structure: assembles a holder document, reporting which step
/// refused it.
#[verifier::external_body]
pub fn document_assemble(
    issuer_signed: IssuerSigned,
    namespaces: EngineDocNamespaces,
) -> (r: Result<isomdl::presentation::device::Document, MdocInitError>)
    ensures
        r matches Err(e) ==> (e matches MdocInitError::IssuerAuthPayloadMissing || (
        e matches MdocInitError::IssuerAuthPayloadDecoding)),
{
    let mso: Tag24<Mso> = isomdl::cbor::from_slice(
        issuer_signed.issuer_auth.payload.as_ref().ok_or(MdocInitError::IssuerAuthPayloadMissing)?,
    ).map_err(|_| MdocInitError::IssuerAuthPayloadDecoding)?;
    let (id, issuer_auth) = (Uuid::new_v4(), issuer_signed.issuer_auth);
    Ok(isomdl::presentation::device::Document {
        id,
        issuer_auth,
        namespaces: namespaces.inner,
        mso: mso.into_inner(),
    })
}

/// Relies on `X5Chain::from_cbor` over the document's issuer-auth
/// unprotected header: missing and unparsable headers are told apart.
#[verifier::external_body]
pub fn document_x5chain(document: &isomdl::presentation::device::Document) -> (r: Result<
    isomdl::definitions::x509::X5Chain,
    crate::mdoc::MdocVerificationError,
>)
    ensures
        r matches Err(e) ==> (e matches crate::mdoc::MdocVerificationError::X5ChainMissing || (
        e matches crate::mdoc::MdocVerificationError::X5ChainParsing(_))),
{
    let value = document.issuer_auth.unprotected.rest.iter()
        .find(|(label, _)| {
            label == &coset::Label::Int(isomdl::definitions::x509::x5chain::X5CHAIN_COSE_HEADER_LABEL)
        })
        .map(|(_, value)| value.clone())
        .ok_or(crate::mdoc::MdocVerificationError::X5ChainMissing)?;
    isomdl::definitions::x509::X5Chain::from_cbor(value)
        .map_err(|e| crate::mdoc::MdocVerificationError::X5ChainParsing(format!("{e:?}")))
}

/// Relies on the engine's document structure: rebuilds the issuer-signed
/// structure of a holder document.
#[verifier::external_body]
pub fn issuer_signed_of_document(document: &isomdl::presentation::device::Document) -> (r: Result<
    isomdl::definitions::IssuerSigned,
    String,
>)
{
    let namespaces = document.namespaces.clone().into_inner().into_iter()
        .map(|(ns, elements)| {
            let inner: Vec<_> = elements.into_inner().into_values().collect();
            inner.try_into().map(|i| (ns, i)).map_err(|_| "Internal error: Empty inner namespace elements".to_string())
        })
        .collect::<Result<BTreeMap<_, _>, String>>()?
        .try_into().map_err(|_| "Internal error: Empty namespaces map".to_string())?;
    Ok(IssuerSigned { namespaces: Some(namespaces), issuer_auth: document.issuer_auth.clone() })
}

} // verus!

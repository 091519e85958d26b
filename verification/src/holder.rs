//! Holder-side presentation session.
//!
//! A session is a single owned handle whose mutating operations are
//! exclusive: it moves through the phases `Engaged`, `RequestReceived`,
//! `ResponsePrepared`, `Completed`, with `Terminated` reachable from any
//! phase.  The gap between `generate_response` and `submit_response` is an
//! explicit suspension point for an external signer of arbitrary latency;
//! the session stays valid across it and every out-of-sequence call is
//! refused with a protocol-state error that leaves the session unchanged.

use vstd::prelude::*;

use std::collections::HashMap;

use crate::engine::{
    EngineRequestedItems, engage_session, join_strings, normalize_signature, p256_sig_normalized,
    prepare_response_payload, process_establishment, requested_items_plain, retrieve_response,
    submit_next_signature, termination_message,
};
use crate::mdoc::Mdoc;

verus! {

/// The termination message's bytes: the CBOR map `{"status": 20}`, the
/// fixed session-termination record of the wire format.
pub open spec fn termination_message_spec() -> Seq<u8> {
    seq![0xA1u8, 0x66u8, 0x73u8, 0x74u8, 0x61u8, 0x74u8, 0x75u8, 0x73u8, 0x14u8]
}

/// The protocol phase a holder session is in.
#[derive(Clone, Copy, Debug, PartialEq, Eq, Structural)]
pub enum SessionPhase {
    Engaged,
    RequestReceived,
    ResponsePrepared,
    Completed,
    Terminated,
}

/// Construction failed: the credential document or the transport-method
/// descriptor was refused by the engine.
#[derive(Debug)]
pub enum SessionError {
    Generic { value: String },
}

/// An incoming request could not be decoded or decrypted.
#[derive(Debug)]
pub enum RequestError {
    Generic { value: String },
}

/// One document request from the reader, as plain values.
#[derive(Clone)]
pub struct ItemsRequest {
    /// The requested document type.
    pub doc_type: String,
    /// Requested element names by namespace, each mapped to whether the
    /// reader declares an intent to retain it.
    pub namespaces: HashMap<String, HashMap<String, bool>>,
}

/// A response could not be produced.
#[derive(Debug)]
pub enum ResponseError {
    MissingSignature,
    Generic { value: String },
}

/// Signing-step errors.
#[derive(Debug)]
pub enum SignatureError {
    /// The signature bytes are not a valid encoding.
    InvalidSignature { value: String },
    /// The signer yielded more pending documents than the single one this
    /// session expects; no partial response is produced.
    TooManyDocuments,
    /// The operation was invoked out of sequence; the session is unchanged.
    ProtocolState,
    Generic { value: String },
}

/// Termination-message errors.
#[derive(Debug)]
pub enum TerminationError {
    Generic { value: String },
}

/// Key-format conversion errors.
#[derive(Debug)]
pub enum KeyTransformationError {
    ToPKCS8 { value: String },
    FromPKCS8 { value: String },
    FromSEC1 { value: String },
    ToSEC1 { value: String },
}

/// The live exchange: the engine session together with the items the
/// reader requested.  Replaced, never merged, on each new request.
struct InProcessRecord {
    session: isomdl::presentation::device::SessionManager,
    items_request: EngineRequestedItems,
}

/// Holder-side presentation session for one credential.
pub struct MdlPresentationSession {
    engaged: isomdl::presentation::device::SessionManagerEngaged,
    phase: SessionPhase,
    in_process: Option<InProcessRecord>,
    /// The QR-encodable engagement artifact.  Immutable once created.
    pub qr_code_uri: String,
    /// The BLE transport identifier.  Immutable once created.
    pub ble_ident: Vec<u8>,
}

impl MdlPresentationSession {
    /// The session's protocol phase.
    pub closed spec fn spec_phase(&self) -> SessionPhase {
        self.phase
    }

    /// The engagement artifact's text.
    pub closed spec fn spec_qr_code_uri(&self) -> Seq<char> {
        self.qr_code_uri@
    }

    /// The BLE identification bytes.
    pub closed spec fn spec_ble_ident(&self) -> Seq<u8> {
        self.ble_ident@
    }

    /// A session that has received a request, or prepared a response,
    /// holds a live exchange.
    pub closed spec fn wf(&self) -> bool {
        (self.phase == SessionPhase::RequestReceived || self.phase == SessionPhase::ResponsePrepared)
            ==> self.in_process is Some
    }

    /// Begin the presentation of `mdoc` over the BLE transport identified
    /// by `transport_uuid`: derives ephemeral session-crypto material and
    /// the QR engagement artifact.
    pub fn new(mdoc: &Mdoc, transport_uuid: u128) -> (r: Result<MdlPresentationSession, SessionError>)
        ensures
            r matches Ok(s) ==> s.wf() && s.spec_phase() == SessionPhase::Engaged,
    {
        match engage_session(mdoc.document(), transport_uuid) {
            Ok((engaged, qr_code_uri, ble_ident)) => Ok(MdlPresentationSession {
                engaged,
                phase: SessionPhase::Engaged,
                in_process: None,
                qr_code_uri,
                ble_ident,
            }),
            Err(value) => Err(SessionError::Generic { value }),
        }
    }

    /// Handle a session-establishment message from a reader.  On success
    /// the pending exchange is replaced and the session moves to
    /// `RequestReceived`.  On failure — the message does not decode, or
    /// the engine reports a decryption or request-handling error — the
    /// session is unchanged and can still take a later well-formed
    /// request.
    pub fn handle_request(&mut self, request: Vec<u8>) -> (r: Result<Vec<ItemsRequest>, RequestError>)
        requires
            old(self).wf(),
        ensures
            final(self).wf(),
            r is Ok ==> final(self).spec_phase() == SessionPhase::RequestReceived,
            r is Err ==> *final(self) == *old(self),
            final(self).spec_qr_code_uri() == old(self).spec_qr_code_uri(),
            final(self).spec_ble_ident() == old(self).spec_ble_ident(),
    {
        match process_establishment(&self.engaged, &request) {
            Ok((session, items_request, errors)) => {
                if errors.len() > 0 {
                    return Err(RequestError::Generic { value: join_strings(errors) });
                }
                let plain_items = requested_items_plain(&items_request);
                self.in_process = Some(InProcessRecord { session, items_request });
                self.phase = SessionPhase::RequestReceived;
                Ok(plain_items)
            }
            Err(value) => Err(RequestError::Generic { value }),
        }
    }

    /// Intersect the requested items with the holder's consent, build the
    /// to-be-signed response, and hand out the payload for the external
    /// signer.  Only a session in `RequestReceived` may do this; any other
    /// phase is refused with a protocol-state error and left unchanged.
    pub fn generate_response(
        &mut self,
        permitted_items: HashMap<String, HashMap<String, Vec<String>>>,
    ) -> (r: Result<Vec<u8>, SignatureError>)
        requires
            old(self).wf(),
        ensures
            final(self).wf(),
            old(self).spec_phase() != SessionPhase::RequestReceived ==> (r matches Err(
                SignatureError::ProtocolState,
            ) && *final(self) == *old(self)),
            r matches Err(SignatureError::ProtocolState) ==> old(self).spec_phase()
                != SessionPhase::RequestReceived,
            r is Ok ==> final(self).spec_phase() == SessionPhase::ResponsePrepared,
            r is Err ==> final(self).spec_phase() == old(self).spec_phase(),
            final(self).spec_qr_code_uri() == old(self).spec_qr_code_uri(),
            final(self).spec_ble_ident() == old(self).spec_ble_ident(),
    {
        if !matches!(self.phase, SessionPhase::RequestReceived) {
            return Err(SignatureError::ProtocolState);
        }
        match &mut self.in_process {
            Some(record) => {
                let payload = prepare_response_payload(
                    &mut record.session,
                    &record.items_request,
                    permitted_items,
                );
                match payload {
                    Some(payload) => {
                        self.phase = SessionPhase::ResponsePrepared;
                        Ok(payload)
                    }
                    None => Err(SignatureError::Generic {
                        value: "Failed to get next signature payload".to_string(),
                    }),
                }
            }
            None => Err(SignatureError::ProtocolState),
        }
    }

    /// Bind the external signer's signature into the final response.
    /// Refused with a protocol-state error before `generate_response`
    /// (the session is then unchanged), with an invalid-signature error
    /// for malformed signature bytes, and with `TooManyDocuments` where
    /// the engine still holds further documents to sign — in which case
    /// no partial response is produced.
    pub fn submit_response(&mut self, signature: Vec<u8>) -> (r: Result<Vec<u8>, SignatureError>)
        requires
            old(self).wf(),
        ensures
            final(self).wf(),
            old(self).spec_phase() != SessionPhase::ResponsePrepared ==> (r matches Err(
                SignatureError::ProtocolState,
            ) && *final(self) == *old(self)),
            old(self).spec_phase() == SessionPhase::ResponsePrepared
                && p256_sig_normalized(signature@) is None ==> (r matches Err(
                SignatureError::InvalidSignature { .. },
            ) && *final(self) == *old(self)),
            r matches Err(SignatureError::ProtocolState) ==> old(self).spec_phase()
                != SessionPhase::ResponsePrepared,
            r is Ok ==> final(self).spec_phase() == SessionPhase::Completed,
            r is Err ==> final(self).spec_phase() == old(self).spec_phase(),
            final(self).spec_qr_code_uri() == old(self).spec_qr_code_uri(),
            final(self).spec_ble_ident() == old(self).spec_ble_ident(),
    {
        if !matches!(self.phase, SessionPhase::ResponsePrepared) {
            return Err(SignatureError::ProtocolState);
        }
        let normalized = match normalize_signature(&signature) {
            Some(normalized) => normalized,
            None => {
                return Err(SignatureError::InvalidSignature {
                    value: "not a valid P-256 signature encoding".to_string(),
                });
            }
        };
        match &mut self.in_process {
            Some(record) => {
                match submit_next_signature(&mut record.session, normalized) {
                    Ok(()) => {
                        let engine_response = retrieve_response(&mut record.session);
                        let finished = finish_submission(engine_response);
                        if finished.is_ok() {
                            self.phase = SessionPhase::Completed;
                        }
                        finished
                    }
                    Err(value) => Err(SignatureError::Generic { value }),
                }
            }
            None => Err(SignatureError::ProtocolState),
        }
    }

    /// Emit the session-termination message: always the same fixed bytes,
    /// and the call always succeeds.  Callable from any phase; the session
    /// itself moves to `Terminated` and its immutable fields stay.
    pub fn terminate_session(&mut self) -> (r: Result<Vec<u8>, TerminationError>)
        ensures
            r matches Ok(b) && b@ == termination_message_spec(),
            final(self).spec_phase() == SessionPhase::Terminated,
            final(self).wf(),
            final(self).spec_qr_code_uri() == old(self).spec_qr_code_uri(),
            final(self).spec_ble_ident() == old(self).spec_ble_ident(),
    {
        self.phase = SessionPhase::Terminated;
        self.in_process = None;
        match termination_message() {
            Ok(bytes) => Ok(bytes),
            Err(value) => Err(TerminationError::Generic { value }),
        }
    }

    /// The QR-encodable engagement artifact.
    pub fn get_qr_code_uri(&self) -> (r: String)
        ensures
            r@ == self.spec_qr_code_uri(),
    {
        self.qr_code_uri.clone()
    }

    /// The BLE transport identifier.
    pub fn get_ble_ident(&self) -> (r: Vec<u8>)
        ensures
            r@ == self.spec_ble_ident(),
    {
        self.ble_ident.clone()
    }
}

/// Turn the engine's retrieval outcome into the session's result: exactly
/// one signed document is expected, so an absent response — the engine
/// still holds documents to sign — is a capacity error, never a partial
/// response.
pub fn finish_submission(engine_response: Option<Vec<u8>>) -> (r: Result<Vec<u8>, SignatureError>)
    ensures
        engine_response matches Some(b) ==> r matches Ok(out) && out == b,
        engine_response is None ==> r matches Err(SignatureError::TooManyDocuments),
{
    match engine_response {
        Some(bytes) => Ok(bytes),
        None => Err(SignatureError::TooManyDocuments),
    }
}

} // verus!

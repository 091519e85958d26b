//! Verified core of an ISO/IEC 18013-5 mobile-document presentation library.
//!
//! The crate covers the certificate trust-chain resolver, the holder and
//! reader presentation-session state machines, and the OpenID4VP redirect
//! verifier.  Cryptographic primitives, CBOR/COSE wire encoding and the
//! underlying credential engine are outside collaborators, reached through
//! narrow trusted wrappers whose contracts state what each call returns.

pub mod cert;
pub mod engine;
pub mod holder;
pub mod mdoc;
pub mod reader;
pub mod resolver;
pub mod simple;
pub mod transcript;
pub mod verification;

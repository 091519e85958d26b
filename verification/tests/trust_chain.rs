use std::time::Duration;

use mdl_presentation::cert::{CertData, check_signature, parse_cert_der, parse_cert_pem};
use mdl_presentation::resolver::resolve_trust_chain;

use p256::ecdsa::SigningKey;
use rand_core::OsRng;
use x509_cert::builder::{Builder, CertificateBuilder, Profile};
use x509_cert::der::{Encode, EncodePem};
use x509_cert::name::Name;
use x509_cert::serial_number::SerialNumber;
use x509_cert::spki::SubjectPublicKeyInfoOwned;
use x509_cert::time::Validity;

fn make_cert(
    profile: Profile,
    serial: u64,
    subject: &str,
    key: &p256::ecdsa::VerifyingKey,
    signer: &SigningKey,
) -> x509_cert::Certificate {
    let subject: Name = subject.parse().unwrap();
    let spki = SubjectPublicKeyInfoOwned::from_key(key.clone()).unwrap();
    let builder = CertificateBuilder::new(
        profile,
        SerialNumber::from(serial),
        Validity::from_now(Duration::from_secs(3600)).unwrap(),
        subject,
        spki,
        signer,
    )
    .unwrap();
    builder.build::<p256::ecdsa::DerSignature>().unwrap()
}

struct Chain {
    root: CertData,
    intermediate: CertData,
    leaf: CertData,
    stranger: CertData,
}

fn build_chain() -> Chain {
    let root_key = SigningKey::random(&mut OsRng);
    let intermediate_key = SigningKey::random(&mut OsRng);
    let leaf_key = SigningKey::random(&mut OsRng);
    let stranger_key = SigningKey::random(&mut OsRng);

    let root_name = "CN=Root CA";
    let root = make_cert(Profile::Root, 1, root_name, root_key.verifying_key(), &root_key);
    let intermediate = make_cert(
        Profile::SubCA { issuer: root_name.parse().unwrap(), path_len_constraint: None },
        2,
        "CN=Intermediate CA",
        intermediate_key.verifying_key(),
        &root_key,
    );
    let leaf = make_cert(
        Profile::Leaf {
            issuer: "CN=Intermediate CA".parse().unwrap(),
            enable_key_agreement: false,
            enable_key_encipherment: false,
            include_subject_key_identifier: true,
        },
        3,
        "CN=Leaf",
        leaf_key.verifying_key(),
        &intermediate_key,
    );
    let stranger = make_cert(Profile::Root, 4, "CN=Stranger", stranger_key.verifying_key(), &stranger_key);

    let parse = |cert: &x509_cert::Certificate| -> CertData {
        parse_cert_der(&cert.to_der().unwrap()).unwrap()
    };
    Chain {
        root: parse(&root),
        intermediate: parse(&intermediate),
        leaf: parse(&leaf),
        stranger: parse(&stranger),
    }
}

/// The set of DER encodings in a resolved list: resolution has set
/// semantics, so order and multiplicity are ignored.
fn ders(certs: &[CertData]) -> Vec<Vec<u8>> {
    let mut out: Vec<Vec<u8>> = certs.iter().map(|c| c.der.clone()).collect();
    out.sort();
    out.dedup();
    out
}

fn clone_cert(c: &CertData) -> CertData {
    CertData {
        subject_dn: c.subject_dn.clone(),
        issuer_dn: c.issuer_dn.clone(),
        is_ca: c.is_ca,
        der: c.der.clone(),
    }
}

#[test]
fn resolution_promotes_intermediate_and_keeps_anchors() {
    let chain = build_chain();
    let result = resolve_trust_chain(
        vec![clone_cert(&chain.leaf), clone_cert(&chain.intermediate)],
        vec![clone_cert(&chain.root)],
    );
    // The anchor stays first and unchanged; the intermediate is promoted;
    // the non-CA leaf is not, even though its signature verifies.
    assert_eq!(result[0].der, chain.root.der);
    assert_eq!(result.len(), 2);
    assert_eq!(result[1].der, chain.intermediate.der);
}

#[test]
fn resolution_superset_of_anchors() {
    let chain = build_chain();
    let anchors = vec![clone_cert(&chain.root), clone_cert(&chain.stranger)];
    let result = resolve_trust_chain(vec![clone_cert(&chain.intermediate)], anchors);
    assert_eq!(result[0].der, chain.root.der);
    assert_eq!(result[1].der, chain.stranger.der);
    assert!(result.len() >= 2);
}

#[test]
fn resolution_is_idempotent() {
    let chain = build_chain();
    let candidates = vec![clone_cert(&chain.leaf), clone_cert(&chain.intermediate)];
    let once = resolve_trust_chain(
        candidates.iter().map(clone_cert).collect(),
        vec![clone_cert(&chain.root)],
    );
    let twice = resolve_trust_chain(candidates.iter().map(clone_cert).collect(), once.iter().map(clone_cert).collect());
    assert_eq!(ders(&once), ders(&twice));
}

#[test]
fn resolution_ignores_unmatched_issuers() {
    let chain = build_chain();
    // The intermediate's issuer names the root; with only a stranger
    // trusted, nothing is ever promoted.
    let result = resolve_trust_chain(
        vec![clone_cert(&chain.intermediate), clone_cert(&chain.leaf)],
        vec![clone_cert(&chain.stranger)],
    );
    assert_eq!(result.len(), 1);
    assert_eq!(result[0].der, chain.stranger.der);
}

#[test]
fn resolution_is_order_independent() {
    let chain = build_chain();
    let forward = resolve_trust_chain(
        vec![clone_cert(&chain.intermediate), clone_cert(&chain.leaf)],
        vec![clone_cert(&chain.root)],
    );
    let backward = resolve_trust_chain(
        vec![clone_cert(&chain.leaf), clone_cert(&chain.intermediate)],
        vec![clone_cert(&chain.root)],
    );
    assert_eq!(ders(&forward), ders(&backward));
}

#[test]
fn parsed_certificates_expose_names_and_ca_flag() {
    let chain = build_chain();
    assert!(chain.root.is_ca);
    assert!(chain.intermediate.is_ca);
    assert!(!chain.leaf.is_ca);
    // The intermediate was issued by the root: issuer DN matches the
    // root's subject DN, and the signature verifies under the root's key.
    assert_eq!(chain.intermediate.issuer_dn, chain.root.subject_dn);
    assert!(check_signature(&chain.intermediate, &chain.root));
    assert!(!check_signature(&chain.intermediate, &chain.stranger));
    // Self-signed root.
    assert!(check_signature(&chain.root, &chain.root));
}

#[test]
fn pem_parsing_matches_der_parsing() {
    let root_key = SigningKey::random(&mut OsRng);
    let cert = make_cert(Profile::Root, 7, "CN=Pem Root", root_key.verifying_key(), &root_key);
    let pem = cert.to_pem(x509_cert::der::pem::LineEnding::LF).unwrap();
    let from_pem = parse_cert_pem(&pem).unwrap();
    let from_der = parse_cert_der(&cert.to_der().unwrap()).unwrap();
    assert_eq!(from_pem.subject_dn, from_der.subject_dn);
    assert_eq!(from_pem.issuer_dn, from_der.issuer_dn);
    assert_eq!(from_pem.is_ca, from_der.is_ca);
    assert_eq!(from_pem.der, from_der.der);
    assert!(parse_cert_pem(&"not a pem".to_string()).is_none());
}

use std::collections::BTreeMap;
use std::time::Duration as StdDuration;

use base64::prelude::{BASE64_URL_SAFE_NO_PAD, Engine};
use isomdl::definitions::namespaces::org_iso_18013_5_1::OrgIso1801351;
use isomdl::definitions::traits::{FromJson, ToNamespaceMap};
use isomdl::definitions::x509::X5Chain;
use isomdl::definitions::{CoseKey, DeviceKeyInfo, DigestAlgorithm, EC2Curve, EC2Y, ValidityInfo};
use isomdl::issuance::Mdoc as IssuanceMdoc;
use mdl_presentation::mdoc::{KeyAlias, Mdoc, MdocInitError, MdocVerificationError, Namespace};
use mdl_presentation::reader::AuthenticationStatus;
use mdl_presentation::simple::SimpleMdl;
use mdl_presentation::verification::MdocVerifier;
use p256::ecdsa::{SigningKey, VerifyingKey};
use p256::elliptic_curve::sec1::ToEncodedPoint;
use rand_core::OsRng;
use time::{Duration, OffsetDateTime};
use x509_cert::builder::{Builder, CertificateBuilder, Profile};
use x509_cert::der::oid::AssociatedOid;
use x509_cert::der::asn1::OctetString;
use x509_cert::der::referenced::OwnedToRef;
use x509_cert::der::{Decode, EncodePem};
use x509_cert::ext::pkix::crl::dp::DistributionPoint;
use x509_cert::ext::pkix::name::{DistributionPointName, GeneralName};
use x509_cert::ext::pkix::{
    AuthorityKeyIdentifier, CrlDistributionPoints, ExtendedKeyUsage, IssuerAltName, KeyUsage,
    KeyUsages, SubjectKeyIdentifier,
};
use x509_cert::name::Name;
use x509_cert::serial_number::SerialNumber;
use x509_cert::spki::SubjectPublicKeyInfoOwned;
use x509_cert::time::Validity;
use x509_cert::Certificate;

const SUITE_MDL_ITEMS: &str = r#"{
    "family_name": "Doe",
    "given_name": "John",
    "birth_date": "1990-01-01",
    "issue_date": "2023-01-01",
    "expiry_date": "2028-01-01",
    "issuing_country": "US",
    "issuing_authority": "DMV",
    "document_number": "123456789",
    "portrait": "SGVsbG8gV29ybGQ=",
    "driving_privileges": [
        {
            "vehicle_category_code": "B",
            "issue_date": "2023-01-01",
            "expiry_date": "2028-01-01"
        }
    ],
    "un_distinguishing_sign": "USA"
}"#;

fn suite_root_cert(subject: &str, key: &SigningKey, serial: u64) -> Certificate {
    let name: Name = subject.parse().unwrap();
    let spki = SubjectPublicKeyInfoOwned::from_key(key.verifying_key().clone()).unwrap();
    CertificateBuilder::new(
        Profile::Root,
        SerialNumber::from(serial),
        Validity::from_now(StdDuration::from_secs(3600)).unwrap(),
        name,
        spki,
        key,
    )
    .unwrap()
    .build::<p256::ecdsa::DerSignature>()
    .unwrap()
}

fn suite_cert_ski(cert: &Certificate) -> Vec<u8> {
    cert.tbs_certificate
        .extensions
        .as_ref()
        .unwrap()
        .iter()
        .find(|e| e.extn_id == SubjectKeyIdentifier::OID)
        .map(|e| {
            SubjectKeyIdentifier::from_der(e.extn_value.as_bytes())
                .unwrap()
                .0
                .as_bytes()
                .to_vec()
        })
        .unwrap()
}

/// Build a document-signer certificate for the issuer: subject
/// `CN=SpruceID Test DS` (plus the issuer's country and state where given),
/// signed by the issuer's key, with the 18013-5 DS profile extensions.
fn suite_ds_cert(
    ds_subject: &str,
    issuer_cert: &Certificate,
    issuer_key: &SigningKey,
    ds_key: &SigningKey,
) -> Certificate {
    let subject: Name = ds_subject.parse().unwrap();
    let issuer = issuer_cert.tbs_certificate.subject.clone();
    let spki = SubjectPublicKeyInfoOwned::from_key(ds_key.verifying_key().clone()).unwrap();
    let ski = SubjectKeyIdentifier::try_from(spki.owned_to_ref()).unwrap();
    let mut builder = CertificateBuilder::new(
        Profile::Manual { issuer: Some(issuer) },
        SerialNumber::from(99u64),
        Validity::from_now(StdDuration::from_secs(3600)).unwrap(),
        subject,
        spki.clone(),
        issuer_key,
    )
    .unwrap();
    builder.add_extension(&ski).unwrap();
    builder
        .add_extension(&AuthorityKeyIdentifier {
            key_identifier: Some(OctetString::new(suite_cert_ski(issuer_cert)).unwrap()),
            authority_cert_issuer: None,
            authority_cert_serial_number: None,
        })
        .unwrap();
    builder
        .add_extension(&KeyUsage(KeyUsages::DigitalSignature.into()))
        .unwrap();
    builder
        .add_extension(&ExtendedKeyUsage(vec!["1.0.18013.5.1.2".parse().unwrap()]))
        .unwrap();
    builder
        .add_extension(&CrlDistributionPoints(vec![DistributionPoint {
            distribution_point: Some(DistributionPointName::FullName(vec![
                GeneralName::UniformResourceIdentifier(
                    "https://example.com/crl".to_string().try_into().unwrap(),
                ),
            ])),
            reasons: None,
            crl_issuer: None,
        }]))
        .unwrap();
    builder
        .add_extension(&IssuerAltName(vec![GeneralName::Rfc822Name(
            "ca@example.com".to_string().try_into().unwrap(),
        )]))
        .unwrap();
    builder.build::<p256::ecdsa::DerSignature>().unwrap()
}

/// Issue an mDL through the credential engine: the DS certificate signs,
/// the chain goes into the issuer-auth header, and the result enters the
/// library as a base64url issuer-signed credential.
fn suite_issue_mdl(
    mdl_items: &str,
    ds_cert: Certificate,
    chain: Vec<Certificate>,
    ds_key: SigningKey,
) -> Mdoc {
    let device_key = SigningKey::random(&mut OsRng);
    let device_pub = VerifyingKey::from(&device_key);
    let ec = device_pub.to_encoded_point(false);
    let device_cose_key = CoseKey::EC2 {
        crv: EC2Curve::P256,
        x: ec.x().unwrap().to_vec(),
        y: EC2Y::Value(ec.y().unwrap().to_vec()),
    };
    let device_key_info = DeviceKeyInfo {
        device_key: device_cose_key,
        key_authorizations: None,
        key_info: None,
    };
    let validity_info = ValidityInfo {
        signed: OffsetDateTime::now_utc(),
        valid_from: OffsetDateTime::now_utc(),
        valid_until: OffsetDateTime::now_utc() + Duration::days(30),
        expected_update: None,
    };
    let data: serde_json::Value = serde_json::from_str(mdl_items).unwrap();
    let ns_data = OrgIso1801351::from_json(&data).unwrap().to_ns_map();
    let mut namespaces = BTreeMap::new();
    namespaces.insert("org.iso.18013.5.1".to_string(), ns_data);

    let mut x5chain_builder = X5Chain::builder().with_certificate(ds_cert).unwrap();
    for cert in chain {
        x5chain_builder = x5chain_builder.with_certificate(cert).unwrap();
    }
    let x5chain = x5chain_builder.build().unwrap();

    let mdoc = IssuanceMdoc::builder()
        .doc_type("org.iso.18013.5.1.mDL".to_string())
        .namespaces(namespaces)
        .validity_info(validity_info)
        .digest_algorithm(DigestAlgorithm::SHA256)
        .device_key_info(device_key_info)
        .issue::<SigningKey, p256::ecdsa::Signature>(x5chain, ds_key)
        .unwrap();

    let issuer_signed = isomdl::definitions::IssuerSigned {
        namespaces: Some(mdoc.namespaces),
        issuer_auth: mdoc.issuer_auth,
    };
    let encoded = BASE64_URL_SAFE_NO_PAD.encode(isomdl::cbor::to_vec(&issuer_signed).unwrap());
    Mdoc::new_from_base64url_encoded_issuer_signed(encoded, KeyAlias("test".to_string())).unwrap()
}

fn suite_simple_mdoc() -> Mdoc {
    let issuer_key = SigningKey::random(&mut OsRng);
    let issuer_cert = suite_root_cert("CN=Test Issuer", &issuer_key, 1);
    let ds_key = SigningKey::random(&mut OsRng);
    let ds_cert = suite_ds_cert("CN=SpruceID Test DS", &issuer_cert, &issuer_key, &ds_key);
    suite_issue_mdl(SUITE_MDL_ITEMS, ds_cert, vec![issuer_cert], ds_key)
}

#[test]
fn test_verify_issuer_signature_valid() {
    let mdoc = suite_simple_mdoc();

    // Verify the issuer signature without trust anchors: only the
    // signature itself is checked.
    let result = mdoc.verify_issuer_signature(None, false);
    assert!(result.is_ok(), "Verification should succeed: {:?}", result);

    let verification = result.unwrap();
    assert!(verification.verified, "Signature should be valid");
    assert_eq!(
        verification.common_name,
        Some("SpruceID Test DS".to_string()),
        "Common name should match DS certificate"
    );
    assert!(verification.error.is_none(), "No error expected");
}

#[test]
fn test_verify_issuer_signature_invalid_trust_anchor() {
    let mdoc = suite_simple_mdoc();

    let other_key = SigningKey::random(&mut OsRng);
    let other_cert = suite_root_cert("CN=Other Issuer", &other_key, 2);
    let other_cert_pem = other_cert.to_pem(x509_cert::der::pem::LineEnding::LF).unwrap();

    let result = mdoc.verify_issuer_signature(Some(vec![other_cert_pem]), false);
    assert!(result.is_err(), "Verification should fail with untrusted anchor");
    match result {
        Err(MdocVerificationError::X5ChainValidationFailed(_)) => {}
        Err(e) => panic!("Unexpected error type: {:?}", e),
        Ok(_) => panic!("Should have failed verification"),
    }
}

#[test]
fn test_verify_issuer_signature_chaining() {
    // Root and intermediate CA, the intermediate carrying the IACA profile
    // extensions.
    let root_key = SigningKey::random(&mut OsRng);
    let root_cert = suite_root_cert("CN=Root CA,C=US,ST=NY,O=SpruceID", &root_key, 1);
    let root_cert_pem = root_cert.to_pem(x509_cert::der::pem::LineEnding::LF).unwrap();

    let intermediate_key = SigningKey::random(&mut OsRng);
    let intermediate_subject: Name = "CN=Intermediate CA,C=US,ST=NY,O=SpruceID".parse().unwrap();
    let intermediate_spki =
        SubjectPublicKeyInfoOwned::from_key(intermediate_key.verifying_key().clone()).unwrap();
    let mut intermediate_builder = CertificateBuilder::new(
        Profile::SubCA {
            issuer: "CN=Root CA,C=US,ST=NY,O=SpruceID".parse().unwrap(),
            path_len_constraint: Some(0),
        },
        SerialNumber::from(2u64),
        Validity::from_now(StdDuration::from_secs(3600)).unwrap(),
        intermediate_subject,
        intermediate_spki,
        &root_key,
    )
    .unwrap();
    intermediate_builder
        .add_extension(&CrlDistributionPoints(vec![DistributionPoint {
            distribution_point: Some(DistributionPointName::FullName(vec![
                GeneralName::UniformResourceIdentifier(
                    "https://example.com/crl".to_string().try_into().unwrap(),
                ),
            ])),
            reasons: None,
            crl_issuer: None,
        }]))
        .unwrap();
    intermediate_builder
        .add_extension(&IssuerAltName(vec![GeneralName::Rfc822Name(
            "ca@example.com".to_string().try_into().unwrap(),
        )]))
        .unwrap();
    let intermediate_cert = intermediate_builder.build::<p256::ecdsa::DerSignature>().unwrap();

    let ds_key = SigningKey::random(&mut OsRng);
    let ds_cert = suite_ds_cert(
        "CN=SpruceID Test DS,C=US,ST=NY",
        &intermediate_cert,
        &intermediate_key,
        &ds_key,
    );

    let mdl_items = SUITE_MDL_ITEMS.replace("John", "Jane").replace("123456789", "987654321");
    let mdoc = suite_issue_mdl(&mdl_items, ds_cert, vec![intermediate_cert], ds_key);

    // Case A: chaining disabled.  Only the root is trusted and the
    // intermediate is missing from the anchors, so validation fails.
    let result_no_chain = mdoc.verify_issuer_signature(Some(vec![root_cert_pem.clone()]), false);
    assert!(
        result_no_chain.is_err(),
        "Verification should fail when chaining is disabled and intermediate is missing from anchors"
    );

    // Case B: chaining enabled.  The intermediate in the chain is promoted
    // against the root and the DS verifies against it.
    let result_chain = mdoc.verify_issuer_signature(Some(vec![root_cert_pem]), true);
    assert!(
        result_chain.is_ok(),
        "Verification should succeed when chaining is enabled: {:?}",
        result_chain.err()
    );
    let verification = result_chain.unwrap();
    assert!(verification.verified);
    assert_eq!(verification.common_name, Some("SpruceID Test DS".to_string()));
}

#[test]
fn mdoc_details_expose_issued_elements() {
    let mdoc = suite_simple_mdoc();
    assert_eq!(mdoc.doctype(), "org.iso.18013.5.1.mDL");
    let details = mdoc.details();
    let (_, elements) = details
        .iter()
        .find(|(ns, _)| ns == &Namespace("org.iso.18013.5.1".to_string()))
        .expect("mDL namespace not found");
    let family_name = elements
        .iter()
        .find(|e| e.identifier == "family_name")
        .expect("family_name not found");
    assert!(family_name.value.as_ref().unwrap().contains("Doe"));
    let given_name = elements
        .iter()
        .find(|e| e.identifier == "given_name")
        .expect("given_name not found");
    assert!(given_name.value.as_ref().unwrap().contains("John"));
}

#[test]
fn mdoc_stringify_roundtrip() {
    let mdoc = suite_simple_mdoc();
    let encoded = mdoc.stringify().unwrap();
    let parsed = Mdoc::from_stringified_document(encoded.clone(), KeyAlias("again".to_string()))
        .unwrap();
    assert_eq!(parsed.doctype(), "org.iso.18013.5.1.mDL");
    let parsed_default = Mdoc::from_string(encoded).unwrap();
    assert_eq!(parsed_default.key_alias().0, "parsed");
    assert!(mdoc.json().unwrap().contains("issuer_auth"));
}

#[test]
fn mdoc_constructor_rejects_bad_input() {
    match Mdoc::new_from_base64url_encoded_issuer_signed(
        "!!!not-base64url!!!".to_string(),
        KeyAlias("k".to_string()),
    ) {
        Err(MdocInitError::IssuerSignedBase64UrlDecoding) => {}
        other => panic!("expected base64url decoding error, got {:?}", other.err()),
    }
    match Mdoc::from_string("not a document".to_string()) {
        Err(MdocInitError::DocumentUtf8Decoding) => {}
        other => panic!("expected document decoding error, got {:?}", other.err()),
    }
    match Mdoc::from_cbor_encoded_document(vec![0xFF, 0x00], KeyAlias("k".to_string())) {
        Err(MdocInitError::DocumentCborDecoding(_)) => {}
        other => panic!("expected CBOR decoding error, got {:?}", other.err()),
    }
}

#[test]
fn verifier_validates_structure_and_anchors() {
    let mdoc = suite_simple_mdoc();
    let encoded = mdoc.stringify().unwrap();

    let verifier = MdocVerifier::new();
    // Structure only: the data is extracted, but no trust is asserted —
    // an empty anchor set yields Unchecked, never Valid.
    let structural = verifier.verify_structure_only(encoded.clone()).unwrap();
    assert!(!structural.valid);
    assert_eq!(structural.issuer_authentication, AuthenticationStatus::Unchecked);
    assert_eq!(structural.doc_type, "org.iso.18013.5.1.mDL");
    let (_, elements) = structural
        .data
        .iter()
        .find(|(ns, _)| ns == "org.iso.18013.5.1")
        .expect("mDL namespace missing from data");
    assert!(elements.iter().any(|(k, _)| k == "document_number"));

    // A stranger anchor is supplied: actual validation runs and fails.
    let other_key = SigningKey::random(&mut OsRng);
    let other_cert = suite_root_cert("CN=Another Issuer", &other_key, 5);
    let other_pem = other_cert.to_pem(x509_cert::der::pem::LineEnding::LF).unwrap();
    let checked = verifier.verify_with_single_anchor(encoded.clone(), other_pem).unwrap();
    assert!(!checked.valid);
    assert_eq!(checked.issuer_authentication, AuthenticationStatus::Invalid);

    // An anchor that is not a certificate at all is skipped, not fatal:
    // with nothing usable left, the outcome collapses to Unchecked.
    let skipped = verifier
        .verify_with_single_anchor(encoded, "not a certificate".to_string())
        .unwrap();
    assert_eq!(skipped.issuer_authentication, AuthenticationStatus::Unchecked);
    assert!(!skipped.valid);
}

#[test]
fn simple_mdl_reports_verifier_errors() {
    let simple = SimpleMdl::new();
    match simple.verify_structure_to_json("not a credential".to_string()) {
        Err(mdl_presentation::simple::MdlError::VerifierError(_)) => {}
        other => panic!("expected a verifier error, got {:?}", other),
    }
}

#[test]
fn simple_mdl_verifies_to_json() {
    let mdoc = suite_simple_mdoc();
    let encoded = mdoc.stringify().unwrap();
    let simple = SimpleMdl::new();
    let json = simple.verify_structure_to_json(encoded).unwrap();
    let value: serde_json::Value = serde_json::from_str(&json).unwrap();
    // Structure-only verification asserts no trust.
    assert_eq!(value["valid"], serde_json::Value::Bool(false));
    assert_eq!(
        value["doc_type"],
        serde_json::Value::String("org.iso.18013.5.1.mDL".to_string())
    );
    assert!(value["data"]["family_name"].as_str().unwrap().contains("Doe"));
}

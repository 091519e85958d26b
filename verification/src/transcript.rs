//! OID4VP session-transcript encoding.
//!
//! The redirect flow binds both authentication checks to a fixed
//! transcript: the CBOR array `[null, null, [clientIdHash, responseUriHash,
//! nonce]]`, where the two hashes are SHA-256 digests.  The encoding is a
//! plain function of the inputs, stated byte for byte and computed by
//! verified code; only the digests come from an outside crate.

use vstd::prelude::*;

use crate::engine::sha256_of;

verus! {

/// The initial byte(s) of a definite-length CBOR item: the major type in
/// the three top bits, then the length, inline below 24 and in the
/// shortest big-endian form above.
pub open spec fn cbor_header_spec(major: u8, len: nat) -> Seq<u8> {
    if len < 24 {
        seq![(major * 32 + len) as u8]
    } else if len < 256 {
        seq![(major * 32 + 24) as u8, len as u8]
    } else if len < 65536 {
        seq![(major * 32 + 25) as u8, (len / 256) as u8, (len % 256) as u8]
    } else if len < 4294967296 {
        seq![
            (major * 32 + 26) as u8,
            (len / 16777216) as u8,
            ((len / 65536) % 256) as u8,
            ((len / 256) % 256) as u8,
            (len % 256) as u8,
        ]
    } else {
        seq![
            (major * 32 + 27) as u8,
            ((len / 72057594037927936) % 256) as u8,
            ((len / 281474976710656) % 256) as u8,
            ((len / 1099511627776) % 256) as u8,
            ((len / 4294967296) % 256) as u8,
            ((len / 16777216) % 256) as u8,
            ((len / 65536) % 256) as u8,
            ((len / 256) % 256) as u8,
            (len % 256) as u8,
        ]
    }
}

/// A CBOR byte string: header, then the bytes.
pub open spec fn cbor_bytes_spec(b: Seq<u8>) -> Seq<u8> {
    cbor_header_spec(2, b.len()) + b
}

/// A CBOR text string over its UTF-8 bytes: header, then the bytes.
pub open spec fn cbor_text_spec(utf8: Seq<u8>) -> Seq<u8> {
    cbor_header_spec(3, utf8.len()) + utf8
}

/// The OID4VP handover: the 3-array of the client-id hash, the
/// response-uri hash and the nonce.
pub open spec fn handover_spec(cid_hash: Seq<u8>, uri_hash: Seq<u8>, nonce_utf8: Seq<u8>) -> Seq<
    u8,
> {
    seq![0x83u8] + cbor_bytes_spec(cid_hash) + cbor_bytes_spec(uri_hash) + cbor_text_spec(nonce_utf8)
}

/// The OID4VP session transcript: `[null, null, handover]`, its first two
/// elements always absent, and the handover's hash fields the SHA-256
/// digests of the client id and the response URI.
pub open spec fn oid4vp_transcript_spec(
    cid_utf8: Seq<u8>,
    uri_utf8: Seq<u8>,
    nonce_utf8: Seq<u8>,
) -> Seq<u8> {
    seq![0x83u8, 0xF6u8, 0xF6u8] + handover_spec(
        sha256_of(cid_utf8),
        sha256_of(uri_utf8),
        nonce_utf8,
    )
}

/// The UTF-8 bytes of the fixed context string of a device-authentication
/// structure, as a CBOR text item.
pub open spec fn device_auth_label_spec() -> Seq<u8> {
    seq![
        0x74u8, 0x44u8, 0x65u8, 0x76u8, 0x69u8, 0x63u8, 0x65u8, 0x41u8, 0x75u8, 0x74u8, 0x68u8,
        0x65u8, 0x6Eu8, 0x74u8, 0x69u8, 0x63u8, 0x61u8, 0x74u8, 0x69u8, 0x6Fu8, 0x6Eu8,
    ]
}

/// The detached payload a device signature is verified against: the
/// embedded-CBOR tag around the byte string holding the 4-array
/// `["DeviceAuthentication", transcript, docType, namespacesBytes]`, the
/// namespaces spliced in as the already-encoded item they are.
pub open spec fn device_auth_payload_spec(
    transcript: Seq<u8>,
    doctype_utf8: Seq<u8>,
    ns_bytes: Seq<u8>,
) -> Seq<u8> {
    seq![0xD8u8, 0x18u8] + cbor_bytes_spec(
        seq![0x84u8] + device_auth_label_spec() + transcript + cbor_text_spec(doctype_utf8)
            + ns_bytes,
    )
}

/// The header bytes of a definite-length CBOR item.
pub fn cbor_header(major: u8, len: usize) -> (r: Vec<u8>)
    requires
        major < 8,
    ensures
        r@ == cbor_header_spec(major, len as nat),
{
    let len: u64 = len as u64;
    let mut out: Vec<u8> = Vec::new();
    if len < 24 {
        out.push(major * 32 + (len as u8));
        proof {
            assert(out@ =~= cbor_header_spec(major, len as nat));
        }
    } else if len < 256 {
        out.push(major * 32 + 24);
        out.push(len as u8);
        proof {
            assert(out@ =~= cbor_header_spec(major, len as nat));
        }
    } else if len < 65536 {
        out.push(major * 32 + 25);
        out.push((len / 256) as u8);
        out.push((len % 256) as u8);
        proof {
            assert(out@ =~= cbor_header_spec(major, len as nat));
        }
    } else if len < 4294967296 {
        out.push(major * 32 + 26);
        out.push((len / 16777216) as u8);
        out.push(((len / 65536) % 256) as u8);
        out.push(((len / 256) % 256) as u8);
        out.push((len % 256) as u8);
        proof {
            assert(out@ =~= cbor_header_spec(major, len as nat));
        }
    } else {
        out.push(major * 32 + 27);
        out.push(((len / 72057594037927936) % 256) as u8);
        out.push(((len / 281474976710656) % 256) as u8);
        out.push(((len / 1099511627776) % 256) as u8);
        out.push(((len / 4294967296) % 256) as u8);
        out.push(((len / 16777216) % 256) as u8);
        out.push(((len / 65536) % 256) as u8);
        out.push(((len / 256) % 256) as u8);
        out.push((len % 256) as u8);
        proof {
            assert(out@ =~= cbor_header_spec(major, len as nat));
        }
    }
    out
}

/// Append `src`'s bytes to `dst`.
pub fn extend_bytes(dst: &mut Vec<u8>, src: &Vec<u8>)
    ensures
        final(dst)@ == old(dst)@ + src@,
{
    let mut i: usize = 0;
    while i < src.len()
        invariant
            0 <= i <= src@.len(),
            dst@ == old(dst)@ + src@.take(i as int),
        decreases src@.len() - i,
    {
        dst.push(src[i]);
        proof {
            assert(old(dst)@ + src@.take(i as int) + seq![src@[i as int]] =~= old(dst)@ + src@.take(
                i + 1,
            ));
        }
        i += 1;
    }
    proof {
        assert(src@.take(src@.len() as int) =~= src@);
    }
}

/// A CBOR byte-string item.
pub fn encode_bytes_item(b: &Vec<u8>) -> (r: Vec<u8>)
    ensures
        r@ == cbor_bytes_spec(b@),
{
    let mut out = cbor_header(2, b.len());
    extend_bytes(&mut out, b);
    out
}

/// A CBOR text-string item over UTF-8 bytes.
pub fn encode_text_item(utf8: &Vec<u8>) -> (r: Vec<u8>)
    ensures
        r@ == cbor_text_spec(utf8@),
{
    let mut out = cbor_header(3, utf8.len());
    extend_bytes(&mut out, utf8);
    out
}

/// The fixed device-authentication context string as a CBOR text item.
pub fn device_auth_label() -> (r: Vec<u8>)
    ensures
        r@ == device_auth_label_spec(),
{
    let mut out: Vec<u8> = Vec::new();
    out.push(0x74);
    out.push(0x44);
    out.push(0x65);
    out.push(0x76);
    out.push(0x69);
    out.push(0x63);
    out.push(0x65);
    out.push(0x41);
    out.push(0x75);
    out.push(0x74);
    out.push(0x68);
    out.push(0x65);
    out.push(0x6E);
    out.push(0x74);
    out.push(0x69);
    out.push(0x63);
    out.push(0x61);
    out.push(0x74);
    out.push(0x69);
    out.push(0x6F);
    out.push(0x6E);
    proof {
        assert(out@ =~= device_auth_label_spec());
    }
    out
}

/// The OID4VP handover bytes for the two digests and the nonce.
pub fn encode_handover(cid_hash: &Vec<u8>, uri_hash: &Vec<u8>, nonce_utf8: &Vec<u8>) -> (r: Vec<u8>)
    ensures
        r@ == handover_spec(cid_hash@, uri_hash@, nonce_utf8@),
{
    let mut out: Vec<u8> = Vec::new();
    out.push(0x83);
    let cid_item = encode_bytes_item(cid_hash);
    extend_bytes(&mut out, &cid_item);
    let uri_item = encode_bytes_item(uri_hash);
    extend_bytes(&mut out, &uri_item);
    let nonce_item = encode_text_item(nonce_utf8);
    extend_bytes(&mut out, &nonce_item);
    proof {
        assert(out@ =~= handover_spec(cid_hash@, uri_hash@, nonce_utf8@));
    }
    out
}

/// The device-authentication detached payload over an already-encoded
/// transcript, document type and namespaces item.
pub fn encode_device_auth_payload(
    transcript: &Vec<u8>,
    doctype_utf8: &Vec<u8>,
    ns_bytes: &Vec<u8>,
) -> (r: Vec<u8>)
    ensures
        r@ == device_auth_payload_spec(transcript@, doctype_utf8@, ns_bytes@),
{
    let mut inner: Vec<u8> = Vec::new();
    inner.push(0x84);
    let label = device_auth_label();
    extend_bytes(&mut inner, &label);
    extend_bytes(&mut inner, transcript);
    let doctype_item = encode_text_item(doctype_utf8);
    extend_bytes(&mut inner, &doctype_item);
    extend_bytes(&mut inner, ns_bytes);
    proof {
        assert(inner@ =~= seq![0x84u8] + device_auth_label_spec() + transcript@ + cbor_text_spec(
            doctype_utf8@,
        ) + ns_bytes@);
    }
    let mut out: Vec<u8> = Vec::new();
    out.push(0xD8);
    out.push(0x18);
    let inner_item = encode_bytes_item(&inner);
    extend_bytes(&mut out, &inner_item);
    proof {
        assert(out@ =~= device_auth_payload_spec(transcript@, doctype_utf8@, ns_bytes@));
    }
    out
}

} // verus!

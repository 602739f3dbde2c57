//! Administrative key material: generation of a fresh secp256k1 key pair,
//! derivation of the address from the public key, and message signing. The
//! curve arithmetic and the digest are done by outside code; this module
//! pins down exactly how their results are assembled into the key's fields.

use crate::error::PortoError;
use crate::hexfmt::{hex_decode, hex_encode, lemma_hex_round_trip, spec_hex, spec_unhex};
use vstd::prelude::*;
use sha3::Digest;
use vstd::string::{StrSliceExecFns, StringExecFns};

verus! {

/// Names the result of `sha3::Keccak256`: the Keccak-256 digest of the
/// input, a function of the input bytes alone.
pub uninterp spec fn keccak256_of(input: Seq<u8>) -> Seq<u8>;

/// Names the acceptance of `secp256k1::SecretKey::from_slice` on 32 bytes:
/// whether they form a valid secp256k1 secret key; a function of the bytes
/// alone.
pub uninterp spec fn is_valid_secret_key(sk: Seq<u8>) -> bool;

/// Names the result of `secp256k1::PublicKey::from_secret_key` followed by
/// `serialize_uncompressed`: the uncompressed SEC1 encoding of the public
/// key belonging to a valid secret key; deterministic in the key bytes.
pub uninterp spec fn spec_public_key_of(sk: Seq<u8>) -> Seq<u8>;

/// Names the result of `Secp256k1::sign_ecdsa` (deterministic per RFC 6979)
/// followed by `Signature::serialize_compact`: the compact ECDSA signature
/// of a 32-byte digest under a valid secret key.
pub uninterp spec fn spec_ecdsa_signature(digest: Seq<u8>, sk: Seq<u8>) -> Seq<u8>;

/// Relies on `sha3::Keccak256` through the digest interface (`new`,
/// `update`, `finalize`): the 32-byte Keccak-256 digest of the input.
#[verifier::external_body]
pub fn keccak256(input: &Vec<u8>) -> (r: Vec<u8>)
    ensures
        r@ == keccak256_of(input@),
        r@.len() == 32,
{
    let mut hasher = sha3::Keccak256::new();
    hasher.update(input.as_slice());
    hasher.finalize().to_vec()
}

/// Relies on `secp256k1::SecretKey::new`, which draws operating-system
/// randomness and retries until the bytes verify as a secret key, and on
/// `secret_bytes`: 32 bytes forming a valid key. The value is random;
/// nothing more is assumed of it.
#[verifier::external_body]
fn fresh_secret_key_bytes() -> (r: Vec<u8>)
    ensures
        r@.len() == 32,
        is_valid_secret_key(r@),
{
    secp256k1::SecretKey::new(&mut rand::rngs::OsRng).secret_bytes().to_vec()
}

/// Relies on `secp256k1::SecretKey::from_slice` (accepts exactly 32 bytes
/// forming a valid key), `PublicKey::from_secret_key` (deterministic) and
/// `PublicKey::serialize_uncompressed` (the 65-byte uncompressed SEC1 form).
#[verifier::external_body]
fn derive_public_key(sk: &Vec<u8>) -> (r: Option<Vec<u8>>)
    ensures
        r is Some <==> (sk@.len() == 32 && is_valid_secret_key(sk@)),
        r matches Some(p) ==> p@ == spec_public_key_of(sk@) && p@.len() == 65,
{
    match secp256k1::SecretKey::from_slice(sk) {
        Ok(key) => {
            let secp = secp256k1::Secp256k1::new();
            let public = secp256k1::PublicKey::from_secret_key(&secp, &key);
            Some(public.serialize_uncompressed().to_vec())
        },
        Err(_) => None,
    }
}

/// Relies on `secp256k1::Message::from_digest_slice` (accepts exactly 32
/// bytes), `Secp256k1::sign_ecdsa` (deterministic per RFC 6979) and
/// `Signature::serialize_compact` (64 bytes).
#[verifier::external_body]
fn ecdsa_sign_digest(digest: &Vec<u8>, sk: &Vec<u8>) -> (r: Option<Vec<u8>>)
    ensures
        r is Some <==> (digest@.len() == 32 && sk@.len() == 32 && is_valid_secret_key(sk@)),
        r matches Some(sig) ==> sig@ == spec_ecdsa_signature(digest@, sk@) && sig@.len() == 64,
{
    let key = match secp256k1::SecretKey::from_slice(sk) {
        Ok(k) => k,
        Err(_) => {
            return None;
        },
    };
    let msg = match secp256k1::Message::from_digest_slice(digest) {
        Ok(m) => m,
        Err(_) => {
            return None;
        },
    };
    let secp = secp256k1::Secp256k1::new();
    Some(secp.sign_ecdsa(&msg, &key).serialize_compact().to_vec())
}

/// The suffix of a byte vector from the given position on.
fn bytes_from(v: &Vec<u8>, from: usize) -> (r: Vec<u8>)
    requires
        from <= v@.len(),
    ensures
        r@ == v@.skip(from as int),
{
    let mut r: Vec<u8> = Vec::new();
    let mut i: usize = from;
    while i < v.len()
        invariant
            from <= i <= v@.len(),
            r@ == v@.subrange(from as int, i as int),
        decreases v@.len() - i,
    {
        let b = v[i];
        r.push(b);
        proof {
            assert(v@.subrange(from as int, i + 1) =~= v@.subrange(from as int, i as int).push(
                v@[i as int],
            ));
        }
        i += 1;
    }
    proof {
        assert(v@.skip(from as int) =~= v@.subrange(from as int, v@.len() as int));
    }
    r
}

/// Prefixes a string with `0x`.
fn with_hex_prefix(s: String) -> (r: String)
    ensures
        r@ == "0x"@ + s@,
{
    let mut r = String::from_str("0x");
    r.append(s.as_str());
    r
}

/// An administrative key pair: hex-encoded secret and public key material
/// and the derived address, each `0x`-prefixed.
pub struct AdminKey {
    pub private_key: String,
    pub public_key: String,
    pub key_type: String,
    pub address: String,
}

/// The secret key bytes denoted by an `AdminKey`'s `private_key` field
/// (everything after the `0x` prefix, hex-decoded).
pub open spec fn spec_secret_of(k: AdminKey) -> Seq<u8> {
    spec_unhex(k.private_key@.skip(2))
}

/// The address string derived from an uncompressed public key: the last 20
/// bytes of the Keccak-256 digest of its 64 content bytes (the leading
/// format byte is skipped), hex-encoded and `0x`-prefixed.
pub open spec fn spec_address_of(public_key_bytes: Seq<u8>) -> Seq<char> {
    "0x"@ + spec_hex(keccak256_of(public_key_bytes.skip(1)).skip(12))
}

/// Well-formedness of an `AdminKey`: its fields are exactly the `0x`-
/// prefixed hex encodings of a valid 32-byte secret key, of the public key
/// derived from it, and of the address derived from that public key, with
/// the fixed key type tag.
pub open spec fn admin_key_wf(k: AdminKey) -> bool {
    &&& spec_secret_of(k).len() == 32
    &&& is_valid_secret_key(spec_secret_of(k))
    &&& k.private_key@ == "0x"@ + spec_hex(spec_secret_of(k))
    &&& k.public_key@ == "0x"@ + spec_hex(spec_public_key_of(spec_secret_of(k)))
    &&& k.address@ == spec_address_of(spec_public_key_of(spec_secret_of(k)))
    &&& k.key_type@ == "secp256k1"@
}

impl AdminKey {
    /// Generates a fresh secp256k1 key pair and derives its address; the
    /// result is well-formed, with all fields consistent with one valid
    /// secret key.
    pub fn new() -> (r: Result<AdminKey, PortoError>)
        ensures
            r is Ok,
            r matches Ok(k) ==> admin_key_wf(k),
    {
        let secret = fresh_secret_key_bytes();
        let public = match derive_public_key(&secret) {
            Some(p) => p,
            None => {
                return Err(
                    PortoError::CryptoError(String::from_str("key generation failed")),
                );
            },
        };
        let private_key = with_hex_prefix(hex_encode(&secret));
        let public_key = with_hex_prefix(hex_encode(&public));
        let address = match Self::public_key_to_address(&public) {
            Ok(a) => a,
            Err(e) => {
                return Err(e);
            },
        };
        let key_type = String::from_str("secp256k1");
        let k = AdminKey { private_key, public_key, key_type, address };
        proof {
            reveal_strlit("0x");
            lemma_hex_round_trip(secret@);
            assert(k.private_key@.skip(2) =~= spec_hex(secret@));
            assert(spec_secret_of(k) == secret@);
        }
        Ok(k)
    }

    /// The address derived from an uncompressed public key: skip the leading
    /// format byte, take the Keccak-256 digest of the remaining bytes, keep
    /// the last 20 digest bytes, hex-encode and prefix `0x`.
    pub fn public_key_to_address(public_key_bytes: &Vec<u8>) -> (r: Result<String, PortoError>)
        requires
            public_key_bytes@.len() >= 1,
        ensures
            r is Ok,
            r matches Ok(a) ==> a@ == spec_address_of(public_key_bytes@),
    {
        let tail = bytes_from(public_key_bytes, 1);
        let digest = keccak256(&tail);
        let address_bytes = bytes_from(&digest, 12);
        Ok(with_hex_prefix(hex_encode(&address_bytes)))
    }

    /// Signs a message with this key: the compact ECDSA signature of the
    /// message's Keccak-256 digest under the key's secret, hex-encoded with
    /// a `0x` prefix.
    pub fn sign(&self, message: &Vec<u8>) -> (r: Result<String, PortoError>)
        requires
            admin_key_wf(*self),
        ensures
            r is Ok,
            r matches Ok(s) ==> s@ == "0x"@ + spec_hex(
                spec_ecdsa_signature(keccak256_of(message@), spec_secret_of(*self)),
            ),
    {
        proof {
            reveal_strlit("0x");
            lemma_hex_round_trip(spec_secret_of(*self));
            assert(self.private_key@.skip(2) =~= spec_hex(spec_secret_of(*self)));
        }
        let pk = self.private_key.as_str();
        let n = pk.unicode_len();
        let hex_part = pk.substring_char(2, n);
        let secret = match hex_decode(hex_part) {
            Some(v) => v,
            None => {
                return Err(PortoError::CryptoError(String::from_str("invalid private key")));
            },
        };
        let digest = keccak256(message);
        let sig = match ecdsa_sign_digest(&digest, &secret) {
            Some(s) => s,
            None => {
                return Err(PortoError::CryptoError(String::from_str("invalid secret key")));
            },
        };
        Ok(with_hex_prefix(hex_encode(&sig)))
    }
}

} // verus!

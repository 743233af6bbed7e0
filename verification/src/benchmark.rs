//! The key that the pallet's benchmarks sign with: the secp256k1 secret key
//! whose bytes are the Keccak-256 hash of `"Alice"`.
use vstd::prelude::*;

verus! {

#[verifier::external_type_specification]
#[verifier::external_body]
pub struct ExSecp256k1Error(libsecp256k1::Error);

/// The Keccak-256 hash of `data`.
pub uninterp spec fn keccak_256_hash(data: Seq<u8>) -> Seq<u8>;

/// `sp_io::hashing::keccak_256`: the 32-byte Keccak-256 hash of `data`.
#[verifier::external_body]
fn keccak_256(data: &[u8]) -> (r: [u8; 32])
    ensures
        r@ == keccak_256_hash(data@),
{
    sp_io::hashing::keccak_256(data)
}

/// The unsigned integer that `bytes` encode, most significant byte first.
pub open spec fn big_endian_value(bytes: Seq<u8>) -> nat
    decreases bytes.len(),
{
    if bytes.len() == 0 {
        0
    } else {
        big_endian_value(bytes.drop_last()) * 256 + bytes.last() as nat
    }
}

/// The order of the secp256k1 group.
pub open spec fn secp256k1_order() -> nat {
    0xFFFFFFFFFFFFFFFFFFFFFFFFFFFFFFFEBAAEDCE6AF48A03BBFD25E8CD0364141nat
}

/// Whether `bytes` encode a secp256k1 secret key: a scalar in `1 .. order`.
pub open spec fn is_secret_key(bytes: Seq<u8>) -> bool {
    0 < big_endian_value(bytes) < secp256k1_order()
}

/// `libsecp256k1::SecretKey::parse`: accepts the 32 bytes exactly when they
/// encode a nonzero scalar below the group order, and then holds that scalar,
/// whose serialization gives back the same bytes.
#[verifier::external_body]
fn secp256k1_parse(bytes: &[u8; 32]) -> (r: Result<[u8; 32], libsecp256k1::Error>)
    ensures
        r is Ok <==> is_secret_key(bytes@),
        r matches Ok(parsed) ==> parsed@ == bytes@,
{
    match libsecp256k1::SecretKey::parse(bytes) {
        Ok(key) => Ok(key.serialize()),
        Err(e) => Err(e),
    }
}

/// Why bytes are not a secret key.
#[derive(Clone, Copy, Debug, PartialEq, Eq, Structural)]
pub enum SecretKeyError {
    /// The bytes encode zero or a scalar not below the group order.
    InvalidSecretKey,
}

/// A secp256k1 secret key, held as its 32 big-endian bytes.
#[derive(Clone, Copy, Debug)]
pub struct SecretKey {
    bytes: [u8; 32],
}

impl View for SecretKey {
    type V = Seq<u8>;

    closed spec fn view(&self) -> Seq<u8> {
        self.bytes@
    }
}

impl SecretKey {
    #[verifier::type_invariant]
    spec fn is_valid(self) -> bool {
        is_secret_key(self.bytes@)
    }

    /// The key of the given bytes, if they encode one.
    pub fn parse(bytes: &[u8; 32]) -> (r: Result<SecretKey, SecretKeyError>)
        ensures
            r is Ok <==> is_secret_key(bytes@),
            r matches Ok(key) ==> key@ == bytes@,
            r matches Err(e) ==> e == SecretKeyError::InvalidSecretKey,
    {
        match secp256k1_parse(bytes) {
            Ok(parsed) => Ok(SecretKey { bytes: parsed }),
            Err(_) => Err(SecretKeyError::InvalidSecretKey),
        }
    }

    /// The key's 32 bytes.
    pub fn serialize(&self) -> (r: [u8; 32])
        ensures
            r@ == self@,
            is_secret_key(r@),
    {
        proof {
            use_type_invariant(self);
        }
        self.bytes
    }
}

/// The bytes of `"Alice"`.
pub open spec fn alice_seed() -> Seq<u8> {
    seq![65u8, 108u8, 105u8, 99u8, 101u8]
}

/// The bytes of `"Alice"`.
fn alice_seed_bytes() -> (r: [u8; 5])
    ensures
        r@ == alice_seed(),
{
    let r: [u8; 5] = [65u8, 108u8, 105u8, 99u8, 101u8];
    assert(r@ =~= alice_seed());
    r
}

/// Alice's key: the secret key whose bytes are the Keccak-256 hash of `"Alice"`.
pub fn alice() -> (r: SecretKey)
    requires
        is_secret_key(keccak_256_hash(alice_seed())),
    ensures
        r@ == keccak_256_hash(alice_seed()),
{
    let seed = alice_seed_bytes();
    let hash = keccak_256(seed.as_slice());
    match SecretKey::parse(&hash) {
        Ok(key) => key,
        Err(_) => vstd::pervasive::unreached(),
    }
}

/// Alice's key if the hash of `"Alice"` is a secret key, else `None`.
pub fn try_alice() -> (r: Option<SecretKey>)
    ensures
        r is Some <==> is_secret_key(keccak_256_hash(alice_seed())),
        r matches Some(key) ==> key@ == keccak_256_hash(alice_seed()),
{
    let seed = alice_seed_bytes();
    let hash = keccak_256(seed.as_slice());
    match SecretKey::parse(&hash) {
        Ok(_) => Some(alice()),
        Err(_) => None,
    }
}

} // verus!

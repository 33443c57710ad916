//! The sealed envelope around every datagram: AES-256-GCM under a key that
//! both ends derive from the shared secret.
//!
//! The key is PBKDF2-HMAC-SHA256 of the secret with a salt of 64 zero bytes
//! and 1024 iterations. Every datagram is sealed with the same all-zero nonce
//! and without associated data, and carries its 16-byte tag at the end.

use vstd::prelude::*;
use vstd::string::StringSliceAdditionalSpecFns;
use vstd::utf8::encode_utf8;

verus! {

/// Length of the key in bytes.
pub const KEY_LEN: usize = 32;

/// Length of the authentication tag in bytes.
pub const TAG_LEN: usize = 16;

/// Length of the nonce in bytes.
pub const NONCE_LEN: usize = 12;

/// Length of the salt in bytes.
pub const SALT_LEN: usize = 64;

/// Number of iterations of the key derivation.
pub const ITERATIONS: u32 = 1024;

/// The longest plaintext that one nonce can seal: the block counter of the
/// cipher has 32 bits, and two of its values are taken.
pub const MAX_PLAINTEXT_LEN: u64 = 0xf_ffff_ffe0;

/// The longest secret or salt that the key derivation takes.
pub const MAX_SECRET_LEN: u64 = 0x0fff_ffff_ffff_ffff;

/// What `ring::pbkdf2::derive` with `PBKDF2_HMAC_SHA256` writes into an
/// output of `len` bytes.
pub uninterp spec fn pbkdf2_hmac_sha256(
    iterations: u32,
    salt: Seq<u8>,
    secret: Seq<u8>,
    len: nat,
) -> Seq<u8>;

/// Ciphertext and tag that `ring::aead::LessSafeKey::seal_in_place_append_tag`
/// produces with `AES_256_GCM` and no associated data.
pub uninterp spec fn aes_256_gcm_seal(key: Seq<u8>, nonce: Seq<u8>, plaintext: Seq<u8>) -> Seq<u8>;

/// Plaintext that `ring::aead::LessSafeKey::open_in_place` returns with
/// `AES_256_GCM` and no associated data, or nothing where it refuses the
/// input.
pub uninterp spec fn aes_256_gcm_open(key: Seq<u8>, nonce: Seq<u8>, sealed: Seq<u8>) -> Option<
    Seq<u8>,
>;

/// `n` zero bytes.
pub open spec fn zeros(n: nat) -> Seq<u8> {
    Seq::new(n, |i: int| 0u8)
}

/// The key that belongs to a shared secret.
pub open spec fn spec_derive_key(secret: Seq<u8>) -> Seq<u8> {
    pbkdf2_hmac_sha256(ITERATIONS, zeros(SALT_LEN as nat), secret, KEY_LEN as nat)
}

/// The sealed form of a plaintext.
pub open spec fn spec_seal(key: Seq<u8>, plaintext: Seq<u8>) -> Seq<u8> {
    aes_256_gcm_seal(key, zeros(NONCE_LEN as nat), plaintext)
}

/// The plaintext of a sealed form, or nothing where it does not authenticate.
pub open spec fn spec_open(key: Seq<u8>, sealed: Seq<u8>) -> Option<Seq<u8>> {
    aes_256_gcm_open(key, zeros(NONCE_LEN as nat), sealed)
}

/// `ring::pbkdf2::derive` with `PBKDF2_HMAC_SHA256`: fills `len` bytes with
/// the key derived from `secret` and `salt`. The call panics on an output
/// longer than 32 bytes times 2^32 - 1 and on inputs too long to be hashed,
/// which the preconditions leave out.
#[verifier::external_body]
fn pbkdf2_derive(iterations: u32, salt: &[u8], secret: &[u8], len: usize) -> (out: Vec<u8>)
    requires
        iterations > 0,
        salt@.len() <= MAX_SECRET_LEN,
        secret@.len() <= MAX_SECRET_LEN,
        len <= u32::MAX,
    ensures
        out@ == pbkdf2_hmac_sha256(iterations, salt@, secret@, len as nat),
        out@.len() == len,
{
    let mut out = vec![0u8; len];
    let rounds = core::num::NonZeroU32::new(iterations).unwrap();
    ring::pbkdf2::derive(ring::pbkdf2::PBKDF2_HMAC_SHA256, rounds, salt, secret, &mut out);
    out
}

/// `ring::aead::LessSafeKey::seal_in_place_append_tag` under a key made by
/// `ring::aead::UnboundKey::new` for `AES_256_GCM`, without associated data:
/// encrypts the plaintext and appends the 16-byte tag. It fails exactly on a
/// plaintext that is too long for one nonce, and what it produces opens to
/// the plaintext under the same key and nonce.
#[verifier::external_body]
fn aead_seal(key: &[u8], nonce: &[u8; 12], plaintext: &[u8]) -> (r: Option<Vec<u8>>)
    requires
        key@.len() == KEY_LEN,
    ensures
        r is Some <==> plaintext@.len() <= MAX_PLAINTEXT_LEN,
        r matches Some(sealed) ==> {
            &&& sealed@ == aes_256_gcm_seal(key@, nonce@, plaintext@)
            &&& sealed@.len() == plaintext@.len() + TAG_LEN
            &&& aes_256_gcm_open(key@, nonce@, sealed@) == Some(plaintext@)
        },
{
    let unbound = ring::aead::UnboundKey::new(&ring::aead::AES_256_GCM, key).unwrap();
    let key = ring::aead::LessSafeKey::new(unbound);
    let nonce = ring::aead::Nonce::assume_unique_for_key(*nonce);
    let mut in_out = plaintext.to_vec();
    match key.seal_in_place_append_tag(nonce, ring::aead::Aad::empty(), &mut in_out) {
        Ok(()) => Some(in_out),
        Err(_) => None,
    }
}

/// `ring::aead::LessSafeKey::open_in_place` under a key made by
/// `ring::aead::UnboundKey::new` for `AES_256_GCM`, without associated data:
/// checks the tag at the end of the input and decrypts what stands before it.
/// An input shorter than a tag is refused.
#[verifier::external_body]
fn aead_open(key: &[u8], nonce: &[u8; 12], sealed: &[u8]) -> (r: Option<Vec<u8>>)
    requires
        key@.len() == KEY_LEN,
    ensures
        match r {
            Some(plaintext) => aes_256_gcm_open(key@, nonce@, sealed@) == Some(plaintext@)
                && plaintext@.len() + TAG_LEN == sealed@.len(),
            None => aes_256_gcm_open(key@, nonce@, sealed@) is None,
        },
        sealed@.len() < TAG_LEN ==> r is None,
{
    let unbound = ring::aead::UnboundKey::new(&ring::aead::AES_256_GCM, key).unwrap();
    let key = ring::aead::LessSafeKey::new(unbound);
    let nonce = ring::aead::Nonce::assume_unique_for_key(*nonce);
    let mut in_out = sealed.to_vec();
    match key.open_in_place(nonce, ring::aead::Aad::empty(), &mut in_out) {
        Ok(plaintext) => Some(plaintext.to_vec()),
        Err(_) => None,
    }
}

/// A key of the envelope.
pub struct Key {
    bytes: Vec<u8>,
}

impl View for Key {
    type V = Seq<u8>;

    closed spec fn view(&self) -> Seq<u8> {
        self.bytes@
    }
}

impl Key {
    /// A key has 32 bytes.
    #[verifier::type_invariant]
    spec fn well_formed(&self) -> bool {
        self.bytes@.len() == KEY_LEN
    }

    /// The bytes of the key.
    pub fn as_bytes(&self) -> (bytes: &[u8])
        ensures
            bytes@ == self@,
            bytes@.len() == KEY_LEN,
    {
        proof {
            use_type_invariant(self);
        }
        self.bytes.as_slice()
    }
}

/// Derives the key from the shared secret.
pub fn derive_keys(password: &str) -> (key: Key)
    requires
        encode_utf8(password@).len() <= MAX_SECRET_LEN,
    ensures
        key@ == spec_derive_key(encode_utf8(password@)),
{
    let salt = [0u8; 64];
    assert(salt@ =~= zeros(SALT_LEN as nat));
    let bytes = pbkdf2_derive(ITERATIONS, salt.as_slice(), password.as_bytes(), KEY_LEN);
    Key { bytes }
}

/// Seals a plaintext: encrypts it and appends the tag. There is a result
/// exactly where the plaintext is short enough for one nonce, and opening
/// the result under the same key gives the plaintext back.
pub fn seal(key: &Key, plaintext: &[u8]) -> (r: Option<Vec<u8>>)
    ensures
        r is Some <==> plaintext@.len() <= MAX_PLAINTEXT_LEN,
        r matches Some(sealed) ==> {
            &&& sealed@ == spec_seal(key@, plaintext@)
            &&& sealed@.len() == plaintext@.len() + TAG_LEN
            &&& spec_open(key@, sealed@) == Some(plaintext@)
        },
{
    let nonce = [0u8; 12];
    assert(nonce@ =~= zeros(NONCE_LEN as nat));
    aead_seal(key.as_bytes(), &nonce, plaintext)
}

/// Opens a sealed datagram: checks the tag and decrypts. There is no result
/// where the datagram does not authenticate under the key.
pub fn open(key: &Key, sealed: &[u8]) -> (r: Option<Vec<u8>>)
    ensures
        match r {
            Some(plaintext) => spec_open(key@, sealed@) == Some(plaintext@) && plaintext@.len()
                + TAG_LEN == sealed@.len(),
            None => spec_open(key@, sealed@) is None,
        },
        sealed@.len() < TAG_LEN ==> r is None,
{
    let nonce = [0u8; 12];
    assert(nonce@ =~= zeros(NONCE_LEN as nat));
    aead_open(key.as_bytes(), &nonce, sealed)
}

} // verus!

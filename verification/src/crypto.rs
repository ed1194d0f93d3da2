//! Field-level encryption of sensitive values (AES-256-GCM) and keyed blind-index
//! digests (HMAC-SHA256).
use vstd::prelude::*;
use vstd::slice::{slice_subrange, slice_to_vec};
use vstd::utf8::{decode_utf8, encode_utf8, encode_utf8_decode_utf8, encode_utf8_valid_utf8, valid_utf8};

use aes_gcm::aead::{Aead, AeadCore, KeyInit, OsRng};
use aes_gcm::{Aes256Gcm, Key, Nonce};
use base64::engine::general_purpose::STANDARD;
use base64::Engine;
use hmac::{Hmac, Mac};
use sha2::Sha256;

use crate::text::{int_text, owned, push_str, u64_text};

verus! {

/// Length of an AES-GCM nonce in bytes.
pub const NONCE_LEN: usize = 12;

/// Length of an AES-256 key in bytes.
pub const KEY_LEN: usize = 32;

// ── Names of outside results ──────────────────────────────────────────────────

/// What `STANDARD.encode` (base64 with padding) yields for `b`.
pub uninterp spec fn base64_text(b: Seq<u8>) -> Seq<char>;

/// What `STANDARD.decode` yields for `s`: the bytes, or the text of the decode error.
pub uninterp spec fn base64_decoded(s: Seq<char>) -> Result<Seq<u8>, Seq<char>>;

/// What `Aes256Gcm::encrypt` yields for key, nonce and plaintext: ciphertext with tag.
pub uninterp spec fn aes256gcm_sealed(key: Seq<u8>, nonce: Seq<u8>, pt: Seq<u8>) -> Option<Seq<u8>>;

/// What `Aes256Gcm::decrypt` yields for key, nonce and ciphertext with tag.
pub uninterp spec fn aes256gcm_opened(key: Seq<u8>, nonce: Seq<u8>, ct: Seq<u8>) -> Option<Seq<u8>>;

/// What `Hmac::<Sha256>` yields as tag for key and message.
pub uninterp spec fn hmac_sha256_tag(key: Seq<u8>, msg: Seq<u8>) -> Seq<u8>;

/// The text of the error `String::from_utf8` reports for `b`.
pub uninterp spec fn from_utf8_error_text(b: Seq<u8>) -> Seq<char>;

pub open spec fn ok_bytes(b: Seq<u8>) -> Result<Seq<u8>, Seq<char>> {
    Ok(b)
}

pub open spec fn err_text(e: Seq<char>) -> Result<Seq<u8>, Seq<char>> {
    Err(e)
}

// ── Wrappers ──────────────────────────────────────────────────────────────────

/// `STANDARD.encode` of base64: what it yields decodes back to `b`.
#[verifier::external_body]
fn base64_encode(b: &[u8]) -> (r: String)
    ensures
        r@ == base64_text(b@),
        base64_decoded(r@) == ok_bytes(b@),
{
    STANDARD.encode(b)
}

/// `STANDARD.decode` of base64, with the decode error as text.
#[verifier::external_body]
fn base64_decode(s: &str) -> (r: Result<Vec<u8>, String>)
    ensures
        r matches Ok(b) ==> base64_decoded(s@) == ok_bytes(b@),
        r matches Err(e) ==> base64_decoded(s@) == err_text(e@),
{
    STANDARD.decode(s).map_err(|e| e.to_string())
}

/// A fresh random nonce from the operating system (`Aes256Gcm::generate_nonce` with
/// `OsRng`). Nothing is stated of its bytes; the call panics if the system source of
/// randomness fails.
#[verifier::external_body]
fn random_nonce() -> (r: Vec<u8>)
    ensures
        r.len() == NONCE_LEN,
{
    Aes256Gcm::generate_nonce(&mut OsRng).to_vec()
}

/// Largest plaintext AES-GCM encrypts, in bytes (`P_MAX`, 2^36).
pub const PLAINTEXT_MAX: u64 = 0x10_0000_0000u64;

/// `Aes256Gcm::encrypt` under `key` with `nonce`; on failure, the error's text
/// (`aead::Error`). It fails only for a plaintext longer than `P_MAX` bytes; what it
/// yields is the ciphertext followed by a 16-byte tag, and decrypts back to `pt` under
/// the same key and nonce.
#[verifier::external_body]
fn aes_seal(key: &[u8], nonce: &[u8], pt: &[u8]) -> (r: Result<Vec<u8>, String>)
    requires
        key@.len() == KEY_LEN,
        nonce@.len() == NONCE_LEN,
    ensures
        pt@.len() <= PLAINTEXT_MAX ==> r is Ok,
        r matches Ok(ct) ==> ct@.len() == pt@.len() + 16,
        r matches Ok(ct) ==> aes256gcm_sealed(key@, nonce@, pt@) == Some(ct@),
        r matches Ok(ct) ==> aes256gcm_opened(key@, nonce@, ct@) == Some(pt@),
        r matches Err(e) ==> aes256gcm_sealed(key@, nonce@, pt@) is None && e@ == "aead::Error"@,
{
    Aes256Gcm::new(Key::<Aes256Gcm>::from_slice(key)).encrypt(Nonce::from_slice(nonce), pt).map_err(
        |e| e.to_string(),
    )
}

/// `Aes256Gcm::decrypt` under `key` with `nonce`; on failure, the error's text
/// (`aead::Error`).
#[verifier::external_body]
fn aes_open(key: &[u8], nonce: &[u8], ct: &[u8]) -> (r: Result<Vec<u8>, String>)
    requires
        key@.len() == KEY_LEN,
        nonce@.len() == NONCE_LEN,
    ensures
        r matches Ok(pt) ==> aes256gcm_opened(key@, nonce@, ct@) == Some(pt@),
        r matches Err(e) ==> aes256gcm_opened(key@, nonce@, ct@) is None && e@ == "aead::Error"@,
{
    Aes256Gcm::new(Key::<Aes256Gcm>::from_slice(key)).decrypt(Nonce::from_slice(nonce), ct).map_err(
        |e| e.to_string(),
    )
}

/// The HMAC-SHA256 tag of `msg` under `key` (any key length is accepted); 32 bytes long.
#[verifier::external_body]
fn hmac_sha256(key: &[u8], msg: &[u8]) -> (r: Vec<u8>)
    ensures
        r@ == hmac_sha256_tag(key@, msg@),
        r@.len() == 32,
{
    let mut mac = <Hmac<Sha256> as KeyInit>::new_from_slice(key).expect(
        "HMAC accepts any key length",
    );
    mac.update(msg);
    mac.finalize().into_bytes().to_vec()
}

/// A lowercase hexadecimal digit.
pub open spec fn hex_digit(d: int) -> char {
    if d < 10 {
        ((d + 48) as u32) as char
    } else {
        ((d - 10 + 97) as u32) as char
    }
}

/// Lowercase hexadecimal text of `b`: two digits per byte, high nibble first.
pub open spec fn hex_text(b: Seq<u8>) -> Seq<char> {
    Seq::new(
        2 * b.len(),
        |i: int|
            if i % 2 == 0 {
                hex_digit(b[i / 2] as int / 16)
            } else {
                hex_digit(b[i / 2] as int % 16)
            },
    )
}

/// `hex::encode`: lowercase hexadecimal, two digits per byte.
#[verifier::external_body]
fn hex_encode(b: &[u8]) -> (r: String)
    ensures
        r@ == hex_text(b@),
{
    hex::encode(b)
}

/// What SHA-256 yields for `msg`.
pub uninterp spec fn sha256_of(msg: Seq<u8>) -> Seq<u8>;

/// `Sha256::digest`: the SHA-256 hash of `msg`, 32 bytes.
#[verifier::external_body]
fn sha256_digest(msg: &[u8]) -> (r: Vec<u8>)
    ensures
        r@ == sha256_of(msg@),
        r@.len() == 32,
{
    <Sha256 as sha2::Digest>::digest(msg).to_vec()
}

/// The lowercase hexadecimal SHA-256 of a token's UTF-8 bytes.
pub open spec fn token_hash_view(t: Seq<char>) -> Seq<char> {
    hex_text(sha256_of(encode_utf8(t)))
}

/// The hash under which a session token is stored: the lowercase hexadecimal SHA-256
/// of its UTF-8 bytes. Only this hash is kept, never the token.
pub fn token_hash(token: &str) -> (r: String)
    ensures
        r@ == token_hash_view(token@),
{
    let d = sha256_digest(token.as_bytes());
    hex_encode(d.as_slice())
}

/// `String::from_utf8`: the text whose UTF-8 encoding is `b`, or the error's text.
#[verifier::external_body]
fn string_from_utf8(b: Vec<u8>) -> (r: Result<String, String>)
    ensures
        r is Ok <==> valid_utf8(b@),
        r matches Ok(s) ==> s@ == decode_utf8(b@),
        r matches Err(e) ==> e@ == from_utf8_error_text(b@),
{
    String::from_utf8(b).map_err(|e| e.to_string())
}

} // verus!

verus! {

/// The outcome of decrypting blob `s` under key `k`: base64-decode it, split off the
/// 12-byte nonce, open the rest with AES-256-GCM and read the plaintext as UTF-8.
pub open spec fn decrypt_view(k: Seq<u8>, s: Seq<char>) -> Result<Seq<char>, Seq<char>> {
    match base64_decoded(s) {
        Err(e) => Err("base64 decode error: "@ + e),
        Ok(b) => if b.len() < NONCE_LEN {
            Err(
                "Ciphertext too short ("@ + int_text(b.len() as int)
                    + " bytes); expected at least 12 bytes"@,
            )
        } else {
            match aes256gcm_opened(k, b.take(NONCE_LEN as int), b.skip(NONCE_LEN as int)) {
                None => Err("AES-GCM decryption failed: aead::Error"@),
                Some(pt) => if valid_utf8(pt) {
                    Ok(decode_utf8(pt))
                } else {
                    Err("UTF-8 decode error after decryption: "@ + from_utf8_error_text(pt))
                },
            }
        },
    }
}

/// Whether blob `s` is `base64(nonce || ciphertext)` for some 12-byte nonce, where the
/// ciphertext is what AES-256-GCM yields for plaintext `p` under key `k`.
pub open spec fn encrypted_under(k: Seq<u8>, p: Seq<char>, s: Seq<char>) -> bool {
    exists|n: Seq<u8>, ct: Seq<u8>|
        #![trigger aes256gcm_sealed(k, n, encode_utf8(p)), base64_text(n + ct)]
        n.len() == NONCE_LEN && aes256gcm_sealed(k, n, encode_utf8(p)) == Some(ct) && s
            == base64_text(n + ct)
}

/// Whether blob `s` is `base64(nonce || ciphertext)` where the ciphertext is what
/// AES-256-GCM yields for plaintext `p` under key `k` and `nonce`.
pub open spec fn sealed_blob(k: Seq<u8>, nonce: Seq<u8>, p: Seq<char>, s: Seq<char>) -> bool {
    aes256gcm_sealed(k, nonce, encode_utf8(p)) is Some && s == base64_text(
        nonce + aes256gcm_sealed(k, nonce, encode_utf8(p))->0,
    ) && base64_decoded(s) == ok_bytes(nonce + aes256gcm_sealed(k, nonce, encode_utf8(p))->0)
}

/// The nonce a blob was sealed under: the first 12 bytes it decodes to.
pub open spec fn blob_nonce(s: Seq<char>) -> Seq<u8> {
    match base64_decoded(s) {
        Ok(b) => b.take(NONCE_LEN as int),
        Err(_) => Seq::empty(),
    }
}

/// Blobs sealed under different nonces differ, whatever their plaintexts: the nonce
/// is the head of what a blob decodes to.
pub proof fn lemma_distinct_nonces_distinct_blobs(
    k: Seq<u8>,
    n1: Seq<u8>,
    n2: Seq<u8>,
    p1: Seq<char>,
    p2: Seq<char>,
    s1: Seq<char>,
    s2: Seq<char>,
)
    requires
        n1.len() == NONCE_LEN,
        n2.len() == NONCE_LEN,
        n1 != n2,
        sealed_blob(k, n1, p1, s1),
        sealed_blob(k, n2, p2, s2),
    ensures
        s1 != s2,
        blob_nonce(s1) == n1,
        blob_nonce(s2) == n2,
{
    let c1 = aes256gcm_sealed(k, n1, encode_utf8(p1))->0;
    let c2 = aes256gcm_sealed(k, n2, encode_utf8(p2))->0;
    assert((n1 + c1).take(NONCE_LEN as int) =~= n1);
    assert((n2 + c2).take(NONCE_LEN as int) =~= n2);
}

/// The number of bytes blob `s` decodes to from base64 (0 when it does not decode).
pub open spec fn blob_len(s: Seq<char>) -> int {
    match base64_decoded(s) {
        Ok(b) => b.len() as int,
        Err(_) => 0,
    }
}

/// The blind-index digest of `p` under key `k`: the first 16 bytes of its HMAC-SHA256
/// tag, in lowercase hexadecimal.
pub open spec fn digest_view(k: Seq<u8>, p: Seq<char>) -> Seq<char> {
    hex_text(hmac_sha256_tag(k, encode_utf8(p)).take(16))
}

/// Whether `c` is a lowercase hexadecimal digit.
pub open spec fn is_hex_digit(c: char) -> bool {
    ('0' <= c && c <= '9') || ('a' <= c && c <= 'f')
}

pub open spec fn ok_text(s: Seq<char>) -> Result<Seq<char>, Seq<char>> {
    Ok(s)
}

pub open spec fn result_view(r: Result<String, String>) -> Result<Seq<char>, Seq<char>> {
    match r {
        Ok(s) => Ok(s@),
        Err(e) => Err(e@),
    }
}

/// The error reported for a key text that does not decode to 32 bytes, if any.
pub open spec fn key_error(s: Seq<char>) -> Option<Seq<char>> {
    match base64_decoded(s) {
        Err(e) => Some("ENCRYPTION_KEY is not valid base64: "@ + e),
        Ok(b) => if b.len() != KEY_LEN {
            Some(
                "ENCRYPTION_KEY must decode to exactly 32 bytes (AES-256), got "@ + int_text(
                    b.len() as int,
                ) + " bytes"@,
            )
        } else {
            None
        },
    }
}

/// AES-256-GCM cipher for field-level encryption, holding its 256-bit key.
///
/// Blobs are `base64(nonce_12_bytes || ciphertext_with_tag)`; every encryption draws a
/// fresh random nonce. The keyed digest serves as a blind index for equality lookups.
pub struct Cipher {
    key_bytes: Vec<u8>,
}

impl Cipher {
    #[verifier::type_invariant]
    spec fn inv(self) -> bool {
        self.key_bytes@.len() == KEY_LEN
    }

    /// The key.
    pub closed spec fn key(&self) -> Seq<u8> {
        self.key_bytes@
    }

    /// Builds a cipher from a base64-encoded 32-byte key; refuses text that is not
    /// base64 or does not decode to exactly 32 bytes.
    pub fn from_base64_key(b64_key: &str) -> (r: Result<Cipher, String>)
        ensures
            r is Ok <==> key_error(b64_key@) is None,
            r matches Ok(c) ==> base64_decoded(b64_key@) == ok_bytes(c.key()),
            r matches Err(e) ==> key_error(b64_key@) == Some(e@),
    {
        let decoded = match base64_decode(b64_key) {
            Ok(d) => d,
            Err(e) => {
                let mut m = owned("ENCRYPTION_KEY is not valid base64: ");
                push_str(&mut m, &e);
                return Err(m);
            },
        };
        if decoded.len() != KEY_LEN {
            let mut m = owned("ENCRYPTION_KEY must decode to exactly 32 bytes (AES-256), got ");
            push_str(&mut m, &u64_text(decoded.len() as u64));
            push_str(&mut m, " bytes");
            return Err(m);
        }
        Ok(Cipher { key_bytes: decoded })
    }

    /// Encrypts `plaintext` under `nonce`: the blob is the base64 text of the nonce
    /// followed by the AES-256-GCM ciphertext and its 16-byte tag, and decrypts back to
    /// `plaintext`. Only a plaintext longer than 2^36 bytes is refused. A nonce must never
    /// be used twice under one key; `encrypt` draws a fresh one.
    pub fn encrypt_with_nonce(&self, nonce: &[u8], plaintext: &str) -> (r: Result<String, String>)
        requires
            nonce@.len() == NONCE_LEN,
        ensures
            encode_utf8(plaintext@).len() <= PLAINTEXT_MAX ==> r is Ok,
            r matches Ok(s) ==> sealed_blob(self.key(), nonce@, plaintext@, s@),
            r matches Ok(s) ==> blob_len(s@) == encode_utf8(plaintext@).len() + 28,
            r matches Ok(s) ==> encrypted_under(self.key(), plaintext@, s@),
            r matches Ok(s) ==> decrypt_view(self.key(), s@) == ok_text(plaintext@),
            r matches Err(e) ==> e@ == "AES-GCM encryption failed: aead::Error"@,
    {
        proof {
            use_type_invariant(self);
        }
        let bytes = plaintext.as_bytes();
        let ct = match aes_seal(self.key_bytes.as_slice(), nonce, bytes) {
            Ok(ct) => ct,
            Err(e) => {
                let mut m = owned("AES-GCM encryption failed: ");
                push_str(&mut m, &e);
                proof {
                    reveal_strlit("AES-GCM encryption failed: ");
                    reveal_strlit("aead::Error");
                    reveal_strlit("AES-GCM encryption failed: aead::Error");
                    assert(m@ =~= "AES-GCM encryption failed: aead::Error"@);
                }
                return Err(m);
            },
        };
        let mut combined = slice_to_vec(nonce);
        let ghost n = combined@;
        let mut ct2 = ct;
        combined.append(&mut ct2);
        let s = base64_encode(combined.as_slice());
        proof {
            let c = combined@;
            assert(c =~= n + ct@);
            assert(c.take(NONCE_LEN as int) =~= n);
            assert(c.skip(NONCE_LEN as int) =~= ct@);
            encode_utf8_valid_utf8(plaintext@);
            encode_utf8_decode_utf8(plaintext@);
            assert(bytes@ == encode_utf8(plaintext@));
        }
        Ok(s)
    }

    /// Encrypts `plaintext` under a fresh random nonce (see `encrypt_with_nonce`).
    pub fn encrypt(&self, plaintext: &str) -> (r: Result<String, String>)
        ensures
            encode_utf8(plaintext@).len() <= PLAINTEXT_MAX ==> r is Ok,
            r matches Ok(s) ==> blob_len(s@) == encode_utf8(plaintext@).len() + 28,
            r matches Ok(s) ==> encrypted_under(self.key(), plaintext@, s@),
            r matches Ok(s) ==> decrypt_view(self.key(), s@) == ok_text(plaintext@),
            r matches Err(e) ==> e@ == "AES-GCM encryption failed: aead::Error"@,
    {
        let nonce = random_nonce();
        self.encrypt_with_nonce(nonce.as_slice(), plaintext)
    }

    /// Decrypts a blob made by `encrypt` (see `decrypt_view`).
    pub fn decrypt(&self, b64: &str) -> (r: Result<String, String>)
        ensures
            result_view(r) == decrypt_view(self.key(), b64@),
    {
        proof {
            use_type_invariant(self);
        }
        let combined = match base64_decode(b64) {
            Ok(c) => c,
            Err(e) => {
                let mut m = owned("base64 decode error: ");
                push_str(&mut m, &e);
                return Err(m);
            },
        };
        if combined.len() < NONCE_LEN {
            let mut m = owned("Ciphertext too short (");
            push_str(&mut m, &u64_text(combined.len() as u64));
            push_str(&mut m, " bytes); expected at least 12 bytes");
            return Err(m);
        }
        let all = combined.as_slice();
        let nonce = slice_subrange(all, 0, NONCE_LEN);
        let body = slice_subrange(all, NONCE_LEN, combined.len());
        proof {
            assert(nonce@ =~= combined@.take(NONCE_LEN as int));
            assert(body@ =~= combined@.skip(NONCE_LEN as int));
        }
        let pt = match aes_open(self.key_bytes.as_slice(), nonce, body) {
            Ok(p) => p,
            Err(e) => {
                let mut m = owned("AES-GCM decryption failed: ");
                push_str(&mut m, &e);
                proof {
                    reveal_strlit("AES-GCM decryption failed: ");
                    reveal_strlit("aead::Error");
                    reveal_strlit("AES-GCM decryption failed: aead::Error");
                    assert(m@ =~= "AES-GCM decryption failed: aead::Error"@);
                }
                return Err(m);
            },
        };
        match string_from_utf8(pt) {
            Ok(s) => Ok(s),
            Err(e) => {
                let mut m = owned("UTF-8 decode error after decryption: ");
                push_str(&mut m, &e);
                Err(m)
            },
        }
    }

    /// Encrypts `value` when present; `None` stays `None`.
    pub fn encrypt_opt(&self, value: Option<&str>) -> (r: Result<Option<String>, String>)
        ensures
            value is None ==> r == Ok::<Option<String>, String>(None),
            value matches Some(v) ==> (r matches Ok(Some(s)) ==> encrypted_under(self.key(), v@, s@)
                && decrypt_view(self.key(), s@) == ok_text(v@)),
            value matches Some(v) ==> (r matches Err(e) ==> e@ == "AES-GCM encryption failed: aead::Error"@),
            value is Some ==> !(r matches Ok(None)),
            value is Some && encode_utf8(value->0@).len() <= PLAINTEXT_MAX ==> (r matches Ok(Some(s))
                && blob_len(s@) == encode_utf8(value->0@).len() + 28),
    {
        match value {
            None => Ok(None),
            Some(v) => match self.encrypt(v) {
                Ok(s) => Ok(Some(s)),
                Err(e) => Err(e),
            },
        }
    }

    /// Decrypts `value` when present; `None` stays `None`.
    pub fn decrypt_opt(&self, value: Option<&str>) -> (r: Result<Option<String>, String>)
        ensures
            value is None ==> r == Ok::<Option<String>, String>(None),
            value matches Some(v) ==> match decrypt_view(self.key(), v@) {
                Ok(p) => r matches Ok(Some(s)) && s@ == p,
                Err(m) => r matches Err(e) && e@ == m,
            },
    {
        match value {
            None => Ok(None),
            Some(v) => match self.decrypt(v) {
                Ok(s) => Ok(Some(s)),
                Err(e) => Err(e),
            },
        }
    }

    /// The blind-index digest of `plaintext`: 32 lowercase hexadecimal digits, the same
    /// for the same key and plaintext.
    pub fn digest(&self, plaintext: &str) -> (r: String)
        ensures
            r@ == digest_view(self.key(), plaintext@),
            r@.len() == 32,
            forall|i: int| 0 <= i < r@.len() ==> is_hex_digit(#[trigger] r@[i]),
    {
        let tag = hmac_sha256(self.key_bytes.as_slice(), plaintext.as_bytes());
        let head = slice_subrange(tag.as_slice(), 0, 16);
        let r = hex_encode(head);
        proof {
            assert(head@ =~= tag@.take(16));
            assert forall|i: int| 0 <= i < r@.len() implies is_hex_digit(#[trigger] r@[i]) by {
                let b = head@[i / 2] as int;
                assert(0 <= b / 16 < 16);
                assert(0 <= b % 16 < 16);
            }
        }
        r
    }

    /// The token that replaces sensitive values in audit snapshots and exports.
    pub fn mask() -> (r: &'static str)
        ensures
            r@ == "[REDACTED]"@,
    {
        "[REDACTED]"
    }
}

} // verus!

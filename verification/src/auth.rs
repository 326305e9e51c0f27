//! Master password checks and encryption of stored secrets.
//!
//! Secrets are encrypted with ChaCha20-Poly1305 under a key derived from the
//! master password with Argon2; the ciphertext is stored in base64 and the
//! nonce as comma separated decimal bytes.

use vstd::prelude::*;
use vstd::utf8::*;
use chacha20poly1305::aead::{Aead, AeadCore, KeyInit};
use argon2::password_hash::{PasswordHash, PasswordHasher, PasswordVerifier, SaltString};
use base64::Engine;

use crate::models::{CryptoData, NewCryptoData};
use crate::text::{decimal, parse_u8, parse_u8_spec, push_char, push_decimal_u64};

verus! {

broadcast use {encode_utf8_decode_utf8, encode_utf8_valid_utf8};

// ---------------------------------------------------------------------------
// Nonces and their database text
// ---------------------------------------------------------------------------

/// The 96-bit nonce of one encryption.
#[derive(Clone, Copy, Debug)]
pub struct Nonce(pub [u8; 12]);

/// Values that have a text form for the database.
pub trait DbReady {
    fn to_db_string(&self) -> String;
}

/// Bytes joined by commas, each in decimal: `[1, 20, 3]` reads `1,20,3`.
pub open spec fn bytes_db_text(b: Seq<u8>) -> Seq<char>
    decreases b.len(),
{
    if b.len() == 0 {
        seq![]
    } else if b.len() == 1 {
        decimal(b[0] as int)
    } else {
        bytes_db_text(b.drop_last()) + seq![','] + decimal(b.last() as int)
    }
}

impl DbReady for Nonce {
    /// The nonce's bytes in decimal, joined by commas.
    fn to_db_string(&self) -> (s: String)
        ensures
            s@ == bytes_db_text(self.0@),
    {
        let mut s = String::new();
        let mut i: usize = 0;
        while i < 12
            invariant
                i <= 12,
                s@ == bytes_db_text(self.0@.subrange(0, i as int)),
            decreases 12 - i,
        {
            let ghost prefix = self.0@.subrange(0, i + 1);
            assert(prefix.drop_last() =~= self.0@.subrange(0, i as int));
            if i > 0 {
                push_char(&mut s, ',');
            }
            push_decimal_u64(&mut s, self.0[i] as u64);
            i = i + 1;
        }
        assert(self.0@.subrange(0, 12) =~= self.0@);
        s
    }
}

/// `s` cut at every comma, as `str::split(",")` cuts it.
pub open spec fn split_commas(s: Seq<char>) -> Seq<Seq<char>>
    decreases s.len(),
{
    if s.len() == 0 {
        seq![seq![]]
    } else {
        let rest = split_commas(s.drop_last());
        if s.last() == ',' {
            rest.push(seq![])
        } else {
            rest.update(rest.len() - 1, rest.last().push(s.last()))
        }
    }
}

/// The nonce that a database text describes: at most twelve comma separated
/// bytes, the missing ones zero.
pub open spec fn nonce_spec(s: Seq<char>) -> Option<Seq<u8>> {
    let parts = split_commas(s);
    if parts.len() <= 12 && forall|i: int| 0 <= i < parts.len() ==> #[trigger] parse_u8_spec(
        parts[i],
    ) is Some {
        Some(
            Seq::new(
                12,
                |i: int|
                    if i < parts.len() {
                        parse_u8_spec(parts[i]).unwrap()
                    } else {
                        0u8
                    },
            ),
        )
    } else {
        None
    }
}

proof fn lemma_split_commas_len(s: Seq<char>)
    ensures
        split_commas(s).len() >= 1,
    decreases s.len(),
{
    if s.len() > 0 {
        lemma_split_commas_len(s.drop_last());
    }
}

/// Cutting a prefix of `t` gives pieces that, but for the last, are pieces
/// of `t`, and no more pieces than `t` has.
proof fn lemma_split_commas_prefix(t: Seq<char>, k: int)
    requires
        0 <= k <= t.len(),
    ensures
        split_commas(t.subrange(0, k)).len() <= split_commas(t).len(),
        forall|i: int|
            0 <= i < split_commas(t.subrange(0, k)).len() - 1 ==> #[trigger] split_commas(
                t.subrange(0, k),
            )[i] == split_commas(t)[i],
    decreases t.len(),
{
    if k == t.len() {
        assert(t.subrange(0, k) =~= t);
    } else {
        lemma_split_commas_prefix(t.drop_last(), k);
        assert(t.drop_last().subrange(0, k) =~= t.subrange(0, k));
        lemma_split_commas_len(t.drop_last());
    }
}

/// Reads a nonce back from its database text; `None` where the text holds more
/// than twelve pieces or a piece that is not a decimal byte.
pub fn parse_nonce(s: &str) -> (r: Option<Nonce>)
    ensures
        match r {
            Some(n) => nonce_spec(s@) == Some(n.0@),
            None => nonce_spec(s@) is None,
        },
{
    let n = s.unicode_len();
    let mut out: [u8; 12] = [0u8; 12];
    let mut count: usize = 0;
    let mut cur = String::new();
    let mut k: usize = 0;
    assert(s@.subrange(0, 0) =~= Seq::<char>::empty());
    while k < n
        invariant
            k <= n,
            n == s@.len(),
            count <= 12,
            split_commas(s@.subrange(0, k as int)).len() == count + 1,
            cur@ == split_commas(s@.subrange(0, k as int)).last(),
            forall|i: int|
                0 <= i < count ==> parse_u8_spec(#[trigger] split_commas(s@.subrange(0, k as int))[i])
                    == Some(out[i]),
            forall|i: int| count <= i < 12 ==> out[i] == 0,
        decreases n - k,
    {
        let c = s.get_char(k);
        let ghost before = split_commas(s@.subrange(0, k as int));
        let ghost after_prefix = s@.subrange(0, k + 1);
        assert(after_prefix.drop_last() =~= s@.subrange(0, k as int));
        if c == ',' {
            if count >= 12 {
                proof {
                    lemma_split_commas_prefix(s@, k + 1);
                    assert(s@.subrange(0, n as int) =~= s@);
                }
                return None;
            }
            match parse_u8(cur.as_str()) {
                None => {
                    proof {
                        lemma_split_commas_prefix(s@, k + 1);
                        assert(split_commas(after_prefix)[count as int] == cur@);
                    }
                    return None;
                },
                Some(v) => {
                    out[count] = v;
                    count = count + 1;
                    cur = String::new();
                },
            }
        } else {
            push_char(&mut cur, c);
        }
        k = k + 1;
    }
    assert(s@.subrange(0, k as int) =~= s@);
    if count >= 12 {
        return None;
    }
    match parse_u8(cur.as_str()) {
        None => None,
        Some(v) => {
            out[count] = v;
            let ghost parts = split_commas(s@);
            assert(Seq::new(
                12,
                |i: int|
                    if i < parts.len() {
                        parse_u8_spec(parts[i]).unwrap()
                    } else {
                        0u8
                    },
            ) =~= out@);
            Some(Nonce(out))
        },
    }
}

proof fn lemma_decimal_no_comma(v: u8)
    ensures
        forall|i: int| 0 <= i < decimal(v as int).len() ==> decimal(v as int)[i] != ',',
{
    crate::text::lemma_decimal_nat_digits(v as nat);
    assert forall|i: int| 0 <= i < decimal(v as int).len() implies decimal(v as int)[i] != ',' by {
        assert(crate::text::is_digit(decimal(v as int)[i]));
    }
}

proof fn lemma_split_commas_no_comma(x: Seq<char>, y: Seq<char>)
    requires
        forall|i: int| 0 <= i < y.len() ==> y[i] != ',',
    ensures
        split_commas(x + seq![','] + y) == split_commas(x).push(y),
        split_commas(y) == seq![y],
    decreases y.len(),
{
    if y.len() == 0 {
        assert(x + seq![','] + y =~= x.push(','));
        assert((x.push(',')).drop_last() =~= x);
        assert(y =~= Seq::<char>::empty());
    } else {
        lemma_split_commas_no_comma(x, y.drop_last());
        assert((x + seq![','] + y).drop_last() =~= x + seq![','] + y.drop_last());
        assert(y.drop_last().push(y.last()) =~= y);
        assert(split_commas(x).push(y.drop_last()).update(
            split_commas(x).len() as int,
            y.drop_last().push(y.last()),
        ) =~= split_commas(x).push(y));
        assert(seq![y.drop_last()].update(0, y.drop_last().push(y.last())) =~= seq![y]);
    }
}

proof fn lemma_split_bytes_db_text(b: Seq<u8>)
    requires
        b.len() >= 1,
    ensures
        split_commas(bytes_db_text(b)) =~= Seq::new(b.len(), |i: int| decimal(b[i] as int)),
    decreases b.len(),
{
    lemma_decimal_no_comma(b.last());
    if b.len() == 1 {
        lemma_split_commas_no_comma(seq![], decimal(b[0] as int));
    } else {
        lemma_split_bytes_db_text(b.drop_last());
        lemma_split_commas_no_comma(bytes_db_text(b.drop_last()), decimal(b.last() as int));
    }
}

/// A nonce written for the database reads back as the same nonce.
pub proof fn lemma_nonce_db_round_trip(n: Nonce)
    ensures
        nonce_spec(bytes_db_text(n.0@)) == Some(n.0@),
{
    let b = n.0@;
    lemma_split_bytes_db_text(b);
    let parts = split_commas(bytes_db_text(b));
    assert forall|i: int| 0 <= i < parts.len() implies #[trigger] parse_u8_spec(parts[i]) == Some(
        b[i],
    ) by {
        crate::text::lemma_parse_u8_decimal(b[i]);
    }
    assert(Seq::new(
        12,
        |i: int|
            if i < parts.len() {
                parse_u8_spec(parts[i]).unwrap()
            } else {
                0u8
            },
    ) =~= b);
}

/// Reads a nonce back from its database text.
pub fn nonce_from_db_string(nonce_string: &str) -> (r: Nonce)
    requires
        nonce_spec(nonce_string@) is Some,
    ensures
        nonce_spec(nonce_string@) == Some(r.0@),
{
    parse_nonce(nonce_string).unwrap()
}

// ---------------------------------------------------------------------------
// Outside primitives
// ---------------------------------------------------------------------------

/// Bytes of an optional byte vector.
pub open spec fn opt_bytes(o: Option<Vec<u8>>) -> Option<Seq<u8>> {
    match o {
        Some(v) => Some(v@),
        None => None,
    }
}

/// Number of 64-byte blocks ChaCha20 can encrypt under one nonce.
pub open spec fn chacha_max_blocks() -> int {
    0xFFFF_FFFF
}

/// What ChaCha20-Poly1305 encryption gives for a key, a nonce and a plaintext.
pub uninterp spec fn chacha_encrypt_spec(key: Seq<u8>, nonce: Seq<u8>, plaintext: Seq<u8>) -> Option<Seq<u8>>;

/// What ChaCha20-Poly1305 decryption gives for a key, a nonce and a ciphertext;
/// `None` where the ciphertext does not authenticate.
pub uninterp spec fn chacha_decrypt_spec(key: Seq<u8>, nonce: Seq<u8>, ciphertext: Seq<u8>) -> Option<Seq<u8>>;

/// Encrypts with ChaCha20-Poly1305 and no associated data.
///
/// Trusted: calls `ChaCha20Poly1305::new` and `Aead::encrypt`. Claims that the
/// result is determined by key, nonce and plaintext, that it is produced for
/// any plaintext of fewer than `64 * 0xFFFF_FFFF` bytes (the only refusal in
/// the crate's source), that the ciphertext is the plaintext's length plus
/// the 16-byte tag, and that decryption under the same key and nonce gives
/// the plaintext back, as an AEAD cipher promises.
#[verifier::external_body]
fn chacha_encrypt(key: &[u8; 32], nonce: &[u8; 12], plaintext: &[u8]) -> (r: Option<Vec<u8>>)
    ensures
        opt_bytes(r) == chacha_encrypt_spec(key@, nonce@, plaintext@),
        plaintext@.len() < 64 * chacha_max_blocks() ==> r is Some,
        r is Some ==> r.unwrap()@.len() == plaintext@.len() + 16,
        r is Some ==> chacha_decrypt_spec(key@, nonce@, r.unwrap()@) == Some(plaintext@),
{
    let cipher = chacha20poly1305::ChaCha20Poly1305::new(key.into());
    cipher.encrypt(nonce.into(), plaintext).ok()
}

/// Decrypts with ChaCha20-Poly1305 and no associated data.
///
/// Trusted: calls `ChaCha20Poly1305::new` and `Aead::decrypt`; claims only that
/// the result is determined by key, nonce and ciphertext.
#[verifier::external_body]
fn chacha_decrypt(key: &[u8; 32], nonce: &[u8; 12], ciphertext: &[u8]) -> (r: Option<Vec<u8>>)
    ensures
        opt_bytes(r) == chacha_decrypt_spec(key@, nonce@, ciphertext@),
{
    let cipher = chacha20poly1305::ChaCha20Poly1305::new(key.into());
    cipher.decrypt(nonce.into(), ciphertext).ok()
}

/// A fresh random nonce.
///
/// Trusted: calls `AeadCore::generate_nonce` with the operating system's
/// random source; nothing is claimed of the bytes.
#[verifier::external_body]
fn random_nonce() -> (r: [u8; 12]) {
    let nonce = chacha20poly1305::ChaCha20Poly1305::generate_nonce(
        &mut chacha20poly1305::aead::OsRng,
    );
    nonce.into()
}

/// The standard base64 text of some bytes.
pub uninterp spec fn base64_encode_spec(bytes: Seq<u8>) -> Seq<char>;

/// The bytes a standard base64 text stands for; `None` where it is malformed.
pub uninterp spec fn base64_decode_spec(text: Seq<char>) -> Option<Seq<u8>>;

/// Encodes bytes in standard base64 with padding.
///
/// Trusted: calls `Engine::encode` of `BASE64_STANDARD`, which panics only when
/// the encoded length overflows `usize`. Claims that the text is determined
/// by the bytes and that decoding it gives the bytes back.
#[verifier::external_body]
fn base64_encode(bytes: &[u8]) -> (r: String)
    requires
        bytes@.len() <= usize::MAX / 2,
    ensures
        r@ == base64_encode_spec(bytes@),
        base64_decode_spec(r@) == Some(bytes@),
{
    base64::prelude::BASE64_STANDARD.encode(bytes)
}

/// Decodes standard base64 text.
///
/// Trusted: calls `Engine::decode` of `BASE64_STANDARD` on the text's bytes;
/// claims only that the result is determined by the text.
#[verifier::external_body]
fn base64_decode(text: &str) -> (r: Option<Vec<u8>>)
    ensures
        opt_bytes(r) == base64_decode_spec(text@),
{
    base64::prelude::BASE64_STANDARD.decode(text).ok()
}

/// Reads bytes as UTF-8 text.
///
/// Trusted: calls `std::str::from_utf8`, which accepts exactly the valid UTF-8
/// sequences and decodes them.
#[verifier::external_body]
fn utf8_to_string(bytes: &[u8]) -> (r: Option<String>)
    ensures
        r is Some <==> valid_utf8(bytes@),
        r is Some ==> r.unwrap()@ == decode_utf8(bytes@),
{
    match std::str::from_utf8(bytes) {
        Ok(s) => Some(s.to_string()),
        Err(_) => None,
    }
}

// ---------------------------------------------------------------------------
// Encryption of secrets
// ---------------------------------------------------------------------------

/// The text that decrypting a ciphertext gives: the plaintext read as UTF-8.
pub open spec fn decrypt_spec(key: Seq<u8>, nonce: Seq<u8>, ciphertext: Seq<u8>) -> Option<Seq<char>> {
    match chacha_decrypt_spec(key, nonce, ciphertext) {
        Some(p) => if valid_utf8(p) {
            Some(decode_utf8(p))
        } else {
            None
        },
        None => None,
    }
}

/// Longest plaintext, in bytes, that a secret may have.
pub open spec fn max_secret_len() -> int {
    64 * chacha_max_blocks() - 1
}

/// Decrypts a secret that authenticates under `key` and `nonce`.
pub fn decrypt(data: &[u8], key: &[u8; 32], nonce: Nonce) -> (r: String)
    requires
        decrypt_spec(key@, nonce.0@, data@) is Some,
    ensures
        decrypt_spec(key@, nonce.0@, data@) == Some(r@),
{
    let plain = chacha_decrypt(key, &nonce.0, data).unwrap();
    utf8_to_string(plain.as_slice()).unwrap()
}

/// Decrypts a secret; `None` where it does not authenticate under `key` and
/// `nonce` or is not UTF-8 text.
pub fn try_decrypt(data: &[u8], key: &[u8; 32], nonce: Nonce) -> (r: Option<String>)
    ensures
        match r {
            Some(s) => decrypt_spec(key@, nonce.0@, data@) == Some(s@),
            None => decrypt_spec(key@, nonce.0@, data@) is None,
        },
{
    match chacha_decrypt(key, &nonce.0, data) {
        None => None,
        Some(plain) => match utf8_to_string(plain.as_slice()) {
            None => None,
            Some(_) => Some(decrypt(data, key, nonce)),
        },
    }
}

/// Encrypts a secret under a fresh nonce.
pub fn encrypt(data: &str, key_val: &[u8; 32]) -> (r: (Vec<u8>, Nonce))
    requires
        encode_utf8(data@).len() <= max_secret_len(),
    ensures
        chacha_encrypt_spec(key_val@, r.1.0@, encode_utf8(data@)) == Some(r.0@),
        r.0@.len() == encode_utf8(data@).len() + 16,
        decrypt_spec(key_val@, r.1.0@, r.0@) == Some(data@),
{
    let nonce = random_nonce();
    let encrypted = chacha_encrypt(key_val, &nonce, data.as_bytes()).unwrap();
    (encrypted, Nonce(nonce))
}

/// The secret that a stored record holds under `key`: the base64 ciphertext
/// decoded, the nonce read back, and the plaintext decrypted.
pub open spec fn retrieve_spec(key: Seq<u8>, encrypted: Seq<char>, nonce: Seq<char>) -> Option<Seq<char>> {
    match (base64_decode_spec(encrypted), nonce_spec(nonce)) {
        (Some(c), Some(n)) => decrypt_spec(key, n, c),
        _ => None,
    }
}

/// Encrypts a secret for `host` and gives the record to store. The record
/// reads back, under the same key, as the secret.
pub fn store_encrypted(data: &str, host: &str, key: &[u8; 32]) -> (r: NewCryptoData)
    requires
        encode_utf8(data@).len() <= max_secret_len(),
        encode_utf8(data@).len() + 16 <= usize::MAX / 2,
    ensures
        r.host@ == host@,
        r.nonce@ == bytes_db_text(nonce_spec(r.nonce@).unwrap()),
        retrieve_spec(key@, r.encrypted@, r.nonce@) == Some(data@),
{
    let (encrypted, nonce) = encrypt(data, key);
    let n = nonce.to_db_string();
    proof {
        lemma_nonce_db_round_trip(nonce);
    }
    let b64_encrypted = base64_encode(encrypted.as_slice());
    NewCryptoData { encrypted: b64_encrypted, host: host.to_string(), nonce: n }
}

/// Decrypts the first of the stored records that a query returned.
pub fn retrieve_encrypted(key: &[u8; 32], records: &Vec<CryptoData>) -> (r: String)
    requires
        records.len() > 0,
        retrieve_spec(key@, records[0].encrypted@, records[0].nonce@) is Some,
    ensures
        retrieve_spec(key@, records[0].encrypted@, records[0].nonce@) == Some(r@),
{
    let record = &records[0];
    let encrypted = base64_decode(record.encrypted.as_str()).unwrap();
    let nonce = nonce_from_db_string(record.nonce.as_str());
    decrypt(encrypted.as_slice(), key, nonce)
}

/// Decrypts the first of the stored records that a query returned; `None`
/// where there is none or it does not read back under `key`.
pub fn try_retrieve_encrypted(key: &[u8; 32], records: &Vec<CryptoData>) -> (r: Option<String>)
    ensures
        match r {
            Some(s) => records.len() > 0 && retrieve_spec(key@, records[0].encrypted@, records[0].nonce@)
                == Some(s@),
            None => records.len() == 0 || retrieve_spec(
                key@,
                records[0].encrypted@,
                records[0].nonce@,
            ) is None,
        },
{
    if records.len() == 0 {
        return None;
    }
    let record = &records[0];
    let encrypted = match base64_decode(record.encrypted.as_str()) {
        Some(e) => e,
        None => return None,
    };
    let nonce = match parse_nonce(record.nonce.as_str()) {
        Some(n) => n,
        None => return None,
    };
    match try_decrypt(encrypted.as_slice(), key, nonce) {
        None => None,
        Some(_) => Some(retrieve_encrypted(key, records)),
    }
}

// ---------------------------------------------------------------------------
// Master password
// ---------------------------------------------------------------------------

/// Whether a password matches an Argon2 PHC hash string; `None` where the
/// string is not a PHC hash.
pub uninterp spec fn argon2_verify_spec(phc: Seq<char>, password: Seq<u8>) -> Option<bool>;

/// The 32-byte Argon2id key (default parameters) of a password and a salt;
/// `None` where Argon2 refuses the inputs.
pub uninterp spec fn argon2_key_spec(password: Seq<u8>, salt: Seq<u8>) -> Option<Seq<u8>>;

/// Checks a password against a PHC hash string.
///
/// Trusted: calls `PasswordHash::new` on the string and, where it parses,
/// `PasswordVerifier::verify_password` of the default `Argon2`; claims only
/// that the outcome is determined by the string and the password.
#[verifier::external_body]
fn argon2_verify(phc: &str, password: &[u8]) -> (r: Option<bool>)
    ensures
        r == argon2_verify_spec(phc@, password@),
{
    match PasswordHash::new(phc) {
        Ok(hash) => Some(argon2::Argon2::default().verify_password(password, &hash).is_ok()),
        Err(_) => None,
    }
}

/// Derives a 32-byte key from a password and a salt.
///
/// Trusted: calls `Argon2::hash_password_into` of the default `Argon2`. Claims
/// that the key is determined by password and salt, and that it is produced
/// whenever the password has at most `0xFFFF_FFFF` bytes and the salt between
/// 8 and `0xFFFF_FFFF` bytes, the only input checks in the crate's source for
/// a 32-byte output.
#[verifier::external_body]
fn argon2_derive_key(password: &[u8], salt: &[u8]) -> (r: Option<[u8; 32]>)
    ensures
        match r {
            Some(k) => argon2_key_spec(password@, salt@) == Some(k@),
            None => argon2_key_spec(password@, salt@) is None,
        },
        password@.len() <= 0xFFFF_FFFF && 8 <= salt@.len() <= 0xFFFF_FFFF ==> r is Some,
{
    let mut key = [0u8; 32];
    match argon2::Argon2::default().hash_password_into(password, salt, &mut key) {
        Ok(()) => Some(key),
        Err(_) => None,
    }
}

/// Hashes a password into a PHC string under a fresh random salt.
///
/// Trusted: calls `SaltString::generate` with the operating system's random
/// source and `PasswordHasher::hash_password` of the default `Argon2`. The
/// string depends on the salt, so nothing is claimed of its text; what is
/// claimed is that the password verifies against it, since
/// `verify_password` recomputes the hash with the string's own algorithm,
/// parameters and salt and compares the outputs. It also claims that hashing
/// succeeds whenever the password has at most `0xFFFF_FFFF` bytes: with the
/// default parameters, the 16-byte generated salt and the 32-byte output, the
/// password's length is the only input check in the crate's source.
#[verifier::external_body]
fn argon2_hash_new(password: &[u8]) -> (r: Option<String>)
    ensures
        r matches Some(phc) ==> argon2_verify_spec(phc@, password@) == Some(true),
        password@.len() <= 0xFFFF_FFFF ==> r is Some,
{
    let salt = SaltString::generate(&mut argon2::password_hash::rand_core::OsRng);
    match argon2::Argon2::default().hash_password(password, &salt) {
        Ok(hash) => Some(hash.to_string()),
        Err(_) => None,
    }
}

/// The salt of the key derived from the master password.
pub open spec fn master_key_salt() -> Seq<u8> {
    Seq::new(16, |i: int| 1u8)
}

/// The key that unlocks stored secrets for a correct master password.
pub open spec fn master_key_spec(password: Seq<char>) -> Seq<u8> {
    argon2_key_spec(encode_utf8(password), master_key_salt()).unwrap()
}

/// Whether `password` opens the master account hashed in `phc`.
pub open spec fn master_password_ok(phc: Seq<char>, password: Seq<char>) -> bool {
    &&& argon2_verify_spec(phc, encode_utf8(password)) == Some(true)
    &&& encode_utf8(password).len() <= 0xFFFF_FFFF
}

/// Checks the master password against its stored hash and derives the key
/// that unlocks stored secrets.
pub fn verify_master_password(phc: &str, password: &str) -> (r: [u8; 32])
    requires
        master_password_ok(phc@, password@),
    ensures
        r@ == master_key_spec(password@),
{
    let salt: [u8; 16] = [1u8; 16];
    assert(salt@ =~= master_key_salt());
    argon2_derive_key(password.as_bytes(), &salt).unwrap()
}

/// Checks the master password against its stored hash; the key that unlocks
/// stored secrets where it is correct, `None` where it is not.
pub fn try_verify_master_password(phc: &str, password: &str) -> (r: Option<[u8; 32]>)
    ensures
        match r {
            Some(k) => master_password_ok(phc@, password@) && k@ == master_key_spec(password@),
            None => !master_password_ok(phc@, password@),
        },
{
    let bytes = password.as_bytes();
    if bytes.len() > 0xFFFF_FFFF {
        return None;
    }
    match argon2_verify(phc, bytes) {
        Some(true) => Some(verify_master_password(phc, password)),
        _ => None,
    }
}

/// Hashes a new master password into the PHC string to store; the same
/// password is then accepted by `verify_master_password`. Hashing fails only
/// for a password longer than `0xFFFF_FFFF` bytes.
pub fn hash_master_password(password: &str) -> (r: Option<String>)
    ensures
        encode_utf8(password@).len() <= 0xFFFF_FFFF ==> r is Some,
        r matches Some(phc) ==> argon2_verify_spec(phc@, encode_utf8(password@)) == Some(true),
        r matches Some(phc) ==> (encode_utf8(password@).len() <= 0xFFFF_FFFF
            ==> master_password_ok(phc@, password@)),
{
    argon2_hash_new(password.as_bytes())
}

/// Outcome of asking for a value twice.
#[derive(Clone, Copy, Debug)]
pub enum EntryCheck {
    /// Both entries agree.
    Accepted,
    /// They differ: ask again, at this depth.
    Retry(u8),
    /// They differed too often.
    GiveUp,
}

/// Compares two entries of a password or secret: they must agree; after six
/// failed attempts the user is given up on.
pub fn check_repeated_entry(first: &String, second: &String, depth: u8) -> (r: EntryCheck)
    ensures
        first@ == second@ ==> r is Accepted,
        first@ != second@ && depth > 5 ==> r is GiveUp,
        first@ != second@ && depth <= 5 ==> r == EntryCheck::Retry((depth + 1) as u8),
{
    if *first == *second {
        EntryCheck::Accepted
    } else if depth > 5 {
        EntryCheck::GiveUp
    } else {
        EntryCheck::Retry(depth + 1)
    }
}

/// The text that stands in for a password until it is revealed: one `*` per
/// byte of the password.
pub fn mask_password(pw: &str) -> (r: String)
    ensures
        r@ == Seq::new(encode_utf8(pw@).len(), |i: int| '*'),
{
    let n = pw.as_bytes().len();
    let mut r = String::new();
    let mut i: usize = 0;
    while i < n
        invariant
            i <= n,
            n == encode_utf8(pw@).len(),
            r@ == Seq::new(i as nat, |j: int| '*'),
        decreases n - i,
    {
        push_char(&mut r, '*');
        i = i + 1;
        assert(r@ =~= Seq::new(i as nat, |j: int| '*'));
    }
    r
}

} // verus!

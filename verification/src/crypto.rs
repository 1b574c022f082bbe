//! Encryption of the secrets file.
//!
//! The file holds `v1:` and, in base64, a nonce of 12 bytes and the AES-256-GCM
//! ciphertext. The key is derived from a seed that belongs to the machine, with
//! HKDF-SHA256. A file without the prefix is read as it is.

use aes_gcm::aead::{Aead, KeyInit};
use base64::Engine;
use hmac::Mac;
use rand::RngExt;
use vstd::prelude::*;
use vstd::slice::slice_subrange;
use vstd::string::*;
use vstd::utf8::*;

use crate::error::ConfigError;
use crate::text;

verus! {

// ---------------------------------------------------------------------------
// Outside functions
// ---------------------------------------------------------------------------

/// The HMAC-SHA256 of `data` under `key`.
pub uninterp spec fn hmac_sha256_of(key: Seq<u8>, data: Seq<u8>) -> Seq<u8>;

/// `hmac::Hmac<sha2::Sha256>`: `new_from_slice`, which takes a key of any
/// length, `update` and `finalize`. The 32 bytes depend on key and data alone,
/// and are named [`hmac_sha256_of`].
#[verifier::external_body]
fn hmac_sha256(key: &[u8], data: &[u8]) -> (r: [u8; 32])
    ensures
        r@ == hmac_sha256_of(key@, data@),
{
    let mut mac = <hmac::Hmac<sha2::Sha256> as hmac::Mac>::new_from_slice(key).unwrap();
    mac.update(data);
    mac.finalize().into_bytes().into()
}

/// The AES-256-GCM ciphertext of `plaintext`, with the tag at its end.
pub uninterp spec fn gcm_seal(key: Seq<u8>, nonce: Seq<u8>, plaintext: Seq<u8>) -> Option<Seq<u8>>;

/// The plaintext of an AES-256-GCM ciphertext with the tag at its end, if the
/// tag is right.
pub uninterp spec fn gcm_open(key: Seq<u8>, nonce: Seq<u8>, ciphertext: Seq<u8>) -> Option<Seq<u8>>;

/// The bytes of an optional buffer.
pub open spec fn opt_bytes(v: Option<Vec<u8>>) -> Option<Seq<u8>> {
    match v {
        Some(v) => Some(v@),
        None => None,
    }
}

/// `aes_gcm::Aes256Gcm::encrypt`, without associated data. The result depends
/// on key, nonce and plaintext alone, and is named [`gcm_seal`]. It fails
/// exactly on more than 2 to the power of 36 bytes; otherwise the ciphertext is
/// 16 bytes longer than the plaintext, and opens to it again.
#[verifier::external_body]
fn aes256_gcm_encrypt(key: &[u8], nonce: &[u8], plaintext: &[u8]) -> (r: Option<Vec<u8>>)
    requires
        key@.len() == 32,
        nonce@.len() == 12,
    ensures
        opt_bytes(r) == gcm_seal(key@, nonce@, plaintext@),
        r is Some <==> plaintext@.len() <= 0x10_0000_0000,
        r matches Some(c) ==> c@.len() == plaintext@.len() + 16,
        r matches Some(c) ==> gcm_open(key@, nonce@, c@) == Some(plaintext@),
{
    let cipher = aes_gcm::Aes256Gcm::new_from_slice(key).unwrap();
    cipher.encrypt(aes_gcm::Nonce::from_slice(nonce), plaintext).ok()
}

/// `aes_gcm::Aes256Gcm::decrypt`, without associated data. The result depends
/// on key, nonce and ciphertext alone, and is named [`gcm_open`].
#[verifier::external_body]
fn aes256_gcm_decrypt(key: &[u8], nonce: &[u8], ciphertext: &[u8]) -> (r: Option<Vec<u8>>)
    requires
        key@.len() == 32,
        nonce@.len() == 12,
    ensures
        opt_bytes(r) == gcm_open(key@, nonce@, ciphertext@),
{
    let cipher = aes_gcm::Aes256Gcm::new_from_slice(key).unwrap();
    cipher.decrypt(aes_gcm::Nonce::from_slice(nonce), ciphertext).ok()
}

/// The base64 text of some bytes: standard alphabet, with padding.
pub uninterp spec fn base64_text(bytes: Seq<u8>) -> Seq<char>;

/// The bytes that a base64 text stands for, if it is one.
pub uninterp spec fn base64_bytes(s: Seq<char>) -> Option<Seq<u8>>;

/// `base64::engine::general_purpose::STANDARD.encode`. The text depends on the
/// bytes alone, is named [`base64_text`], and decodes to the bytes again.
#[verifier::external_body]
fn base64_encode(bytes: &[u8]) -> (r: String)
    ensures
        r@ == base64_text(bytes@),
        base64_bytes(r@) == Some(bytes@),
{
    base64::engine::general_purpose::STANDARD.encode(bytes)
}

/// `base64::engine::general_purpose::STANDARD.decode`. The result depends on
/// the text alone, and is named [`base64_bytes`]. What is wrong with a text that
/// is not base64 is dropped.
#[verifier::external_body]
fn base64_decode(s: &str) -> (r: Option<Vec<u8>>)
    ensures
        opt_bytes(r) == base64_bytes(s@),
{
    base64::engine::general_purpose::STANDARD.decode(s).ok()
}

/// `rand::rng` and `fill`: `n` random bytes, of which nothing else is known.
/// `rand::rng` panics where the system has no source of randomness.
#[verifier::external_body]
fn random_bytes(n: usize) -> (r: Vec<u8>)
    ensures
        r@.len() == n,
{
    let mut bytes = vec![0u8; n];
    rand::rng().fill(&mut bytes[..]);
    bytes
}

/// std's `String::from_utf8`: it succeeds exactly on valid UTF-8, and the
/// string has those bytes. The error is dropped.
#[verifier::external_body]
fn string_from_utf8(bytes: Vec<u8>) -> (r: Option<String>)
    ensures
        r is Some <==> valid_utf8(bytes@),
        r matches Some(s) ==> encode_utf8(s@) == bytes@,
{
    String::from_utf8(bytes).ok()
}

// ---------------------------------------------------------------------------
// Key derivation
// ---------------------------------------------------------------------------

/// The encryption key of a seed: HKDF-SHA256 with this application's salt and
/// context, expanded to one block.
pub open spec fn key_of(seed: Seq<char>) -> Seq<u8> {
    hmac_sha256_of(
        hmac_sha256_of(encode_utf8("bilbycast-edge-secrets-v1"@), encode_utf8(seed)),
        encode_utf8("aes-256-gcm-secrets-encryption"@).push(1),
    )
}

/// The encryption key of a seed.
pub fn derive_key(seed: &str) -> (r: [u8; 32])
    ensures
        r@ == key_of(seed@),
{
    let salt = "bilbycast-edge-secrets-v1".as_bytes();
    let prk = hmac_sha256(salt, seed.as_bytes());
    let mut expand_input: Vec<u8> = "aes-256-gcm-secrets-encryption".as_bytes_vec();
    expand_input.push(0x01);
    hmac_sha256(prk.as_slice(), expand_input.as_slice())
}

// ---------------------------------------------------------------------------
// The seed
// ---------------------------------------------------------------------------

/// The seed that the content of a file holds: the text without white space
/// around it, if that has at least 32 bytes.
pub open spec fn seed_in(contents: Seq<char>) -> Option<Seq<char>> {
    let seed = text::trimmed(contents);
    if text::byte_len(seed) >= 32 {
        Some(seed)
    } else {
        None
    }
}

/// The seed that the content of a file holds.
pub fn usable_seed(contents: &str) -> (r: Option<String>)
    ensures
        text::opt_view(r) == seed_in(contents@),
{
    let seed = text::trim(contents);
    if text::byte_count(seed) >= 32 {
        Some(seed.to_owned())
    } else {
        None
    }
}

/// The seed among the contents of the candidate files: that of the first one
/// that holds a seed. A file that cannot be read holds none.
pub open spec fn first_seed(files: Seq<Option<String>>) -> Option<Seq<char>>
    decreases files.len(),
{
    if files.len() == 0 {
        None
    } else if files[0] is Some && seed_in(files[0]->0@) is Some {
        seed_in(files[0]->0@)
    } else {
        first_seed(files.skip(1))
    }
}

/// The seed among the contents of the candidate files, in order of preference.
pub fn choose_seed(files: &Vec<Option<String>>) -> (r: Option<String>)
    ensures
        text::opt_view(r) == first_seed(files@),
{
    let mut i: usize = 0;
    assert(files@.skip(0) =~= files@);
    while i < files.len()
        invariant
            i <= files@.len(),
            first_seed(files@) == first_seed(files@.skip(i as int)),
        decreases files.len() - i,
    {
        assert(files@.skip(i as int).skip(1) =~= files@.skip(i + 1));
        if let Some(contents) = &files[i] {
            let seed = usable_seed(contents.as_str());
            if seed.is_some() {
                return seed;
            }
        }
        i = i + 1;
    }
    None
}

/// Bytes in hexadecimal, two lower-case digits each.
pub open spec fn hex_bytes(bytes: Seq<u8>) -> Seq<char>
    decreases bytes.len(),
{
    if bytes.len() == 0 {
        Seq::empty()
    } else {
        hex_bytes(bytes.drop_last()) + text::hex(bytes.last() as nat / 16) + text::hex(
            bytes.last() as nat % 16,
        )
    }
}

/// Bytes in hexadecimal, two lower-case digits each.
pub fn hex_seed(bytes: &[u8]) -> (r: String)
    ensures
        r@ == hex_bytes(bytes@),
{
    let mut r = String::new();
    let mut i: usize = 0;
    assert(bytes@.take(0) =~= Seq::<u8>::empty());
    while i < bytes.len()
        invariant
            i <= bytes@.len(),
            r@ == hex_bytes(bytes@.take(i as int)),
        decreases bytes.len() - i,
    {
        let b: u8 = bytes[i];
        assert(bytes@.take(i + 1).drop_last() =~= bytes@.take(i as int));
        r = text::cat3(
            r.as_str(),
            text::hex_string((b / 16) as u64).as_str(),
            text::hex_string((b % 16) as u64).as_str(),
        );
        i = i + 1;
    }
    assert(bytes@.take(i as int) =~= bytes@);
    r
}

/// A new random seed: 32 bytes in hexadecimal.
pub fn generate_seed() -> (r: String)
    ensures
        exists|bytes: Seq<u8>| bytes.len() == 32 && r@ == #[trigger] hex_bytes(bytes),
        seed_in(r@) == Some(r@),
{
    let bytes = random_bytes(32);
    let r = hex_seed(bytes.as_slice());
    proof {
        lemma_hex_seed_is_found_again(bytes@);
    }
    r
}

proof fn lemma_hex_bytes(bytes: Seq<u8>)
    ensures
        hex_bytes(bytes).len() == 2 * bytes.len(),
        is_ascii_chars(hex_bytes(bytes)),
        forall|i: int|
            0 <= i < hex_bytes(bytes).len() ==> !text::is_white_space(
                #[trigger] hex_bytes(bytes)[i],
            ),
    decreases bytes.len(),
{
    if bytes.len() > 0 {
        let init = bytes.drop_last();
        lemma_hex_bytes(init);
        let hi = bytes.last() as nat / 16;
        let lo = bytes.last() as nat % 16;
        assert(hi < 16 && lo < 16);
        assert(text::hex(hi) =~= seq![text::digit_char(hi)]);
        assert(text::hex(lo) =~= seq![text::digit_char(lo)]);
        let s = hex_bytes(bytes);
        let n = hex_bytes(init).len() as int;
        assert(s[n] == text::digit_char(hi));
        assert(s[n + 1] == text::digit_char(lo));
        assert forall|i: int| 0 <= i < s.len() implies !text::is_white_space(#[trigger] s[i])
            && '\0' <= s[i] <= '\u{7f}' by {
            if i < n {
                assert(s[i] == hex_bytes(init)[i]);
            }
        }
    }
}

/// A seed that was generated and written to a file is found again there as it
/// was.
pub proof fn lemma_hex_seed_is_found_again(bytes: Seq<u8>)
    requires
        bytes.len() >= 16,
    ensures
        seed_in(hex_bytes(bytes)) == Some(hex_bytes(bytes)),
{
    let s = hex_bytes(bytes);
    lemma_hex_bytes(bytes);
    assert(!text::is_white_space(s[0]));
    assert(!text::is_white_space(s[s.len() - 1]));
    assert(text::trim_start(s) == s);
    assert(text::trim_end(s) == s);
    is_ascii_chars_encode_utf8(s);
}

// ---------------------------------------------------------------------------
// Encryption
// ---------------------------------------------------------------------------

/// The encrypted form of `plaintext` under a given nonce; none if `plaintext`
/// is too long to be encrypted.
pub open spec fn sealed(plaintext: Seq<char>, seed: Seq<char>, nonce: Seq<u8>) -> Option<Seq<char>> {
    match gcm_seal(key_of(seed), nonce, encode_utf8(plaintext)) {
        Some(ciphertext) => Some("v1:"@ + base64_text(nonce + ciphertext)),
        None => None,
    }
}

/// Whether an encrypted content is the prefix and the base64 text of `n` bytes,
/// which it decodes to.
pub open spec fn wraps(data: Seq<char>, n: nat) -> bool {
    exists|payload: Seq<u8>| #[trigger]
        base64_text(payload) == data.skip(3) && payload.len() == n && data == "v1:"@ + base64_text(
            payload,
        ) && base64_bytes(data.skip(3)) == Some(payload)
}

/// The two parts of a decoded payload: the nonce and the ciphertext. `decoded`
/// is what base64 decoding gave.
pub open spec fn payload_parts(decoded: Option<Seq<u8>>) -> Result<(Seq<u8>, Seq<u8>), Seq<char>> {
    match decoded {
        None => Err("Failed to decode encrypted secrets (invalid base64)"@),
        Some(b) => if b.len() < 13 {
            Err("Encrypted secrets data too short"@)
        } else {
            Ok((b.take(12), b.skip(12)))
        },
    }
}

/// The text of an opened payload. `opened` is what decryption gave.
pub open spec fn payload_text(opened: Option<Seq<u8>>) -> Result<Seq<char>, Seq<char>> {
    match opened {
        None => Err(
            "Failed to decrypt secrets.json — the machine identity may have changed, or the file was copied from another machine. If this is expected, delete secrets.json and re-register with the manager."@,
        ),
        Some(b) => if valid_utf8(b) {
            Ok(decode_utf8(b))
        } else {
            Err("Decrypted secrets contain invalid UTF-8"@)
        },
    }
}

/// What the content of a secrets file decrypts to, or what is wrong with it.
pub open spec fn opened(data: Seq<char>, seed: Seq<char>) -> Result<Seq<char>, Seq<char>> {
    if !text::has_prefix(data, "v1:"@) {
        Ok(data)
    } else {
        match payload_parts(base64_bytes(data.skip(3))) {
            Err(e) => Err(e),
            Ok((nonce, ciphertext)) => payload_text(gcm_open(key_of(seed), nonce, ciphertext)),
        }
    }
}

/// Whether `r` is the outcome `expected`.
pub open spec fn is_result(r: Result<String, ConfigError>, expected: Result<Seq<char>, Seq<char>>) -> bool {
    match r {
        Ok(s) => expected == Ok::<Seq<char>, Seq<char>>(s@),
        Err(e) => expected == Err::<Seq<char>, Seq<char>>(e.message@),
    }
}

/// Splits a decoded payload into nonce and ciphertext. `decoded` is what base64
/// decoding gave.
pub fn split_payload<'a>(decoded: &'a Option<Vec<u8>>) -> (r: Result<
    (&'a [u8], &'a [u8]),
    ConfigError,
>)
    ensures
        match r {
            Ok((n, c)) => payload_parts(opt_bytes(*decoded)) == Ok::<
                (Seq<u8>, Seq<u8>),
                Seq<char>,
            >((n@, c@)),
            Err(e) => payload_parts(opt_bytes(*decoded)) == Err::<(Seq<u8>, Seq<u8>), Seq<char>>(
                e.message@,
            ),
        },
{
    match decoded {
        None => Err(
            ConfigError {
                message: "Failed to decode encrypted secrets (invalid base64)".to_owned(),
            },
        ),
        Some(combined) => {
            if combined.len() < 13 {
                return Err(
                    ConfigError { message: "Encrypted secrets data too short".to_owned() },
                );
            }
            let nonce = slice_subrange(combined.as_slice(), 0, 12);
            let ciphertext = slice_subrange(combined.as_slice(), 12, combined.len());
            assert(nonce@ =~= combined@.take(12));
            assert(ciphertext@ =~= combined@.skip(12));
            Ok((nonce, ciphertext))
        },
    }
}

/// Turns an opened payload into text. `plaintext` is what decryption gave.
pub fn read_payload(plaintext: Option<Vec<u8>>) -> (r: Result<String, ConfigError>)
    ensures
        is_result(r, payload_text(opt_bytes(plaintext))),
{
    match plaintext {
        None => Err(
            ConfigError {
                message: "Failed to decrypt secrets.json — the machine identity may have changed, or the file was copied from another machine. If this is expected, delete secrets.json and re-register with the manager.".to_owned(),
            },
        ),
        Some(bytes) => match string_from_utf8(bytes) {
            Some(s) => {
                proof {
                    encode_utf8_decode_utf8(s@);
                }
                Ok(s)
            },
            None => Err(
                ConfigError { message: "Decrypted secrets contain invalid UTF-8".to_owned() },
            ),
        },
    }
}

/// What was encrypted under a nonce of 12 bytes and framed opens again.
proof fn lemma_opens_again(
    plaintext: Seq<char>,
    seed: Seq<char>,
    nonce: Seq<u8>,
    ciphertext: Seq<u8>,
    encoded: Seq<char>,
)
    requires
        nonce.len() == 12,
        ciphertext.len() == text::byte_len(plaintext) + 16,
        gcm_open(key_of(seed), nonce, ciphertext) == Some(encode_utf8(plaintext)),
        base64_text(nonce + ciphertext) == encoded,
        base64_bytes(encoded) == Some(nonce + ciphertext),
    ensures
        text::has_prefix("v1:"@ + encoded, "v1:"@),
        opened("v1:"@ + encoded, seed) == Ok::<Seq<char>, Seq<char>>(plaintext),
        wraps("v1:"@ + encoded, 12 + text::byte_len(plaintext) + 16),
{
    reveal_strlit("v1:");
    let data = "v1:"@ + encoded;
    assert(data.subrange(0, 3) =~= "v1:"@);
    assert(data.skip(3) =~= encoded);
    let b = nonce + ciphertext;
    assert(b.take(12) =~= nonce);
    assert(b.skip(12) =~= ciphertext);
    encode_utf8_valid_utf8(plaintext);
    encode_utf8_decode_utf8(plaintext);
}

/// Encrypts `plaintext` under a given nonce.
pub fn encrypt_with_nonce(plaintext: &str, seed: &str, nonce: &[u8]) -> (r: Result<
    String,
    ConfigError,
>)
    requires
        nonce@.len() == 12,
    ensures
        r is Ok <==> text::byte_len(plaintext@) <= 0x10_0000_0000,
        r matches Ok(s) ==> sealed(plaintext@, seed@, nonce@) == Some(s@),
        r matches Ok(s) ==> text::has_prefix(s@, "v1:"@),
        r matches Ok(s) ==> opened(s@, seed@) == Ok::<Seq<char>, Seq<char>>(plaintext@),
        r matches Ok(s) ==> wraps(s@, 12 + text::byte_len(plaintext@) + 16),
        r matches Err(e) ==> sealed(plaintext@, seed@, nonce@) is None && e.message@
            == "Encryption failed: aead::Error"@,
{
    let key = derive_key(seed);
    match aes256_gcm_encrypt(key.as_slice(), nonce, plaintext.as_bytes()) {
        Some(ciphertext) => {
            let mut combined: Vec<u8> = Vec::new();
            combined.extend_from_slice(nonce);
            combined.extend_from_slice(ciphertext.as_slice());
            assert(combined@ =~= nonce@ + ciphertext@);
            let encoded = base64_encode(combined.as_slice());
            proof {
                lemma_opens_again(plaintext@, seed@, nonce@, ciphertext@, encoded@);
            }
            Ok(text::cat2("v1:", encoded.as_str()))
        },
        None => Err(ConfigError { message: "Encryption failed: aead::Error".to_owned() }),
    }
}

/// Encrypts the secrets with the key of the machine, under a random nonce. The
/// result decrypts to `plaintext` again, and holds the nonce of 12 bytes, as many
/// bytes as the plaintext has, and the tag of 16 bytes.
pub fn encrypt_secrets(plaintext: &str, seed: &str) -> (r: Result<String, ConfigError>)
    ensures
        r is Ok <==> text::byte_len(plaintext@) <= 0x10_0000_0000,
        r matches Ok(s) ==> exists|nonce: Seq<u8>|
            nonce.len() == 12 && #[trigger] sealed(plaintext@, seed@, nonce) == Some(s@),
        r matches Ok(s) ==> text::has_prefix(s@, "v1:"@),
        r matches Ok(s) ==> opened(s@, seed@) == Ok::<Seq<char>, Seq<char>>(plaintext@),
        r matches Ok(s) ==> wraps(s@, 12 + text::byte_len(plaintext@) + 16),
        r matches Err(e) ==> e.message@ == "Encryption failed: aead::Error"@,
{
    let nonce = random_bytes(12);
    encrypt_with_nonce(plaintext, seed, nonce.as_slice())
}

/// Decrypts the content of a secrets file. Content without the prefix is
/// returned as it is.
pub fn decrypt_secrets(data: &str, seed: &str) -> (r: Result<String, ConfigError>)
    ensures
        is_result(r, opened(data@, seed@)),
{
    if !is_encrypted(data) {
        return Ok(data.to_owned());
    }
    proof {
        reveal_strlit("v1:");
    }
    let n: usize = data.unicode_len();
    let encoded = data.substring_char(3, n);
    assert(encoded@ =~= data@.skip(3));
    let decoded = base64_decode(encoded);
    match split_payload(&decoded) {
        Err(e) => Err(e),
        Ok((nonce, ciphertext)) => {
            let key = derive_key(seed);
            read_payload(aes256_gcm_decrypt(key.as_slice(), nonce, ciphertext))
        },
    }
}

/// Whether the content of a secrets file is encrypted.
pub fn is_encrypted(data: &str) -> (r: bool)
    ensures
        r == text::has_prefix(data@, "v1:"@),
{
    text::starts_with(data, "v1:")
}

/// Content that is not encrypted is read as it is, whatever the seed.
pub proof fn lemma_plain_content_passes(data: Seq<char>, seed: Seq<char>)
    requires
        !text::has_prefix(data, "v1:"@),
    ensures
        opened(data, seed) == Ok::<Seq<char>, Seq<char>>(data),
{
}

/// Content whose ciphertext does not authenticate under the key of a seed is
/// refused under that seed, with the message for a machine that has changed.
/// Which seeds those are is the cipher's affair.
pub proof fn lemma_unauthentic_content_is_refused(data: Seq<char>, seed: Seq<char>, payload: Seq<u8>)
    requires
        text::has_prefix(data, "v1:"@),
        base64_bytes(data.skip(3)) == Some(payload),
        payload.len() >= 13,
        gcm_open(key_of(seed), payload.take(12), payload.skip(12)) is None,
    ensures
        opened(data, seed) is Err,
        opened(data, seed) == payload_text(None),
{
}

// ---------------------------------------------------------------------------
// Laws
// ---------------------------------------------------------------------------

/// The key is derived from the seed in two steps: the seed is extracted under the label of
/// the secrets file, and the result is expanded, by one block, for the cipher.
pub proof fn lemma_key_is_extracted_and_expanded(seed: Seq<char>)
    ensures
        ({
            let extracted = hmac_sha256_of(
                encode_utf8("bilbycast-edge-secrets-v1"@),
                encode_utf8(seed),
            );
            key_of(seed) == hmac_sha256_of(
                extracted,
                encode_utf8("aes-256-gcm-secrets-encryption"@) + seq![1u8],
            )
        }),
{
    let info = encode_utf8("aes-256-gcm-secrets-encryption"@);
    assert(info + seq![1u8] =~= info.push(1));
}

/// A file holds a seed exactly when what it holds, without the white space around it, has
/// at least 32 bytes; the seed is that.
pub proof fn lemma_seeds_are_long_enough(contents: Seq<char>)
    ensures
        seed_in(contents) is Some <==> encode_utf8(text::trimmed(contents)).len() >= 32,
        seed_in(contents) is Some ==> seed_in(contents)->0 == text::trimmed(contents),
{
}

/// The seed is that of the first file that holds one; without such a file there is none.
pub proof fn lemma_first_usable_file_wins(files: Seq<Option<String>>, n: int)
    requires
        0 <= n <= files.len(),
        forall|i: int|
            0 <= i < n ==> ((#[trigger] files[i]) is None || seed_in(files[i]->0@) is None),
    ensures
        n == files.len() ==> first_seed(files) is None,
        n < files.len() && files[n] is Some && seed_in(files[n]->0@) is Some ==> first_seed(files)
            == seed_in(files[n]->0@),
    decreases n,
{
    if n > 0 {
        assert(files[0] is None || seed_in(files[0]->0@) is None);
        let rest = files.skip(1);
        assert forall|i: int| 0 <= i < n - 1 implies ((#[trigger] rest[i]) is None || seed_in(
            rest[i]->0@,
        ) is None) by {
            assert(rest[i] == files[i + 1]);
        }
        lemma_first_usable_file_wins(rest, n - 1);
    }
}

/// A seed spells each byte by two hexadecimal digits, the higher first.
pub proof fn lemma_two_digits_for_each_byte(bytes: Seq<u8>, i: int)
    requires
        0 <= i < bytes.len(),
    ensures
        hex_bytes(bytes).len() == 2 * bytes.len(),
        hex_bytes(bytes)[2 * i] == text::digit_char(bytes[i] as nat / 16),
        hex_bytes(bytes)[2 * i + 1] == text::digit_char(bytes[i] as nat % 16),
    decreases bytes.len(),
{
    let init = bytes.drop_last();
    lemma_hex_bytes(bytes);
    lemma_hex_bytes(init);
    let hi = bytes.last() as nat / 16;
    let lo = bytes.last() as nat % 16;
    assert(hi < 16 && lo < 16);
    assert(text::hex(hi) =~= seq![text::digit_char(hi)]);
    assert(text::hex(lo) =~= seq![text::digit_char(lo)]);
    if i < init.len() {
        lemma_two_digits_for_each_byte(init, i);
        assert(hex_bytes(bytes)[2 * i] == hex_bytes(init)[2 * i]);
        assert(hex_bytes(bytes)[2 * i + 1] == hex_bytes(init)[2 * i + 1]);
    }
}

/// A payload is a nonce of 12 bytes and the ciphertext after it, which is not empty; what
/// is shorter, or is no base64, is refused.
pub proof fn lemma_payload_is_nonce_and_ciphertext(nonce: Seq<u8>, ciphertext: Seq<u8>)
    requires
        nonce.len() == 12,
    ensures
        ciphertext.len() > 0 ==> payload_parts(Some(nonce + ciphertext)) == Ok::<
            (Seq<u8>, Seq<u8>),
            Seq<char>,
        >((nonce, ciphertext)),
        ciphertext.len() == 0 ==> payload_parts(Some(nonce + ciphertext)) is Err,
        payload_parts(None) is Err,
{
    let b = nonce + ciphertext;
    assert(b.take(12) =~= nonce);
    assert(b.skip(12) =~= ciphertext);
}

/// Marked content is refused where it is no base64 or too short.
pub proof fn lemma_damaged_content_is_refused(data: Seq<char>, seed: Seq<char>)
    requires
        text::has_prefix(data, "v1:"@),
    ensures
        base64_bytes(data.skip(3)) is None ==> opened(data, seed) is Err,
        base64_bytes(data.skip(3)) is Some && base64_bytes(data.skip(3))->0.len() < 13 ==> opened(
            data,
            seed,
        ) is Err,
{
}

/// What was encrypted is marked as such, and decrypting it with the same seed gives the
/// text back.
pub proof fn lemma_decryption_undoes_encryption(
    plaintext: &str,
    seed: &str,
    s: String,
    data: &str,
    d: Result<String, ConfigError>,
    marked: bool,
)
    requires
        call_ensures(encrypt_secrets, (plaintext, seed), Ok::<String, ConfigError>(s)),
        data@ == s@,
        call_ensures(decrypt_secrets, (data, seed), d),
        call_ensures(is_encrypted, (data,), marked),
    ensures
        d is Ok,
        d->Ok_0@ == plaintext@,
        marked,
        s@[0] == 'v' && s@[1] == '1' && s@[2] == ':',
{
    reveal_strlit("v1:");
    text::lemma_prefixes_agree(s@, "v1:"@);
    assert("v1:"@[0] == 'v' && "v1:"@[1] == '1' && "v1:"@[2] == ':');
}

/// Content that is not marked is handed back as it is, whatever the seed.
pub proof fn lemma_plain_content_is_handed_back(
    data: &str,
    seed: &str,
    d: Result<String, ConfigError>,
    marked: bool,
)
    requires
        call_ensures(decrypt_secrets, (data, seed), d),
        call_ensures(is_encrypted, (data,), marked),
        !marked,
    ensures
        d is Ok,
        d->Ok_0@ == data@,
{
}

/// A seed that is generated spells 32 bytes, by 64 characters without white space, and is
/// found again in a file that holds it.
pub proof fn lemma_generated_seeds(r: String)
    requires
        call_ensures(generate_seed, (), r),
    ensures
        r@.len() == 64,
        is_ascii_chars(r@),
        forall|i: int| 0 <= i < r@.len() ==> !text::is_white_space(#[trigger] r@[i]),
        seed_in(r@) == Some(r@),
{
    let bytes = choose|bytes: Seq<u8>| bytes.len() == 32 && r@ == #[trigger] hex_bytes(bytes);
    lemma_hex_bytes(bytes);
}

} // verus!

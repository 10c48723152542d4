//! Local encryption of secrets: AES-256-GCM with a fresh 12-byte nonce, stored as
//! base64 of the nonce followed by the ciphertext, under a key derived from the machine.

use vstd::prelude::*;
use vstd::string::{StringExecFns, StringSliceAdditionalSpecFns};
use vstd::utf8::{decode_utf8, encode_utf8, valid_utf8};
use aes_gcm::aead::{Aead, KeyInit};

verus! {

/// The AES-256-GCM ciphertext (with its 16-byte tag appended) of `plaintext` under `key`
/// and `nonce`, with no associated data.
pub uninterp spec fn aes_gcm_sealed(key: Seq<u8>, nonce: Seq<u8>, plaintext: Seq<u8>) -> Seq<u8>;

/// The plaintext of an AES-256-GCM ciphertext under `key` and `nonce`, or `None` when the
/// tag does not check.
pub uninterp spec fn aes_gcm_opened(key: Seq<u8>, nonce: Seq<u8>, ciphertext: Seq<u8>) -> Option<Seq<u8>>;

/// The character of a 6-bit value in the standard base64 alphabet: `A`-`Z`, `a`-`z`,
/// `0`-`9`, `+`, `/`.
pub open spec fn b64_digit(v: int) -> char {
    if v < 26 {
        ('A' as int + v) as char
    } else if v < 52 {
        ('a' as int + (v - 26)) as char
    } else if v < 62 {
        ('0' as int + (v - 52)) as char
    } else if v == 62 {
        '+'
    } else {
        '/'
    }
}

/// The standard base64 encoding, with padding, of `bytes`: each group of three bytes
/// becomes four characters of six bits each; a last group of one or two bytes is padded
/// with `=`.
pub open spec fn b64_encoded(bytes: Seq<u8>) -> Seq<char>
    decreases bytes.len(),
{
    let b = bytes;
    let x = if b.len() > 0 { b[0] as int } else { 0 };
    let y = if b.len() > 1 { b[1] as int } else { 0 };
    let z = if b.len() > 2 { b[2] as int } else { 0 };
    if b.len() == 0 {
        Seq::empty()
    } else if b.len() == 1 {
        seq![b64_digit(x / 4), b64_digit((x % 4) * 16), '=', '=']
    } else if b.len() == 2 {
        seq![b64_digit(x / 4), b64_digit((x % 4) * 16 + y / 16), b64_digit((y % 16) * 4), '=']
    } else {
        seq![b64_digit(x / 4), b64_digit((x % 4) * 16 + y / 16), b64_digit((y % 16) * 4 + z / 64), b64_digit(z % 64)]
            + b64_encoded(b.skip(3))
    }
}

/// The bytes a standard base64 text decodes to, or `None` when it is not valid base64.
pub uninterp spec fn b64_decoded(text: Seq<char>) -> Option<Seq<u8>>;

/// The SHA-256 digest of `bytes`.
pub uninterp spec fn sha256_digest(bytes: Seq<u8>) -> Seq<u8>;

/// The largest plaintext AES-GCM accepts: 2^36 bytes.
pub open spec fn p_max() -> int {
    0x10_0000_0000
}

/// `aes_gcm::Aes256Gcm`'s `encrypt` with no associated data. The crate's source refuses a
/// plaintext of more than 2^36 bytes and otherwise returns the CTR-encrypted bytes with
/// the 16-byte tag appended; the contract claims exactly that, naming the bytes
/// `aes_gcm_sealed`, and the AEAD property the crate documents: the sealed bytes open,
/// under the same key and nonce, to the plaintext.
#[verifier::external_body]
fn aes_seal(key: &[u8; 32], nonce: &[u8; 12], plaintext: &[u8]) -> (r: Option<Vec<u8>>)
    ensures
        r is None <==> plaintext@.len() > p_max(),
        r matches Some(c) ==> c@ == aes_gcm_sealed(key@, nonce@, plaintext@)
            && c@.len() == plaintext@.len() + 16
            && aes_gcm_opened(key@, nonce@, c@) == Some(plaintext@),
{
    let cipher = aes_gcm::Aes256Gcm::new_from_slice(key).ok()?;
    cipher.encrypt(aes_gcm::Nonce::from_slice(nonce), plaintext).ok()
}

/// `aes_gcm::Aes256Gcm`'s `decrypt` with no associated data. The contract names the
/// result `aes_gcm_opened`.
#[verifier::external_body]
fn aes_open(key: &[u8; 32], nonce: &[u8; 12], ciphertext: &[u8]) -> (r: Option<Vec<u8>>)
    ensures
        (match r { Some(p) => Some(p@), None => None }) == aes_gcm_opened(key@, nonce@, ciphertext@),
{
    let cipher = aes_gcm::Aes256Gcm::new_from_slice(key).ok()?;
    cipher.decrypt(aes_gcm::Nonce::from_slice(nonce), ciphertext).ok()
}

/// base64's `STANDARD.encode`: the padded standard encoding `b64_encoded`, and the round
/// trip the crate documents: `decode` gives the bytes back. The crate panics only
/// when the encoded length overflows `usize`, which the bound rules out.
#[verifier::external_body]
pub(crate) fn b64_encode(bytes: &[u8]) -> (r: String)
    requires
        bytes@.len() < usize::MAX / 2,
    ensures
        r@ == b64_encoded(bytes@),
        b64_decoded(r@) == Some(bytes@),
{
    base64::Engine::encode(&base64::engine::general_purpose::STANDARD, bytes)
}

/// base64's `STANDARD.decode`. The contract names the result `b64_decoded`. The text of
/// the error is not stated.
#[verifier::external_body]
fn b64_decode(text: &str) -> (r: Result<Vec<u8>, String>)
    ensures
        (match r { Ok(b) => Some(b@), Err(_) => None }) == b64_decoded(text@),
{
    match base64::Engine::decode(&base64::engine::general_purpose::STANDARD, text) {
        Ok(v) => Ok(v),
        Err(e) => Err(e.to_string()),
    }
}

/// sha2's `Sha256::digest`. The contract names the 32 bytes `sha256_digest`.
#[verifier::external_body]
pub(crate) fn sha256(data: &[u8]) -> (r: [u8; 32])
    ensures
        r@ == sha256_digest(data@),
{
    let d = <sha2::Sha256 as sha2::Digest>::digest(data);
    let mut key = [0u8; 32];
    key.copy_from_slice(&d);
    key
}

/// Twelve bytes from the operating system's random source (`OsRng::fill_bytes`, which
/// panics if the source fails). Nothing is claimed of the bytes.
#[verifier::external_body]
fn random_nonce() -> (r: [u8; 12])
{
    let mut n = [0u8; 12];
    aes_gcm::aead::rand_core::RngCore::fill_bytes(&mut aes_gcm::aead::OsRng, &mut n);
    n
}

/// std's `String::from_utf8`: `Ok` exactly for valid UTF-8, holding the decoded text.
/// The text of the error is not stated.
#[verifier::external_body]
fn utf8_string(bytes: Vec<u8>) -> (r: Result<String, String>)
    ensures
        r is Ok <==> valid_utf8(bytes@),
        r matches Ok(s) ==> s@ == decode_utf8(bytes@),
{
    String::from_utf8(bytes).map_err(|e| e.to_string())
}

/// The stored form of `plaintext` under `key` and `nonce`: base64 of the nonce followed by
/// the sealed bytes.
pub open spec fn stored_form(plaintext: Seq<char>, key: Seq<u8>, nonce: Seq<u8>) -> Seq<char> {
    b64_encoded(nonce + aes_gcm_sealed(key, nonce, encode_utf8(plaintext)))
}

/// `encoded` is what `encrypt` stores for `plaintext` under `key` and a 12-byte `nonce`,
/// with what the encoder and the cipher promised of it: it decodes to the nonce and the
/// sealed bytes, which are 16 bytes longer than the text and open to it.
pub open spec fn stored_by_encrypt(plaintext: Seq<char>, key: Seq<u8>, nonce: Seq<u8>, encoded: Seq<char>) -> bool {
    let sealed = aes_gcm_sealed(key, nonce, encode_utf8(plaintext));
    &&& nonce.len() == 12
    &&& encode_utf8(plaintext).len() <= p_max()
    &&& sealed.len() == encode_utf8(plaintext).len() + 16
    &&& aes_gcm_opened(key, nonce, sealed) == Some(encode_utf8(plaintext))
    &&& stored_form(plaintext, key, nonce) == encoded
    &&& b64_decoded(encoded) == Some(nonce + sealed)
}

/// Encrypts `plaintext` under `key` with the given nonce. It fails only for a plaintext of
/// more than 2^36 bytes, with the message `加密失败: aead::Error`.
pub fn encrypt_with_nonce(plaintext: &str, key: &[u8; 32], nonce: [u8; 12]) -> (r: Result<String, String>)
    requires
        encode_utf8(plaintext@).len() + 28 < usize::MAX / 2,
    ensures
        encode_utf8(plaintext@).len() <= p_max() ==> (r matches Ok(s) && s@ == stored_form(plaintext@, key@, nonce@)
            && stored_by_encrypt(plaintext@, key@, nonce@, s@)),
        encode_utf8(plaintext@).len() > p_max() ==> (r matches Err(e) && e@ == "加密失败: aead::Error"@),
{
    let pt = plaintext.as_bytes();
    match aes_seal(key, &nonce, pt) {
        Some(ct) => {
            let mut combined: Vec<u8> = Vec::new();
            let mut k: usize = 0;
            while k < 12
                invariant
                    k <= 12,
                    combined@ == nonce@.take(k as int),
                decreases 12 - k,
            {
                combined.push(nonce[k]);
                k += 1;
                assert(combined@ =~= nonce@.take(k as int));
            }
            let ghost head = combined@;
            let mut j: usize = 0;
            while j < ct.len()
                invariant
                    j <= ct@.len(),
                    ct@.len() == pt@.len() + 16,
                    pt@.len() <= p_max(),
                    pt@.len() + 28 < usize::MAX / 2,
                    head.len() == 12,
                    combined@ == head + ct@.take(j as int),
                decreases ct@.len() - j,
            {
                combined.push(ct[j]);
                j += 1;
                assert(combined@ =~= head + ct@.take(j as int));
            }
            assert(nonce@.take(12) =~= nonce@);
            assert(ct@.take(ct@.len() as int) =~= ct@);
            Ok(b64_encode(combined.as_slice()))
        },
        None => Err(String::from_str("加密失败: aead::Error")),
    }
}

/// Encrypts `plaintext` under `key` with a fresh random nonce. Whatever nonce was drawn,
/// the result is the stored form under it, or the length error.
pub fn encrypt(plaintext: &str, key: &[u8; 32]) -> (r: Result<String, String>)
    requires
        encode_utf8(plaintext@).len() + 28 < usize::MAX / 2,
    ensures
        encode_utf8(plaintext@).len() <= p_max() ==> (r matches Ok(s) && exists|n: Seq<u8>| #[trigger] stored_by_encrypt(plaintext@, key@, n, s@)),
        encode_utf8(plaintext@).len() > p_max() ==> (r matches Err(e) && e@ == "加密失败: aead::Error"@),
{
    let nonce = random_nonce();
    let r = encrypt_with_nonce(plaintext, key, nonce);
    proof {
        if encode_utf8(plaintext@).len() <= p_max() {
            assert(stored_by_encrypt(plaintext@, key@, nonce@, r->Ok_0@));
        }
    }
    r
}

/// Why a stored secret could not be read back.
pub enum DecryptFailure {
    /// The text is not base64.
    Base64,
    /// Fewer than 28 bytes: no room for a nonce and a tag.
    TooShort,
    /// The tag does not check under this key.
    Aead,
    /// The plaintext is not UTF-8.
    Utf8,
}

/// The outcome of reading a stored secret: the failure, if any, in the order the checks
/// are made, else the text.
pub open spec fn decrypt_outcome(encoded: Seq<char>, key: Seq<u8>) -> Result<Seq<char>, DecryptFailure> {
    match b64_decoded(encoded) {
        None => Err(DecryptFailure::Base64),
        Some(data) => if data.len() < 28 {
            Err(DecryptFailure::TooShort)
        } else {
            match aes_gcm_opened(key, data.take(12), data.skip(12)) {
                None => Err(DecryptFailure::Aead),
                Some(p) => if valid_utf8(p) { Ok(decode_utf8(p)) } else { Err(DecryptFailure::Utf8) },
            }
        },
    }
}

/// Decryption undoes encryption: a text that `encrypt` stored for a plaintext under a key
/// decrypts, under the same key, to that plaintext.
pub proof fn law_decrypt_undoes_encrypt(plaintext: Seq<char>, key: Seq<u8>, nonce: Seq<u8>, stored: Seq<char>)
    requires
        stored_by_encrypt(plaintext, key, nonce, stored),
    ensures
        decrypt_outcome(stored, key) == Ok::<Seq<char>, DecryptFailure>(plaintext),
{
    let sealed = aes_gcm_sealed(key, nonce, encode_utf8(plaintext));
    let data = nonce + sealed;
    assert(data.take(12) =~= nonce);
    assert(data.skip(12) =~= sealed);
    vstd::utf8::encode_utf8_valid_utf8(plaintext);
    vstd::utf8::encode_utf8_decode_utf8(plaintext);
}

/// The message of each failure starts with its own fixed text.
pub open spec fn failure_message(f: DecryptFailure, msg: Seq<char>) -> bool {
    match f {
        DecryptFailure::Base64 => msg.len() >= "Base64解码失败: "@.len() && msg.take("Base64解码失败: "@.len() as int) == "Base64解码失败: "@,
        DecryptFailure::TooShort => msg == "数据太短，无法解密"@,
        DecryptFailure::Aead => msg == "解密失败: aead::Error"@,
        DecryptFailure::Utf8 => msg.len() >= "UTF-8解码失败: "@.len() && msg.take("UTF-8解码失败: "@.len() as int) == "UTF-8解码失败: "@,
    }
}

fn prefixed(prefix: &str, detail: String) -> (r: String)
    ensures
        r@ == prefix@ + detail@,
{
    String::from_str(prefix).concat(detail.as_str())
}

/// Reads back a stored secret: base64-decodes it, splits off the 12-byte nonce, opens the
/// rest under `key` and decodes it as UTF-8. What `encrypt` stored under the same key
/// reads back as the text that was stored.
pub fn decrypt(encoded: &str, key: &[u8; 32]) -> (r: Result<String, String>)
    ensures
        decrypt_outcome(encoded@, key@) matches Ok(t) ==> (r matches Ok(s) && s@ == t),
        decrypt_outcome(encoded@, key@) matches Err(f) ==> (r matches Err(m) && failure_message(f, m@)),
        forall|p: Seq<char>, n: Seq<u8>| #[trigger] stored_by_encrypt(p, key@, n, encoded@) ==> (r matches Ok(s) && s@ == p),
{
    let data = match b64_decode(encoded) {
        Ok(d) => d,
        Err(e) => {
            let m = prefixed("Base64解码失败: ", e);
            proof {
                reveal_strlit("Base64解码失败: ");
                assert(m@.take("Base64解码失败: "@.len() as int) =~= "Base64解码失败: "@);
            }
            return Err(m);
        },
    };
    if data.len() < 28 {
        proof {
            assert forall|p: Seq<char>, n: Seq<u8>| !#[trigger] stored_by_encrypt(p, key@, n, encoded@) by {
                if stored_by_encrypt(p, key@, n, encoded@) {
                    assert(data@ == n + aes_gcm_sealed(key@, n, encode_utf8(p)));
                }
            }
        }
        return Err(String::from_str("数据太短，无法解密"));
    }
    let mut nonce = [0u8; 12];
    let mut k: usize = 0;
    while k < 12
        invariant
            k <= 12,
            data@.len() >= 28,
            nonce@.len() == 12,
            forall|i: int| 0 <= i < k ==> nonce@[i] == data@[i],
        decreases 12 - k,
    {
        nonce[k] = data[k];
        k += 1;
    }
    assert(nonce@ =~= data@.take(12));
    let ct = vstd::slice::slice_subrange(data.as_slice(), 12, data.len());
    assert(ct@ =~= data@.skip(12));
    proof {
        assert forall|p: Seq<char>, n: Seq<u8>| #[trigger] stored_by_encrypt(p, key@, n, encoded@) implies
            n == nonce@ && aes_gcm_sealed(key@, n, encode_utf8(p)) == ct@ by {
            assert(data@ == n + aes_gcm_sealed(key@, n, encode_utf8(p)));
            assert(data@.take(12) =~= n);
            assert(data@.skip(12) =~= aes_gcm_sealed(key@, n, encode_utf8(p)));
        }
    }
    let pt = match aes_open(key, &nonce, ct) {
        Some(p) => p,
        None => {
            proof {
                assert forall|p: Seq<char>, n: Seq<u8>| !#[trigger] stored_by_encrypt(p, key@, n, encoded@) by {
                    if stored_by_encrypt(p, key@, n, encoded@) {
                        assert(aes_gcm_sealed(key@, nonce@, encode_utf8(p)) == ct@);
                    }
                }
            }
            return Err(String::from_str("解密失败: aead::Error"));
        },
    };
    proof {
        assert forall|p: Seq<char>, n: Seq<u8>| #[trigger] stored_by_encrypt(p, key@, n, encoded@) implies
            pt@ == encode_utf8(p) by {
            assert(aes_gcm_sealed(key@, nonce@, encode_utf8(p)) == ct@);
        }
    }
    match utf8_string(pt) {
        Ok(s) => {
            proof {
                assert forall|p: Seq<char>, n: Seq<u8>| #[trigger] stored_by_encrypt(p, key@, n, encoded@) implies
                    s@ == p by {
                    vstd::utf8::encode_utf8_decode_utf8(p);
                }
            }
            Ok(s)
        },
        Err(e) => {
            let m = prefixed("UTF-8解码失败: ", e);
            proof {
                reveal_strlit("UTF-8解码失败: ");
                assert(m@.take("UTF-8解码失败: "@.len() as int) =~= "UTF-8解码失败: "@);
                assert forall|p: Seq<char>, n: Seq<u8>| !#[trigger] stored_by_encrypt(p, key@, n, encoded@) by {
                    if stored_by_encrypt(p, key@, n, encoded@) {
                        vstd::utf8::encode_utf8_valid_utf8(p);
                    }
                }
            }
            Err(m)
        },
    }
}

/// The text a machine key is derived from: `{hostname}_{username}`.
pub fn machine_id(hostname: &str, username: &str) -> (r: String)
    ensures
        r@ == hostname@ + "_"@ + username@,
{
    String::from_str(hostname).concat("_").concat(username)
}

/// The machine's AES key: the SHA-256 digest of `{hostname}_{username}` as UTF-8.
pub fn derive_machine_key(hostname: &str, username: &str) -> (k: [u8; 32])
    ensures
        k@ == sha256_digest(encode_utf8(hostname@ + "_"@ + username@)),
{
    let id = machine_id(hostname, username);
    sha256(id.as_str().as_bytes())
}

/// The host name, or `unknown` when it cannot be read.
pub fn hostname(read: Option<String>) -> (r: String)
    ensures
        r@ == (match read { Some(h) => h@, None => "unknown"@ }),
{
    match read {
        Some(h) => h,
        None => String::from_str("unknown"),
    }
}

/// The user name, or `unknown` when it cannot be read.
pub fn username(read: Option<String>) -> (r: String)
    ensures
        r@ == (match read { Some(u) => u@, None => "unknown"@ }),
{
    match read {
        Some(u) => u,
        None => String::from_str("unknown"),
    }
}

} // verus!

//! Secrets kept in the configuration table, encrypted under the machine key.

use vstd::prelude::*;
use vstd::string::StringExecFns;
use vstd::utf8::{decode_utf8, valid_utf8};
use crate::crypto::{decrypt, decrypt_outcome, encrypt, failure_message, p_max, stored_by_encrypt};
use crate::error::{CommandError, INTERNAL};

verus! {

/// The text std's `String::from_utf8_lossy` makes of `bytes`: invalid sequences become
/// U+FFFD.
pub uninterp spec fn utf8_lossy_text(bytes: Seq<u8>) -> Seq<char>;

/// std's `String::from_utf8_lossy`. The contract names the text `utf8_lossy_text` and
/// claims what std documents: valid UTF-8 is decoded unchanged.
#[verifier::external_body]
fn utf8_lossy(bytes: &[u8]) -> (r: String)
    ensures
        r@ == utf8_lossy_text(bytes@),
        valid_utf8(bytes@) ==> r@ == decode_utf8(bytes@),
{
    String::from_utf8_lossy(bytes).to_string()
}

/// The encrypted form of a secret to store, or the internal error
/// `加密配置失败: <reason>` when it cannot be encrypted.
pub fn set_secure_config(value: &str, machine_key: &[u8; 32]) -> (r: Result<String, CommandError>)
    requires
        vstd::utf8::encode_utf8(value@).len() + 28 < usize::MAX / 2,
    ensures
        vstd::utf8::encode_utf8(value@).len() <= p_max() ==> (r matches Ok(s) && exists|n: Seq<u8>| #[trigger] stored_by_encrypt(value@, machine_key@, n, s@)),
        vstd::utf8::encode_utf8(value@).len() > p_max() ==> (r matches Err(e) && e.code == INTERNAL && e.message@ == "加密配置失败: 加密失败: aead::Error"@),
{
    let enc = encrypt(value, machine_key);
    match enc {
        Ok(s) => {
            let ghost n = choose|n: Seq<u8>| #[trigger] stored_by_encrypt(value@, machine_key@, n, s@);
            let r: Result<String, CommandError> = Ok(s);
            proof {
                if vstd::utf8::encode_utf8(value@).len() <= p_max() {
                    assert(stored_by_encrypt(value@, machine_key@, n, r->Ok_0@));
                }
            }
            r
        },
        Err(e) => {
            let m = String::from_str("加密配置失败: ").concat(e.as_str());
            proof {
                reveal_strlit("加密配置失败: ");
                reveal_strlit("加密失败: aead::Error");
                reveal_strlit("加密配置失败: 加密失败: aead::Error");
                if vstd::utf8::encode_utf8(value@).len() > p_max() {
                    assert(m@ =~= "加密配置失败: 加密失败: aead::Error"@);
                }
            }
            Err(CommandError::internal(m.as_str()))
        },
    }
}

/// A stored secret read back: nothing stored gives `None`; otherwise its bytes, read as
/// text (lossily), are decrypted, and a failure becomes the internal error
/// `解密配置失败: <reason>`.
pub fn get_secure_config(stored: Option<Vec<u8>>, machine_key: &[u8; 32]) -> (r: Result<Option<String>, CommandError>)
    ensures
        stored is None ==> r matches Ok(None),
        stored matches Some(b) ==> ({
            let text = utf8_lossy_text(b@);
            &&& decrypt_outcome(text, machine_key@) matches Ok(t) ==> (r matches Ok(Some(s)) && s@ == t)
            &&& decrypt_outcome(text, machine_key@) matches Err(f) ==> (r matches Err(e) && e.code == INTERNAL
                && e.message@.len() >= "解密配置失败: "@.len()
                && failure_message(f, e.message@.skip("解密配置失败: "@.len() as int)))
            &&& forall|p: Seq<char>, n: Seq<u8>| #[trigger] stored_by_encrypt(p, machine_key@, n, text) ==> (r matches Ok(Some(s)) && s@ == p)
        }),
        stored matches Some(b) ==> forall|p: Seq<char>, n: Seq<u8>|
            valid_utf8(b@) && #[trigger] stored_by_encrypt(p, machine_key@, n, decode_utf8(b@)) ==> (r matches Ok(Some(s)) && s@ == p),
{
    match stored {
        None => Ok(None),
        Some(data) => {
            let text = utf8_lossy(data.as_slice());
            match decrypt(text.as_str(), machine_key) {
                Ok(s) => Ok(Some(s)),
                Err(e) => {
                    let m = String::from_str("解密配置失败: ").concat(e.as_str());
                    proof {
                        reveal_strlit("解密配置失败: ");
                        assert(m@.skip("解密配置失败: "@.len() as int) =~= e@);
                    }
                    Err(CommandError::internal(m.as_str()))
                },
            }
        },
    }
}

} // verus!

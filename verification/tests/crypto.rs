use media_vault::crypto::{decrypt, derive_machine_key, encrypt, encrypt_with_nonce, hostname, machine_id, username};
use media_vault::secure_config::{get_secure_config, set_secure_config};

#[test]
fn test_encrypt_decrypt() {
    let key = derive_machine_key(&hostname(Some("host".to_string())), &username(None));
    let plaintext = "test_secret_data";
    let encrypted = encrypt(plaintext, &key).unwrap();
    let decrypted = decrypt(&encrypted, &key).unwrap();
    assert_eq!(plaintext, decrypted);
}

#[test]
fn machine_id_joins_host_and_user() {
    assert_eq!(machine_id("pc", "alice"), "pc_alice");
    assert_eq!(hostname(None), "unknown");
    assert_eq!(username(Some("bob".to_string())), "bob");
}

#[test]
fn machine_key_is_sha256_of_id() {
    let k = derive_machine_key("", "");
    // SHA-256 of "_"
    assert_eq!(k[0], 0xd2);
    assert_eq!(k[1], 0xe2);
    assert_ne!(derive_machine_key("a", "b"), derive_machine_key("a", "c"));
}

#[test]
fn fixed_nonce_is_deterministic_and_starts_with_nonce() {
    let key = [7u8; 32];
    let a = encrypt_with_nonce("hello", &key, [1u8; 12]).unwrap();
    let b = encrypt_with_nonce("hello", &key, [1u8; 12]).unwrap();
    assert_eq!(a, b);
    // base64 of twelve 0x01 bytes starts with "AQEB"
    assert!(a.starts_with("AQEBAQEBAQEBAQEB"));
    assert_eq!(decrypt(&a, &key).unwrap(), "hello");
}

#[test]
fn decrypt_rejects_bad_base64() {
    let e = decrypt("!!!!", &[0u8; 32]).unwrap_err();
    assert!(e.starts_with("Base64解码失败: "));
}

#[test]
fn decrypt_rejects_short_data() {
    // 12 bytes only
    let e = decrypt("AAAAAAAAAAAAAAAA", &[0u8; 32]).unwrap_err();
    assert_eq!(e, "数据太短，无法解密");
}

#[test]
fn decrypt_rejects_wrong_key() {
    let s = encrypt("secret", &[1u8; 32]).unwrap();
    let e = decrypt(&s, &[2u8; 32]).unwrap_err();
    assert_eq!(e, "解密失败: aead::Error");
}

#[test]
fn secure_config_round_trip() {
    let key = [9u8; 32];
    let stored = set_secure_config("api-key-value", &key).unwrap();
    let back = get_secure_config(Some(stored.into_bytes()), &key).unwrap();
    assert_eq!(back, Some("api-key-value".to_string()));
    assert_eq!(get_secure_config(None, &key).unwrap(), None);
}

#[test]
fn secure_config_reports_failure() {
    let e = get_secure_config(Some(b"!!!!".to_vec()), &[0u8; 32]).unwrap_err();
    assert_eq!(e.code, 4000);
    assert!(e.message.starts_with("解密配置失败: Base64解码失败: "));
}

use my_cli::auth::{
    check_repeated_entry, hash_master_password, mask_password, nonce_from_db_string, parse_nonce,
    store_encrypted, try_decrypt, try_retrieve_encrypted, try_verify_master_password,
    verify_master_password, DbReady, EntryCheck, Nonce,
};
use my_cli::models::CryptoData;
use my_cli::text::{decimal_string, parse_u8, str_eq, trim, trim_end};

#[test]
fn decimal_string_renders_signs_and_zero() {
    assert_eq!(decimal_string(0), "0");
    assert_eq!(decimal_string(7), "7");
    assert_eq!(decimal_string(1234), "1234");
    assert_eq!(decimal_string(-42), "-42");
    assert_eq!(decimal_string(i64::MIN), i64::MIN.to_string());
    assert_eq!(decimal_string(i64::MAX), i64::MAX.to_string());
}

#[test]
fn trim_removes_unicode_whitespace_on_both_sides() {
    assert_eq!(trim("  a b \n"), "a b");
    assert_eq!(trim("\u{3000}x\u{a0}"), "x");
    assert_eq!(trim("   "), "");
    assert_eq!(trim_end("  a b \t\r\n"), "  a b");
    assert_eq!(trim_end(""), "");
}

#[test]
fn parse_u8_follows_from_str() {
    assert_eq!(parse_u8("0"), Some(0));
    assert_eq!(parse_u8("255"), Some(255));
    assert_eq!(parse_u8("+7"), Some(7));
    assert_eq!(parse_u8("007"), Some(7));
    assert_eq!(parse_u8("256"), None);
    assert_eq!(parse_u8(""), None);
    assert_eq!(parse_u8("+"), None);
    assert_eq!(parse_u8("-1"), None);
    assert_eq!(parse_u8("1a"), None);
    for v in 0..=255u8 {
        assert_eq!(parse_u8(&v.to_string()), Some(v));
    }
}

#[test]
fn str_eq_compares_text() {
    assert!(str_eq("abc", "abc"));
    assert!(!str_eq("abc", "abd"));
    assert!(!str_eq("abc", "ab"));
    assert!(str_eq("", ""));
}

#[test]
fn nonce_db_string_joins_decimal_bytes() {
    let n = Nonce([0, 1, 2, 10, 99, 100, 200, 255, 3, 4, 5, 6]);
    assert_eq!(n.to_db_string(), "0,1,2,10,99,100,200,255,3,4,5,6");
}

#[test]
fn nonce_round_trips_through_db_string() {
    let n = Nonce([9, 8, 7, 6, 5, 4, 3, 2, 1, 0, 255, 128]);
    let back = parse_nonce(&n.to_db_string()).expect("a written nonce reads back");
    assert_eq!(back.0, n.0);
    assert_eq!(nonce_from_db_string(&n.to_db_string()).0, n.0);
}

#[test]
fn parse_nonce_pads_short_texts_with_zeros() {
    let n = parse_nonce("1,2").expect("two bytes form a nonce");
    assert_eq!(n.0, [1, 2, 0, 0, 0, 0, 0, 0, 0, 0, 0, 0]);
}

#[test]
fn parse_nonce_rejects_bad_texts() {
    assert!(parse_nonce("").is_none());
    assert!(parse_nonce("1,,2").is_none());
    assert!(parse_nonce("1,256").is_none());
    assert!(parse_nonce("a").is_none());
    assert!(parse_nonce("1,2,3,4,5,6,7,8,9,10,11,12,13").is_none());
}

#[test]
fn stored_secret_is_retrieved_with_the_same_key() {
    let key = [7u8; 32];
    let stored = store_encrypted("my secret", "github.com", &key);
    assert_eq!(stored.host, "github.com");
    assert_ne!(stored.encrypted, "my secret");
    let record = CryptoData {
        id: 1,
        encrypted: stored.encrypted.clone(),
        host: stored.host.clone(),
        nonce: stored.nonce.clone(),
    };
    assert_eq!(try_retrieve_encrypted(&key, &vec![record]), Some("my secret".to_string()));
}

#[test]
fn retrieval_fails_with_another_key_or_no_record() {
    let key = [7u8; 32];
    let stored = store_encrypted("hunter2", "host", &key);
    let record = CryptoData {
        id: 1,
        encrypted: stored.encrypted,
        host: stored.host,
        nonce: stored.nonce,
    };
    assert_eq!(try_retrieve_encrypted(&[8u8; 32], &vec![record]), None);
    assert_eq!(try_retrieve_encrypted(&key, &vec![]), None);
}

#[test]
fn retrieval_fails_on_corrupt_records() {
    let key = [1u8; 32];
    let bad_base64 = CryptoData {
        id: 1,
        encrypted: "!!!".to_string(),
        host: "h".to_string(),
        nonce: "1,2,3".to_string(),
    };
    assert_eq!(try_retrieve_encrypted(&key, &vec![bad_base64]), None);
    let stored = store_encrypted("x", "h", &key);
    let bad_nonce = CryptoData {
        id: 2,
        encrypted: stored.encrypted,
        host: stored.host,
        nonce: "1,,3".to_string(),
    };
    assert_eq!(try_retrieve_encrypted(&key, &vec![bad_nonce]), None);
}

#[test]
fn decrypting_garbage_fails() {
    let key = [3u8; 32];
    assert_eq!(try_decrypt(&[1, 2, 3], &key, Nonce([0; 12])), None);
}

#[test]
fn master_password_verifies_and_derives_a_stable_key() {
    let phc = hash_master_password("correct horse").expect("hashing succeeds");
    let k1 = try_verify_master_password(&phc, "correct horse").expect("right password");
    let k2 = verify_master_password(&phc, "correct horse");
    assert_eq!(k1, k2);
    assert_eq!(try_verify_master_password(&phc, "wrong horse"), None);
}

#[test]
fn hashing_a_short_password_succeeds() {
    assert!(hash_master_password("").is_some());
    assert!(hash_master_password("pässwörd").is_some());
}

#[test]
fn master_key_depends_on_the_password() {
    let phc_a = hash_master_password("alpha").expect("hashing succeeds");
    let phc_b = hash_master_password("beta").expect("hashing succeeds");
    let ka = verify_master_password(&phc_a, "alpha");
    let kb = verify_master_password(&phc_b, "beta");
    assert_ne!(ka, kb);
}

#[test]
fn repeated_entries_are_checked() {
    let a = "pw".to_string();
    let b = "pw".to_string();
    let c = "other".to_string();
    assert!(matches!(check_repeated_entry(&a, &b, 0), EntryCheck::Accepted));
    assert!(matches!(check_repeated_entry(&a, &b, 9), EntryCheck::Accepted));
    assert!(matches!(check_repeated_entry(&a, &c, 2), EntryCheck::Retry(3)));
    assert!(matches!(check_repeated_entry(&a, &c, 5), EntryCheck::Retry(6)));
    assert!(matches!(check_repeated_entry(&a, &c, 6), EntryCheck::GiveUp));
}

#[test]
fn password_mask_has_one_star_per_byte() {
    assert_eq!(mask_password(""), "");
    assert_eq!(mask_password("abc"), "***");
    assert_eq!(mask_password("héllo"), "******");
}

use feishu_notifier::decimal::decimal_string;
use feishu_notifier::sign::{gen_sign, signing_input_string};
use hmac::{Hmac, Mac, NewMac};
use sha2::Sha256;

fn independent_signature(key: &[u8]) -> String {
    let mut mac = Hmac::<Sha256>::new_from_slice(key).unwrap();
    mac.update(b"");
    base64::encode(mac.finalize().into_bytes())
}

#[test]
fn decimal_string_writes_plain_numerals() {
    assert_eq!(decimal_string(0), "0");
    assert_eq!(decimal_string(7), "7");
    assert_eq!(decimal_string(9), "9");
    assert_eq!(decimal_string(10), "10");
    assert_eq!(decimal_string(109), "109");
    assert_eq!(decimal_string(1600000000), "1600000000");
    assert_eq!(decimal_string(u64::MAX), "18446744073709551615");
}

#[test]
fn decimal_string_agrees_with_the_standard_rendering() {
    let samples: [u64; 8] = [0, 1, 99, 100, 1234567890, 4294967295, 4294967296, u64::MAX - 1];
    for n in samples {
        assert_eq!(decimal_string(n), n.to_string());
    }
}

#[test]
fn signing_input_is_timestamp_line_feed_secret() {
    assert_eq!(signing_input_string("abc", 1600000000), "1600000000\nabc");
    assert_eq!(signing_input_string("", 0), "0\n");
    assert_eq!(signing_input_string("a\nb", 12), "12\na\nb");
    assert_eq!(signing_input_string(" 密钥 ", 5), "5\n 密钥 ");
}

#[test]
fn gen_sign_matches_the_known_vector() {
    assert_eq!(gen_sign("abc", 1600000000), "6L6POH2rt4SuqaKjbCNoZ7H6Z3R3OevLdHc4Q+A+cEY=");
    assert_eq!(gen_sign("abc", 1600000000), independent_signature(b"1600000000\nabc"));
}

#[test]
fn gen_sign_matches_further_vectors() {
    assert_eq!(gen_sign("", 0), "53Dh/MqIJzmbXR1ky1eoAPGAmY2mY/DJucsfzM60KVk=");
    assert_eq!(gen_sign("密钥", u64::MAX), "j8Np6d5VJ2Av8k+fQ/cUgcqDRwOJ16ZQ87iIJamQirI=");
}

#[test]
fn gen_sign_is_deterministic() {
    assert_eq!(gen_sign("abc", 1600000000), gen_sign("abc", 1600000000));
    assert_eq!(gen_sign("s3cret", 1), gen_sign("s3cret", 1));
}

#[test]
fn gen_sign_changes_with_the_secret_and_with_the_timestamp() {
    let base = gen_sign("abc", 1600000000);
    assert_eq!(gen_sign("abc", 1600000001), "VjWieaeI9J1dPAzOLjKxuyarGSnmrm6bWUh6+e4K/j8=");
    assert_eq!(gen_sign("abd", 1600000000), "5xLK974DQDe6hlA1fmw/v4/VsWSQm7Lkr7Xl89s+LTk=");
    assert_ne!(gen_sign("abc", 1600000001), base);
    assert_ne!(gen_sign("abd", 1600000000), base);
}

#[test]
fn gen_sign_keys_the_mac_with_the_input_and_signs_nothing() {
    let signed = gen_sign("abc", 1600000000);
    let mut swapped = Hmac::<Sha256>::new_from_slice(b"").unwrap();
    swapped.update(b"1600000000\nabc");
    assert_ne!(signed, base64::encode(swapped.finalize().into_bytes()));
    let mut keyed_by_secret = Hmac::<Sha256>::new_from_slice(b"abc").unwrap();
    keyed_by_secret.update(b"1600000000");
    assert_ne!(signed, base64::encode(keyed_by_secret.finalize().into_bytes()));
}

#[test]
fn gen_sign_is_padded_standard_base64_of_32_bytes() {
    let signed = gen_sign("abc", 1600000000);
    assert_eq!(signed.len(), 44);
    assert!(signed.ends_with('='));
    let raw = base64::decode(&signed).unwrap();
    assert_eq!(raw.len(), 32);
    assert_ne!(signed.as_bytes(), raw.as_slice());
    assert_ne!(signed.as_bytes(), b"1600000000\nabc".as_slice());
}

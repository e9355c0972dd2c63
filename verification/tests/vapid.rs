use vibeping_push_poc::base64url::encode_base64url;
use vibeping_push_poc::vapid::{public_key_base64, VapidKey, VapidKeyError};

const DOC_KEY: &str = "RS0WdYWWo1HajXg3NZR1olzCf31i-ZBGDkFyCs7j1jw";

#[test]
fn vapid_key_is_reused_across_restarts() {
    let (first, saved) = VapidKey::load_or_generate(None).expect("first VAPID key");
    let saved = saved.expect("a new key comes with its saved text");
    assert!(VapidKey::saved_text_fits(&saved));
    let (second, nothing_to_save) =
        VapidKey::load_or_generate(Some(&saved)).expect("reloaded VAPID key");
    assert!(nothing_to_save.is_none());
    assert_eq!(public_key_base64(&first), public_key_base64(&second));
}

#[test]
fn saved_key_text_ignores_surrounding_whitespace() {
    let text = format!("  {DOC_KEY}\n");
    assert!(VapidKey::saved_text_fits(&text));
    let key = VapidKey::from_saved_text(&text).expect("documented key");
    assert_eq!(key.to_saved_text(), DOC_KEY);
    assert_eq!(key.private_key().len(), 32);
}

#[test]
fn public_key_is_uncompressed_point_in_base64() {
    let key = VapidKey::from_saved_text(DOC_KEY).unwrap();
    let public = public_key_base64(&key);
    assert_eq!(public.len(), 87);
    assert!(public.starts_with('B'));
    let point = vibeping_push_poc::base64url::decode_base64url(&public).unwrap();
    assert_eq!(point.len(), 65);
    assert_eq!(point[0], 4);
    assert_ne!(public, DOC_KEY);
}

#[test]
fn saved_key_that_is_not_base64_is_refused() {
    let error = VapidKey::from_saved_text("not base64!").err().unwrap();
    assert_eq!(error, VapidKeyError::NotBase64url);
    assert_eq!(error.message(), "saved VAPID private key is not valid base64url");
}

#[test]
fn zero_scalar_is_refused() {
    let zero = encode_base64url(&[0u8; 32]);
    assert!(VapidKey::saved_text_fits(&zero));
    let error = VapidKey::from_saved_text(&zero).err().unwrap();
    assert_eq!(error, VapidKeyError::InvalidKey);
    assert_eq!(error.message(), "saved VAPID private key is invalid");
}

#[test]
fn group_order_is_refused_and_one_below_accepted() {
    let mut order = [
        0xff, 0xff, 0xff, 0xff, 0x00, 0x00, 0x00, 0x00, 0xff, 0xff, 0xff, 0xff, 0xff, 0xff, 0xff,
        0xff, 0xbc, 0xe6, 0xfa, 0xad, 0xa7, 0x17, 0x9e, 0x84, 0xf3, 0xb9, 0xca, 0xc2, 0xfc, 0x63,
        0x25, 0x51u8,
    ];
    let at_order = encode_base64url(&order);
    assert_eq!(
        VapidKey::from_saved_text(&at_order).err(),
        Some(VapidKeyError::InvalidKey)
    );
    order[31] = 0x50;
    let below = encode_base64url(&order);
    assert!(VapidKey::from_saved_text(&below).is_ok());
}

#[test]
fn short_saved_key_does_not_fit() {
    assert!(!VapidKey::saved_text_fits("AAAA"));
    assert!(VapidKey::saved_text_fits("%%%"));
}

#[test]
fn generated_keys_differ() {
    let a = VapidKey::generate();
    let b = VapidKey::generate();
    assert_ne!(a.to_saved_text(), b.to_saved_text());
    assert_eq!(a.to_saved_text().len(), 43);
}

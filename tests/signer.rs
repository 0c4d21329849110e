use bitbank::signer::decimal_string;
use bitbank::{gen_nonce, sign, u8_to_string, NonceCounter, OrderError, OrderSide, PrivateApi};

#[test]
fn test_u8_to_string() {
    let x: Vec<u8> = vec![0x10, 0x20, 0x30, 0x40];
    let result = u8_to_string(x.as_ref());
    assert_eq!(result, "10203040");

    let x: Vec<u8> = vec![0xff, 0xee, 0xdd, 0xcc, 0xbb, 0xaa];
    let result = u8_to_string(x.as_ref());
    assert_eq!(result, "ffeeddccbbaa");
}

#[test]
fn hex_of_empty_and_small_bytes() {
    assert_eq!(u8_to_string(&[]), "");
    assert_eq!(u8_to_string(&[0x00, 0x0f, 0xa0]), "000fa0");
}

#[test]
fn sign_known_vector() {
    let sig = sign("key", "", "The quick brown fox jumps over the lazy dog");
    assert_eq!(sig, "f7bc83f430538424b13298e6aa6fb143ef4d59a14946175997479dbc2d1a3cd8");
}

#[test]
fn sign_is_deterministic_and_body_sensitive() {
    let a = sign("secret", "1700000000000000", "{\"pair\":\"btc_jpy\"}");
    let b = sign("secret", "1700000000000000", "{\"pair\":\"btc_jpy\"}");
    assert_eq!(a, b);
    assert_eq!(a, "01d66b4e5357e4dc8f8cc6e2727ea5b8a2cade1b122de07d8a8a99d4fdc425bf");
    let c = sign("secret", "1700000000000000", "{\"pair\":\"btc_jpz\"}");
    assert_eq!(c, "f3b8311aa47f7984dea53480949046f20b2d36a5ac349740fad74dd445edd853");
    assert_ne!(a, c);
}

#[test]
fn decimal_string_writes_digits() {
    assert_eq!(decimal_string(0), "0");
    assert_eq!(decimal_string(7), "7");
    assert_eq!(decimal_string(1700000000000000), "1700000000000000");
    assert_eq!(decimal_string(u128::MAX), "340282366920938463463374607431768211455");
}

#[test]
fn nonce_counter_increases() {
    let mut c = NonceCounter::new();
    assert_eq!(c.next_nonce(1700000000000), Some(1700000000000000));
    assert_eq!(c.next_nonce(1700000000000), Some(1700000000000001));
    assert_eq!(c.next_nonce(1699999999999), Some(1700000000000002));
    assert_eq!(c.next_nonce(1700000000005), Some(1700000000005000));
    assert_eq!(c.next_nonce(u128::MAX), None);
}

#[test]
fn gen_nonce_successive_values_increase() {
    let mut c = NonceCounter::new();
    let n1: u128 = gen_nonce(&mut c).unwrap().parse().unwrap();
    let n2: u128 = gen_nonce(&mut c).unwrap().parse().unwrap();
    assert!(n2 > n1);
    assert!(n1 >= 1_600_000_000_000_000);
}

#[test]
fn sign_body_headers_carry_nonce_and_signature() {
    let mut api = PrivateApi::new("https://api.example", "my-key".to_string(), "secret".to_string());
    let body = "{\"pair\":\"btc_jpy\"}";
    let h = api.sign_body(body).unwrap();
    assert_eq!(h.access_key, "my-key");
    assert_eq!(h.access_signature, sign("secret", &h.access_nonce, body));
    let lines = h.to_vec();
    assert_eq!(lines.len(), 4);
    assert_eq!(lines[0], ("Content-Type".to_string(), "application/json".to_string()));
    assert_eq!(lines[1], ("ACCESS-KEY".to_string(), "my-key".to_string()));
    assert_eq!(lines[2], ("ACCESS-NONCE".to_string(), h.access_nonce.clone()));
    assert_eq!(lines[3], ("ACCESS-SIGNATURE".to_string(), h.access_signature.clone()));
}

#[test]
fn market_order_is_signed_over_its_body() {
    let mut api = PrivateApi::new("https://api.example", "k".to_string(), "s".to_string());
    let first = api.order_type_market("btc_jpy", "0.0001", OrderSide::Buy).unwrap();
    let second = api.order_type_market("btc_jpy", "0.0001", OrderSide::Buy).unwrap();
    assert_eq!(first.path, "https://api.example/user/spot/order");
    assert_eq!(first.body, "{\"pair\":\"btc_jpy\",\"amount\":\"0.0001\",\"side\":\"buy\",\"type\":\"market\"}");
    let n1: u128 = first.headers.access_nonce.parse().unwrap();
    let n2: u128 = second.headers.access_nonce.parse().unwrap();
    assert!(n2 > n1);
    assert_eq!(first.headers.access_signature, sign("s", &first.headers.access_nonce, &first.body));
    assert_ne!(first.headers.access_signature, second.headers.access_signature);
}

#[test]
fn market_order_rejects_bad_amount() {
    let mut api = PrivateApi::new("https://api.example", "k".to_string(), "s".to_string());
    match api.order_type_market("btc_jpy", "NaN", OrderSide::Sell) {
        Err(OrderError::InvalidAmount { raw }) => assert_eq!(raw, "NaN"),
        other => panic!("unexpected {:?}", other),
    }
}

#[test]
fn market_order_body_escapes_pair() {
    let body = PrivateApi::market_order_body("a\"b\\c\nd", "1", OrderSide::Sell).unwrap();
    assert_eq!(body, "{\"pair\":\"a\\\"b\\\\c\\nd\",\"amount\":\"1\",\"side\":\"sell\",\"type\":\"market\"}");
}

#[test]
fn market_order_body_plain_pair_and_controls() {
    let body = PrivateApi::market_order_body("eth_btc", "2.5", OrderSide::Buy).unwrap();
    assert_eq!(body, "{\"pair\":\"eth_btc\",\"amount\":\"2.5\",\"side\":\"buy\",\"type\":\"market\"}");
    let body = PrivateApi::market_order_body("a\tb\u{1}\u{8}\u{c}\r", "1", OrderSide::Buy).unwrap();
    assert_eq!(body, "{\"pair\":\"a\\tb\\u0001\\b\\f\\r\",\"amount\":\"1\",\"side\":\"buy\",\"type\":\"market\"}");
    assert!(matches!(
        PrivateApi::market_order_body("eth_btc", "1e5", OrderSide::Buy),
        Err(OrderError::InvalidAmount { .. })
    ));
}

use bitbank::decode::{decode_candlestick, decode_depth, decode_ticker, decode_tickers, decode_transactions};
use bitbank::envelope::{candlestick_response, ticker_response, tickers_response};
use bitbank::{check_envelope, coerce_float, coerce_uint, ApiError, DecodeError, Float, JsonValue, OrderSide};
use ureq::serde_json;

fn convert(v: &serde_json::Value) -> JsonValue {
    match v {
        serde_json::Value::Null => JsonValue::Null,
        serde_json::Value::Bool(b) => JsonValue::Bool(*b),
        serde_json::Value::Number(n) => JsonValue::Number(n.to_string()),
        serde_json::Value::String(s) => JsonValue::Str(s.clone()),
        serde_json::Value::Array(xs) => JsonValue::Array(xs.iter().map(convert).collect()),
        serde_json::Value::Object(m) => {
            JsonValue::Object(m.iter().map(|(k, v)| (k.clone(), convert(v))).collect())
        }
    }
}

fn json(text: &str) -> JsonValue {
    convert(&serde_json::from_str(text).unwrap())
}

fn num(f: &Float) -> f64 {
    f.as_decimal().unwrap().parse::<f64>().unwrap()
}

#[test]
fn ticker_envelope_scenario() {
    let v = json(
        r#"{"success":1,"data":{"sell":"3000000","buy":"2999000","high":"3010000","low":"2990000","open":"2995000","last":"3000500","vol":"12.5","timestamp":1700000000000}}"#,
    );
    let t = ticker_response(&v).unwrap();
    assert_eq!(num(&t.sell), 3000000.0);
    assert_eq!(num(&t.buy), 2999000.0);
    assert_eq!(num(&t.high), 3010000.0);
    assert_eq!(num(&t.low), 2990000.0);
    assert_eq!(num(&t.open), 2995000.0);
    assert_eq!(num(&t.last), 3000500.0);
    assert_eq!(num(&t.vol), 12.5);
    assert_eq!(t.timestamp, 1700000000000);
}

#[test]
fn rejected_envelope_scenario() {
    let v = json(r#"{"success":0,"data":{"code":"60001"}}"#);
    match check_envelope(&v) {
        Err(ApiError::Rejected { code }) => assert_eq!(code, "60001"),
        other => panic!("unexpected {:?}", other),
    }
    let v = json(r#"{"success":0,"data":{"code":10000}}"#);
    match ticker_response(&v) {
        Err(ApiError::Rejected { code }) => assert_eq!(code, "10000"),
        other => panic!("unexpected {:?}", other),
    }
}

#[test]
fn malformed_envelopes() {
    for text in [r#"{"data":{}}"#, r#"{"success":"1","data":{}}"#, r#"{"success":1.5,"data":{}}"#, r#"{"success":1}"#, r#"[1]"#]
    {
        assert!(matches!(check_envelope(&json(text)), Err(ApiError::MalformedEnvelope)), "{}", text);
    }
    assert!(matches!(check_envelope(&json(r#"{"success":0,"data":{}}"#)), Err(ApiError::MalformedEnvelope)));
}

#[test]
fn candlestick_scenario() {
    let v = json(
        r#"{"success":1,"data":{"candlestick":[{"type":"1hour","ohlcv":[["100","110","90","105","50","1700000000000"]]}]}}"#,
    );
    let c = candlestick_response(&v).unwrap();
    assert_eq!(c.ohlcv.len(), 1);
    assert_eq!(num(&c.ohlcv[0].open), 100.0);
    assert_eq!(num(&c.ohlcv[0].high), 110.0);
    assert_eq!(num(&c.ohlcv[0].low), 90.0);
    assert_eq!(num(&c.ohlcv[0].close), 105.0);
    assert_eq!(num(&c.ohlcv[0].volume), 50.0);
    assert_eq!(c.ohlcv[0].timestamp, 1700000000000);
}

#[test]
fn candlestick_rejects_empty_and_bad_arity() {
    assert!(matches!(
        decode_candlestick(&json(r#"{"candlestick":[]}"#)),
        Err(DecodeError::ArityMismatch { expected: 1, actual: 0 })
    ));
    assert!(matches!(
        decode_candlestick(&json(r#"{"candlestick":[{"ohlcv":[["1","2","3","4","5"]]}]}"#)),
        Err(DecodeError::ArityMismatch { expected: 6, actual: 5 })
    ));
}

#[test]
fn null_coerces_to_nan_only_where_allowed() {
    let r = coerce_float(Some(&JsonValue::Null), "sell", true).unwrap();
    assert!(r.is_nan());
    assert!(r != r);
    assert!(matches!(
        coerce_float(Some(&JsonValue::Null), "high", false),
        Err(DecodeError::TypeMismatch { .. })
    ));
    assert!(matches!(coerce_float(None, "high", false), Err(DecodeError::MissingField { .. })));
}

#[test]
fn float_equality() {
    let a = Float::Decimal("1.5".to_string());
    let b = Float::Decimal("1.5".to_string());
    assert!(a == b);
    assert!(Float::NaN != Float::NaN);
}

#[test]
fn coerce_float_cases() {
    let s = JsonValue::Str("12.5".to_string());
    assert_eq!(coerce_float(Some(&s), "vol", false).unwrap().as_decimal(), Some("12.5"));
    let n = JsonValue::Number("-3".to_string());
    assert_eq!(coerce_float(Some(&n), "vol", false).unwrap().as_decimal(), Some("-3"));
    for good in ["1e5", "2.5E-7", "+5", ".5", "5.", "007", "-1.5e+3"] {
        let v = JsonValue::Str(good.to_string());
        assert_eq!(coerce_float(Some(&v), "vol", false).unwrap().as_decimal(), Some(good));
    }
    for bad in ["", "abc", ".", "1.2.3", "-", "+-1", "e5", "1e", "1e+", "inf", "NaN", "0x10", " 1"] {
        match coerce_float(Some(&JsonValue::Str(bad.to_string())), "vol", false) {
            Err(DecodeError::InvalidNumber { field, raw }) => {
                assert_eq!(field, "vol");
                assert_eq!(raw, bad);
            }
            other => panic!("unexpected {:?}", other),
        }
    }
    match coerce_float(Some(&JsonValue::Bool(true)), "vol", false) {
        Err(DecodeError::TypeMismatch { field, expected, actual }) => {
            assert_eq!((field.as_str(), expected.as_str(), actual.as_str()), ("vol", "string", "bool"));
        }
        other => panic!("unexpected {:?}", other),
    }
}

#[test]
fn json_numbers_with_exponent_are_accepted() {
    for good in ["1e5", "2.5E-7", "-0.5", "0", "1E+3", "-12.25e10"] {
        let v = JsonValue::Number(good.to_string());
        assert_eq!(coerce_float(Some(&v), "last", false).unwrap().as_decimal(), Some(good));
    }
    assert_eq!(num(&coerce_float(Some(&JsonValue::Number("1e5".to_string())), "last", false).unwrap()), 100000.0);
    for bad in ["", "01", "1.", ".5", "1e", "1e+", "+1", "-", "1.2.3", "0x10"] {
        match coerce_float(Some(&JsonValue::Number(bad.to_string())), "last", false) {
            Err(DecodeError::InvalidNumber { raw, .. }) => assert_eq!(raw, bad),
            other => panic!("unexpected {:?} for {:?}", other, bad),
        }
    }
}

#[test]
fn ticker_accepts_float_syntax_strings() {
    let v = json(
        r#"{"sell":"1e5","buy":"+5","high":".5","low":"5.","open":"2.5E-7","last":"3000500","vol":"12.5","timestamp":1}"#,
    );
    let t = decode_ticker(&v).unwrap();
    assert_eq!(num(&t.sell), 100000.0);
    assert_eq!(num(&t.buy), 5.0);
    assert_eq!(num(&t.high), 0.5);
    assert_eq!(num(&t.low), 5.0);
    assert_eq!(num(&t.open), 2.5e-7);
}

#[test]
fn ticker_accepts_numeric_fields() {
    let v = json(
        r#"{"sell":3000000,"buy":2.5e-7,"high":"3010000","low":"2990000","open":"2995000","last":1e21,"vol":"12.5","timestamp":1700000000000}"#,
    );
    let t = decode_ticker(&v).unwrap();
    assert_eq!(num(&t.sell), 3000000.0);
    assert!(!t.buy.is_nan());
    assert_eq!(num(&t.buy), 2.5e-7);
    assert_eq!(num(&t.last), 1e21);
}

#[test]
fn coerce_uint_cases() {
    assert_eq!(coerce_uint(Some(&JsonValue::Number("1700000000000".to_string())), "t").unwrap(), 1700000000000);
    assert_eq!(coerce_uint(Some(&JsonValue::Str("18446744073709551615".to_string())), "t").unwrap(), u64::MAX);
    assert!(matches!(
        coerce_uint(Some(&JsonValue::Str("18446744073709551616".to_string())), "t"),
        Err(DecodeError::InvalidNumber { .. })
    ));
    assert!(matches!(coerce_uint(Some(&JsonValue::Str("-1".to_string())), "t"), Err(DecodeError::InvalidNumber { .. })));
    assert!(matches!(coerce_uint(Some(&JsonValue::Null), "t"), Err(DecodeError::TypeMismatch { .. })));
    assert!(matches!(coerce_uint(None, "t"), Err(DecodeError::MissingField { .. })));
}

#[test]
fn ticker_with_null_sides() {
    let v = json(
        r#"{"sell":null,"buy":null,"high":"1","low":"1","open":"1","last":"1","vol":"0","timestamp":5}"#,
    );
    let t = decode_ticker(&v).unwrap();
    assert!(t.sell.is_nan() && t.buy.is_nan());
    let v = json(r#"{"sell":"1","buy":"1","high":"1","low":"1","open":"1","last":"1","timestamp":5}"#);
    match decode_ticker(&v) {
        Err(DecodeError::MissingField { field }) => assert_eq!(field, "vol"),
        other => panic!("unexpected {:?}", other),
    }
}

#[test]
fn ticker_round_trips_decimal_text() {
    let v = json(r#"{"sell":"3000000.25","buy":"2999000","high":"3010000","low":"2990000","open":"2995000","last":"3000500","vol":"0.0001","timestamp":1}"#);
    let t = decode_ticker(&v).unwrap();
    let again = coerce_float(Some(&JsonValue::Str(t.sell.as_decimal().unwrap().to_string())), "sell", true).unwrap();
    assert!(again == t.sell);
    assert_eq!(num(&t.vol), 0.0001);
}

#[test]
fn tickers_last_entry_wins() {
    let v = json(
        r#"{"success":1,"data":[
        {"pair":"btc_jpy","sell":"1","buy":"1","high":"1","low":"1","open":"1","last":"1","vol":"1","timestamp":1},
        {"pair":"eth_jpy","sell":"2","buy":"2","high":"2","low":"2","open":"2","last":"2","vol":"2","timestamp":2},
        {"pair":"btc_jpy","sell":"3","buy":"3","high":"3","low":"3","open":"3","last":"3","vol":"3","timestamp":3}]}"#,
    );
    let t = tickers_response(&v).unwrap();
    assert_eq!(t.get("btc_jpy").unwrap().timestamp, 3);
    assert_eq!(t.get("eth_jpy").unwrap().timestamp, 2);
    assert!(t.get("xrp_jpy").is_none());
    assert!(matches!(decode_tickers(&json(r#"[{"sell":"1"}]"#)), Err(DecodeError::MissingField { .. })));
}

#[test]
fn depth_decodes_levels_in_order() {
    let d = decode_depth(&json(r#"{"asks":[["101","1"],["100","2"]],"bids":[["99","3"]]}"#)).unwrap();
    assert_eq!(d.asks.len(), 2);
    assert_eq!(num(&d.asks[0].0), 101.0);
    assert_eq!(num(&d.asks[1].1), 2.0);
    assert_eq!(num(&d.bids[0].0), 99.0);
}

#[test]
fn depth_rejects_wrong_arity() {
    assert!(matches!(
        decode_depth(&json(r#"{"asks":[["101"]],"bids":[]}"#)),
        Err(DecodeError::ArityMismatch { expected: 2, actual: 1 })
    ));
    assert!(matches!(
        decode_depth(&json(r#"{"asks":[],"bids":[["1","2","3"]]}"#)),
        Err(DecodeError::ArityMismatch { expected: 2, actual: 3 })
    ));
}

#[test]
fn transactions_decode_and_reject_wrong_case_side() {
    let v = json(
        r#"{"transactions":[{"transaction_id":7,"side":"sell","price":"100","amount":"0.5","executed_at":1700000000000}]}"#,
    );
    let t = decode_transactions(&v).unwrap();
    assert_eq!(t.data.len(), 1);
    assert_eq!(t.data[0].transaction_id, 7);
    assert_eq!(t.data[0].side, OrderSide::Sell);
    assert_eq!(num(&t.data[0].amount), 0.5);
    let v = json(
        r#"{"transactions":[{"transaction_id":7,"side":"BUY","price":"100","amount":"0.5","executed_at":1}]}"#,
    );
    match decode_transactions(&v) {
        Err(DecodeError::InvalidEnum { field, raw }) => {
            assert_eq!(field, "side");
            assert_eq!(raw, "BUY");
        }
        other => panic!("unexpected {:?}", other),
    }
    assert!(matches!(decode_transactions(&json(r#"{}"#)), Err(DecodeError::MissingField { .. })));
}

use binance_stream::bbo::BookTicker;
use binance_stream::de::{
    is_finite_bits, numeral_text, ok_finite, parsed_numeral, trim_ws, DecodeError,
};
use serde_json::Value;

/// A string field: trimmed by the library, read by the float parser, then
/// accepted or refused by the library.
fn decode_str(s: &str) -> Result<f64, DecodeError> {
    let text = numeral_text(s)?;
    let parsed = fast_float::parse::<f64, _>(text).ok().map(f64::to_bits);
    parsed_numeral(parsed).map(f64::from_bits)
}

/// A JSON field that may hold a number or a numeral string.
fn decode_value(v: &Value) -> Result<f64, String> {
    match v {
        Value::Number(n) => match n.as_f64() {
            Some(x) => ok_finite(x.to_bits()).map(f64::from_bits).map_err(|e| format!("{:?}", e)),
            None => Err("number out of range".to_string()),
        },
        Value::String(s) => decode_str(s).map_err(|e| format!("{:?}", e)),
        other => Err(format!("invalid type: {}", other)),
    }
}

fn decode_x(json: &str) -> Result<f64, String> {
    let v: Value = serde_json::from_str(json).map_err(|e| e.to_string())?;
    match v.get("x") {
        Some(x) => decode_value(x),
        None => Err("missing field x".to_string()),
    }
}

#[test]
fn number_ok() {
    let x = decode_x(r#"{ "x": 1.2345 }"#).unwrap();
    assert!((x - 1.2345).abs() < 1e-12);
}

#[test]
fn integer_ok() {
    let x = decode_x(r#"{ "x": 42 }"#).unwrap();
    assert_eq!(x, 42.0);
}

#[test]
fn string_ok() {
    let x = decode_x(r#"{ "x": "1.2345" }"#).unwrap();
    assert!((x - 1.2345).abs() < 1e-12);
}

#[test]
fn string_ws_ok() {
    let x = decode_x(r#"{ "x": "   3.14  " }"#).unwrap();
    assert!((x - 3.14).abs() < 1e-12);
}

#[test]
fn scientific_notation_ok() {
    let x = decode_x(r#"{ "x": "6.022e23" }"#).unwrap();
    assert!((x / 6.022e23 - 1.0).abs() < 1e-12);
}

#[test]
fn nan_rejected() {
    assert!(decode_x(r#"{ "x": "NaN" }"#).is_err());
}

#[test]
fn inf_rejected() {
    assert!(decode_x(r#"{ "x": "inf" }"#).is_err());
    assert!(decode_x(r#"{ "x": "-inf" }"#).is_err());
}

#[test]
fn empty_string_rejected() {
    assert!(decode_x(r#"{ "x": "" }"#).is_err());
}

#[test]
fn rejects_bool() {
    assert!(decode_x(r#"{ "x": true }"#).is_err());
}

#[test]
fn book_ticker_mixed_ok() {
    let json = r#"{
            "u": 123456789,
            "s": "BTCUSDT",
            "b": "65000.1",
            "B": "0.123",
            "a": 65000.2,
            "A": 0.456
        }"#;
    let v: Value = serde_json::from_str(json).unwrap();
    let field = |k: &str| decode_value(v.get(k).unwrap()).unwrap().to_bits();
    let bt = BookTicker::new(
        v.get("u").unwrap().as_u64().unwrap(),
        field("b"),
        field("B"),
        field("a"),
        field("A"),
    )
    .unwrap();
    assert_eq!(bt.u, 123456789);
    assert_eq!(v.get("s").unwrap().as_str().unwrap(), "BTCUSDT");
    assert!((f64::from_bits(bt.bid_px) - 65000.1).abs() < 1e-9);
    assert!((f64::from_bits(bt.bid_sz) - 0.123).abs() < 1e-12);
    assert!((f64::from_bits(bt.ask_px) - 65000.2).abs() < 1e-9);
    assert!((f64::from_bits(bt.ask_sz) - 0.456).abs() < 1e-12);
}

#[test]
fn numeral_text_trims_and_rejects_blank() {
    assert_eq!(numeral_text("  3.14 \t"), Ok("3.14"));
    assert_eq!(numeral_text("3.14"), Ok("3.14"));
    assert_eq!(numeral_text(""), Err(DecodeError::EmptyString));
    assert_eq!(numeral_text(" \n\r\t "), Err(DecodeError::EmptyString));
}

#[test]
fn trim_ws_keeps_inner_space() {
    assert_eq!(trim_ws("  a b  "), "a b");
    assert_eq!(trim_ws("\u{c}x\r\n"), "x");
    assert_eq!(trim_ws("héllo "), "héllo");
    assert_eq!(trim_ws(""), "");
}

#[test]
fn padded_and_bare_numerals_agree() {
    assert_eq!(decode_str("   3.14  ").unwrap(), decode_str("3.14").unwrap());
    assert_eq!(decode_str("\t6.022e23\n").unwrap(), 6.022e23);
}

#[test]
fn finiteness_of_bit_patterns() {
    assert!(is_finite_bits(1.5f64.to_bits()));
    assert!(is_finite_bits(f64::MAX.to_bits()));
    assert!(!is_finite_bits(f64::NAN.to_bits()));
    assert!(!is_finite_bits(f64::INFINITY.to_bits()));
    assert!(!is_finite_bits(f64::NEG_INFINITY.to_bits()));
    assert_eq!(ok_finite(2.0f64.to_bits()), Ok(2.0f64.to_bits()));
    assert_eq!(ok_finite(f64::NAN.to_bits()), Err(DecodeError::NonFinite));
}

#[test]
fn parsed_numeral_errors() {
    assert_eq!(parsed_numeral(None), Err(DecodeError::InvalidNumeral));
    assert_eq!(parsed_numeral(Some(f64::INFINITY.to_bits())), Err(DecodeError::NonFinite));
    assert_eq!(parsed_numeral(Some(0.5f64.to_bits())), Ok(0.5f64.to_bits()));
    assert_eq!(decode_str("abc"), Err(DecodeError::InvalidNumeral));
    assert_eq!(decode_str("Infinity"), Err(DecodeError::NonFinite));
}

#[test]
fn book_ticker_refuses_non_finite() {
    let one = 1.0f64.to_bits();
    let nan = f64::NAN.to_bits();
    assert!(BookTicker::new(1, one, one, one, one).is_ok());
    assert_eq!(BookTicker::new(1, one, nan, one, one), Err(DecodeError::NonFinite));
    assert_eq!(BookTicker::new(1, one, one, one, f64::INFINITY.to_bits()), Err(DecodeError::NonFinite));
}

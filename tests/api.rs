use bitbank::{CandleType, DecodeError, OrderSide, OrderType, PublicApi};

#[test]
fn labels() {
    assert_eq!(OrderSide::Buy.to_string(), "buy");
    assert_eq!(OrderSide::Sell.to_string(), "sell");
    assert_eq!(OrderType::StopLimit.to_string(), "stop_limit");
    assert_eq!(OrderType::Market.to_string(), "market");
    assert_eq!(CandleType::_5min.to_string(), "5min");
    assert_eq!(CandleType::_1month.to_string(), "1month");
}

#[test]
fn public_paths() {
    let api = PublicApi::new("https://public.example".to_string());
    assert_eq!(api.ticker_path("btc_jpy"), "https://public.example/btc_jpy/ticker");
    assert_eq!(api.tickers_path(), "https://public.example/tickers");
    assert_eq!(api.depth_path("btc_jpy"), "https://public.example/btc_jpy/depth");
    assert_eq!(api.transactions_path("btc_jpy", None).unwrap(), "https://public.example/btc_jpy/transactions");
    assert_eq!(
        api.transactions_path("btc_jpy", Some("20230408")).unwrap(),
        "https://public.example/btc_jpy/transactions/20230408"
    );
    assert_eq!(
        api.candlestick_path("btc_jpy", CandleType::_5min, "20230408").unwrap(),
        "https://public.example/btc_jpy/candlestick/5min/20230408"
    );
    assert_eq!(
        api.candlestick_path("btc_jpy", CandleType::_1day, "2023").unwrap(),
        "https://public.example/btc_jpy/candlestick/1day/2023"
    );
}

#[test]
fn date_length_is_checked() {
    let api = PublicApi::new("https://public.example".to_string());
    assert!(matches!(
        api.candlestick_path("btc_jpy", CandleType::_1hour, "2023"),
        Err(DecodeError::InvalidDateFormat { expected: 8, actual: 4 })
    ));
    assert!(matches!(
        api.candlestick_path("btc_jpy", CandleType::_4hour, "20230408"),
        Err(DecodeError::InvalidDateFormat { expected: 4, actual: 8 })
    ));
    assert!(matches!(
        api.transactions_path("btc_jpy", Some("2023")),
        Err(DecodeError::InvalidDateFormat { expected: 8, actual: 4 })
    ));
}

use vstd::prelude::*;
use crate::decode::{
    decode_candlestick, decode_depth, decode_ticker, decode_tickers, decode_transactions, spec_candles,
    spec_depth, spec_ticker, spec_tickers, spec_transactions, CandleStickInfo, DepthInfo, TickerInfo,
    Tickers, Transactions,
};
use crate::error::{view_api_result, view_result, ApiError, ApiErrorModel, DecodeError, DecodeErrorModel};
use crate::json::JsonValue;
use crate::number::{digits_value, is_digits, parse_u64};

verus! {

/// The integer that `s` writes: digits, with an optional leading minus sign.
pub open spec fn spec_integer(s: Seq<char>) -> Option<int> {
    if is_digits(s) {
        Some(digits_value(s) as int)
    } else if s.len() > 0 && s[0] == '-' && is_digits(s.drop_first()) {
        Some(-(digits_value(s.drop_first()) as int))
    } else {
        None
    }
}

/// The error code of a refused call: the `code` member of the payload,
/// written as a string or as a number.
pub open spec fn spec_error_code(data: Option<JsonValue>) -> Option<Seq<char>> {
    match data {
        Some(d) => match d.spec_get("code"@) {
            Some(JsonValue::Str(c)) => Some(c@),
            Some(JsonValue::Number(c)) => Some(c@),
            _ => None,
        },
        None => None,
    }
}

/// What the `{success, data}` wrapper of a response says: the payload where
/// `success` is the integer 1; the exchange's error code where it is another
/// integer; a malformed envelope where `success` is no integer, or where the
/// payload or its error code is missing.
pub open spec fn spec_envelope(v: JsonValue) -> Result<JsonValue, ApiErrorModel> {
    let data = v.spec_get("data"@);
    match v.spec_get("success"@) {
        Some(JsonValue::Number(s)) => match spec_integer(s@) {
            Some(flag) => if flag == 1 {
                match data {
                    Some(d) => Ok(d),
                    None => Err(ApiErrorModel::MalformedEnvelope),
                }
            } else {
                match spec_error_code(data) {
                    Some(code) => Err(ApiErrorModel::Rejected { code }),
                    None => Err(ApiErrorModel::MalformedEnvelope),
                }
            },
            None => Err(ApiErrorModel::MalformedEnvelope),
        },
        _ => Err(ApiErrorModel::MalformedEnvelope),
    }
}

/// Whether every character of `s` from `start` on is a digit, and there is one.
fn digits_from(s: &str, start: usize) -> (r: bool)
    requires
        start <= s@.len(),
    ensures
        r == is_digits(s@.subrange(start as int, s@.len() as int)),
{
    let n = s.unicode_len();
    if start >= n {
        return false;
    }
    let mut i: usize = start;
    while i < n
        invariant
            n == s@.len(),
            start <= i <= n,
            forall|k: int| start <= k < i ==> crate::number::is_digit(#[trigger] s@[k]),
        decreases n - i,
    {
        let c = s.get_char(i);
        if !('0' <= c && c <= '9') {
            assert(s@.subrange(start as int, n as int)[i - start] == c);
            return false;
        }
        i = i + 1;
    }
    assert forall|k: int| 0 <= k < n - start implies crate::number::is_digit(
        #[trigger] s@.subrange(start as int, n as int)[k],
    ) by {
        assert(s@.subrange(start as int, n as int)[k] == s@[k + start]);
    }
    true
}

/// Whether `s` writes an integer, and whether that integer is 1.
fn integer_is_one(s: &str) -> (r: Option<bool>)
    ensures
        match r {
            Some(one) => spec_integer(s@) is Some && one == (spec_integer(s@)->Some_0 == 1),
            None => spec_integer(s@) is None,
        },
{
    let n = s.unicode_len();
    assert(s@.subrange(0, n as int) =~= s@);
    if digits_from(s, 0) {
        return Some(parse_u64(s) == Some(1u64));
    }
    if n > 0 && s.get_char(0) == '-' {
        assert(s@.subrange(1, n as int) =~= s@.drop_first());
        if digits_from(s, 1) {
            return Some(false);
        }
    }
    None
}

fn error_code(data: Option<&JsonValue>) -> (r: Option<String>)
    ensures
        match r {
            Some(c) => spec_error_code(match data { Some(d) => Some(*d), None => None }) == Some(c@),
            None => spec_error_code(match data { Some(d) => Some(*d), None => None }) is None,
        },
{
    match data {
        Some(d) => match d.get("code") {
            Some(JsonValue::Str(c)) => Some(c.clone()),
            Some(JsonValue::Number(c)) => Some(c.clone()),
            _ => None,
        },
        None => None,
    }
}

/// Checks the `{success, data}` wrapper of a response and hands back its
/// payload.
pub fn check_envelope(v: &JsonValue) -> (r: Result<&JsonValue, ApiError>)
    ensures
        match r {
            Ok(d) => spec_envelope(*v) == Ok::<JsonValue, ApiErrorModel>(*d),
            Err(e) => spec_envelope(*v) == Err::<JsonValue, ApiErrorModel>(e@),
        },
{
    let data = v.get("data");
    match v.get("success") {
        Some(JsonValue::Number(s)) => match integer_is_one(s.as_str()) {
            Some(true) => match data {
                Some(d) => Ok(d),
                None => Err(ApiError::MalformedEnvelope),
            },
            Some(false) => match error_code(data) {
                Some(code) => Err(ApiError::Rejected { code }),
                None => Err(ApiError::MalformedEnvelope),
            },
            None => Err(ApiError::MalformedEnvelope),
        },
        _ => Err(ApiError::MalformedEnvelope),
    }
}

/// A whole response: the envelope first, then the payload with `decode`.
pub open spec fn spec_response<A>(v: JsonValue, decode: spec_fn(JsonValue) -> Result<A, DecodeErrorModel>) -> Result<
    A,
    ApiErrorModel,
> {
    match spec_envelope(v) {
        Err(e) => Err(e),
        Ok(d) => match decode(d) {
            Ok(a) => Ok(a),
            Err(e) => Err(ApiErrorModel::Decode(e)),
        },
    }
}

proof fn lemma_response<T: View>(
    v: JsonValue,
    d: JsonValue,
    r: Result<T, DecodeError>,
    decode: spec_fn(JsonValue) -> Result<T::V, DecodeErrorModel>,
)
    requires
        spec_envelope(v) == Ok::<JsonValue, ApiErrorModel>(d),
        view_result(r) == decode(d),
    ensures
        view_api_result(lift(r)) == spec_response(v, decode),
{
}

/// A decode result as a response result.
pub open spec fn lift<T>(r: Result<T, DecodeError>) -> Result<T, ApiError> {
    match r {
        Ok(t) => Ok(t),
        Err(e) => Err(ApiError::Decode(e)),
    }
}

fn lift_decode<T>(r: Result<T, DecodeError>) -> (out: Result<T, ApiError>)
    ensures
        out == lift(r),
{
    match r {
        Ok(t) => Ok(t),
        Err(e) => Err(ApiError::Decode(e)),
    }
}

/// Reads a ticker response.
pub fn ticker_response(v: &JsonValue) -> (r: Result<TickerInfo, ApiError>)
    ensures
        view_api_result(r) == spec_response(*v, |d: JsonValue| spec_ticker(d)),
{
    let d = check_envelope(v)?;
    let r = decode_ticker(d);
    proof {
        lemma_response(*v, *d, r, |d: JsonValue| spec_ticker(d));
    }
    lift_decode(r)
}

/// Reads a tickers response.
pub fn tickers_response(v: &JsonValue) -> (r: Result<Tickers, ApiError>)
    ensures
        view_api_result(r) == spec_response(*v, |d: JsonValue| spec_tickers(d)),
{
    let d = check_envelope(v)?;
    let r = decode_tickers(d);
    proof {
        lemma_response(*v, *d, r, |d: JsonValue| spec_tickers(d));
    }
    lift_decode(r)
}

/// Reads a depth response.
pub fn depth_response(v: &JsonValue) -> (r: Result<DepthInfo, ApiError>)
    ensures
        view_api_result(r) == spec_response(*v, |d: JsonValue| spec_depth(d)),
{
    let d = check_envelope(v)?;
    let r = decode_depth(d);
    proof {
        lemma_response(*v, *d, r, |d: JsonValue| spec_depth(d));
    }
    lift_decode(r)
}

/// Reads a trade history response.
pub fn transactions_response(v: &JsonValue) -> (r: Result<Transactions, ApiError>)
    ensures
        view_api_result(r) == spec_response(*v, |d: JsonValue| spec_transactions(d)),
{
    let d = check_envelope(v)?;
    let r = decode_transactions(d);
    proof {
        lemma_response(*v, *d, r, |d: JsonValue| spec_transactions(d));
    }
    lift_decode(r)
}

/// Reads a candlestick response.
pub fn candlestick_response(v: &JsonValue) -> (r: Result<CandleStickInfo, ApiError>)
    ensures
        view_api_result(r) == spec_response(*v, |d: JsonValue| spec_candles(d)),
{
    let d = check_envelope(v)?;
    let r = decode_candlestick(d);
    proof {
        lemma_response(*v, *d, r, |d: JsonValue| spec_candles(d));
    }
    lift_decode(r)
}

} // verus!

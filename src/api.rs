use vstd::prelude::*;
use crate::common::{CandleType, OrderSide, OrderType};
use crate::error::{DecodeError, DecodeErrorModel};
use crate::number::{is_decimal, is_decimal_str};
use crate::signer::{decimal_of, gen_nonce, hex_char, spec_signature, AuthHeaders, NonceCounter};
use crate::text::owned;

verus! {

/// Checks that a date suffix has the length that `expected` asks for.
pub fn check_date_len(date: &str, expected: usize) -> (r: Result<(), DecodeError>)
    ensures
        match r {
            Ok(_) => date@.len() == expected,
            Err(e) => date@.len() != expected && e@ == (DecodeErrorModel::InvalidDateFormat {
                expected: expected as nat,
                actual: date@.len(),
            }),
        },
{
    let actual = date.unicode_len();
    if actual != expected {
        Err(DecodeError::InvalidDateFormat { expected, actual })
    } else {
        Ok(())
    }
}

/// The addresses of the public endpoints of one exchange.
#[derive(Debug, Clone)]
pub struct PublicApi {
    pub end_point: String,
}

impl PublicApi {
    pub fn new(end_point: String) -> (r: PublicApi)
        ensures
            r.end_point == end_point,
    {
        PublicApi { end_point }
    }

    /// `{end_point}/{pair}/ticker`
    pub fn ticker_path(&self, pair: &str) -> (r: String)
        ensures
            r@ == self.end_point@ + "/"@ + pair@ + "/ticker"@,
    {
        let mut r = owned(self.end_point.as_str());
        r.append("/");
        r.append(pair);
        r.append("/ticker");
        assert(r@ =~= self.end_point@ + "/"@ + pair@ + "/ticker"@);
        r
    }

    /// `{end_point}/tickers`
    pub fn tickers_path(&self) -> (r: String)
        ensures
            r@ == self.end_point@ + "/tickers"@,
    {
        let mut r = owned(self.end_point.as_str());
        r.append("/tickers");
        assert(r@ =~= self.end_point@ + "/tickers"@);
        r
    }

    /// `{end_point}/{pair}/depth`
    pub fn depth_path(&self, pair: &str) -> (r: String)
        ensures
            r@ == self.end_point@ + "/"@ + pair@ + "/depth"@,
    {
        let mut r = owned(self.end_point.as_str());
        r.append("/");
        r.append(pair);
        r.append("/depth");
        assert(r@ =~= self.end_point@ + "/"@ + pair@ + "/depth"@);
        r
    }

    /// `{end_point}/{pair}/transactions`, followed by `/{yyyymmdd}` where a
    /// day is given; a day must have eight characters.
    pub fn transactions_path(&self, pair: &str, yyyymmdd: Option<&str>) -> (r: Result<String, DecodeError>)
        ensures
            match yyyymmdd {
                None => r is Ok && r->Ok_0@ == self.end_point@ + "/"@ + pair@ + "/transactions"@,
                Some(d) => if d@.len() == 8 {
                    r is Ok && r->Ok_0@ == self.end_point@ + "/"@ + pair@ + "/transactions/"@ + d@
                } else {
                    r is Err && r->Err_0@ == (DecodeErrorModel::InvalidDateFormat { expected: 8, actual: d@.len() })
                },
            },
    {
        match yyyymmdd {
            None => {
                let mut r = owned(self.end_point.as_str());
                r.append("/");
                r.append(pair);
                r.append("/transactions");
                assert(r@ =~= self.end_point@ + "/"@ + pair@ + "/transactions"@);
                Ok(r)
            },
            Some(d) => {
                check_date_len(d, 8)?;
                let mut r = owned(self.end_point.as_str());
                r.append("/");
                r.append(pair);
                r.append("/transactions/");
                r.append(d);
                assert(r@ =~= self.end_point@ + "/"@ + pair@ + "/transactions/"@ + d@);
                Ok(r)
            },
        }
    }

    /// `{end_point}/{pair}/candlestick/{candle_type}/{date}`; the date is
    /// `YYYYMMDD` for granularities of one hour or finer, `YYYY` for coarser
    /// ones, and a date of another length is refused.
    pub fn candlestick_path(&self, pair: &str, candle_type: CandleType, date: &str) -> (r: Result<String, DecodeError>)
        ensures
            if date@.len() == candle_type.date_len() {
                r is Ok && r->Ok_0@ == self.end_point@ + "/"@ + pair@ + "/candlestick/"@ + candle_type.label()
                    + "/"@ + date@
            } else {
                r is Err && r->Err_0@ == (DecodeErrorModel::InvalidDateFormat {
                    expected: candle_type.date_len(),
                    actual: date@.len(),
                })
            },
    {
        let expected: usize = if candle_type.is_intraday() { 8 } else { 4 };
        check_date_len(date, expected)?;
        let label = candle_type.to_string();
        let mut r = owned(self.end_point.as_str());
        r.append("/");
        r.append(pair);
        r.append("/candlestick/");
        r.append(label.as_str());
        r.append("/");
        r.append(date);
        assert(r@ =~= self.end_point@ + "/"@ + pair@ + "/candlestick/"@ + candle_type.label() + "/"@ + date@);
        Ok(r)
    }
}

/// The account side of one exchange: its address, the credentials, and the
/// counter that issues the credential's nonces.
#[derive(Debug)]
pub struct PrivateApi {
    pub end_point: String,
    pub api_key: String,
    pub api_secret: String,
    pub nonces: NonceCounter,
}

/// A private request ready to send: where, what, and with which
/// authentication.
#[derive(Debug, Clone)]
pub struct SignedRequest {
    pub path: String,
    pub body: String,
    pub headers: AuthHeaders,
}

/// Why an order could not be prepared.
#[derive(Debug, Clone)]
pub enum OrderError {
    /// The amount is no decimal number.
    InvalidAmount { raw: String },
    /// The clock could not be read, so no nonce could be issued.
    ClockUnavailable,
}

/// How serde_json writes a character inside a JSON string: the quote and the
/// backslash behind a backslash; backspace, tab, line feed, form feed and
/// carriage return as `\b \t \n \f \r`; any other character below U+0020 as
/// `\u00` and two lowercase hexadecimal digits; every other character as it is.
pub open spec fn json_escape_char(c: char) -> Seq<char> {
    if c == '"' {
        seq!['\\', '"']
    } else if c == '\\' {
        seq!['\\', '\\']
    } else if c == '\u{8}' {
        seq!['\\', 'b']
    } else if c == '\t' {
        seq!['\\', 't']
    } else if c == '\n' {
        seq!['\\', 'n']
    } else if c == '\u{c}' {
        seq!['\\', 'f']
    } else if c == '\r' {
        seq!['\\', 'r']
    } else if (c as u32) < 0x20 {
        seq!['\\', 'u', '0', '0', hex_char(((c as u32) / 16) as nat), hex_char(((c as u32) % 16) as nat)]
    } else {
        seq![c]
    }
}

/// The characters of `s`, each written as serde_json writes it inside a string.
pub open spec fn json_escape(s: Seq<char>) -> Seq<char>
    decreases s.len(),
{
    if s.len() == 0 {
        Seq::empty()
    } else {
        json_escape(s.drop_last()) + json_escape_char(s.last())
    }
}

/// The JSON string literal for `s`: its escaped characters between quotes.
pub open spec fn json_string_of(s: Seq<char>) -> Seq<char> {
    seq!['"'] + json_escape(s) + seq!['"']
}

/// Relies on serde_json's `Value::String` and its compact `Display`, which
/// writes the string between quotes with the escapes of its `ESCAPE` table.
#[verifier::external_body]
fn json_string(s: &str) -> (r: String)
    ensures
        r@ == json_string_of(s@),
{
    ureq::serde_json::Value::String(s.to_string()).to_string()
}

/// The body of a market order: a JSON object with the members `pair`,
/// `amount`, `side` and `type`, each a string, in that order, with no
/// whitespace. The pair is written as serde_json writes a string; the other
/// members hold nothing that needs escaping.
pub open spec fn market_order_body(pair: Seq<char>, amount: Seq<char>, side: OrderSide) -> Seq<char> {
    order_text(json_string_of(pair), amount, side)
}

/// The body of a market order around a pair already written as a JSON string
/// literal.
pub open spec fn order_text(quoted_pair: Seq<char>, amount: Seq<char>, side: OrderSide) -> Seq<char> {
    "{\"pair\":"@ + quoted_pair + ",\"amount\":\""@ + amount + "\",\"side\":\""@ + side.label()
        + "\",\"type\":\""@ + OrderType::Market.label() + "\"}"@
}

impl PrivateApi {
    pub fn new(end_point: &str, api_key: String, api_secret: String) -> (r: PrivateApi)
        ensures
            r.end_point@ == end_point@,
            r.api_key == api_key,
            r.api_secret == api_secret,
            r.nonces.last_issued() == 0,
    {
        PrivateApi { end_point: owned(end_point), api_key, api_secret, nonces: NonceCounter::new() }
    }

    /// `{end_point}/user/spot/order`
    pub fn order_path(&self) -> (r: String)
        ensures
            r@ == self.end_point@ + "/user/spot/order"@,
    {
        let mut r = owned(self.end_point.as_str());
        r.append("/user/spot/order");
        r
    }

    /// Writes the body of a market order for `amount` of `pair` on `side`. An
    /// amount that is no decimal number is refused.
    pub fn market_order_body(pair: &str, amount: &str, side: OrderSide) -> (r: Result<String, OrderError>)
        ensures
            is_decimal(amount@) ==> r is Ok && r->Ok_0@ == market_order_body(pair@, amount@, side),
            !is_decimal(amount@) ==> r is Err && r->Err_0 is InvalidAmount
                && r->Err_0->InvalidAmount_raw@ == amount@,
    {
        let quoted_pair = json_string(pair);
        PrivateApi::order_body_quoted(quoted_pair.as_str(), amount, side)
    }

    /// Writes the body of a market order for `amount` on `side` of the pair
    /// whose JSON string literal is `quoted_pair`. An amount that is no decimal
    /// number is refused.
    fn order_body_quoted(quoted_pair: &str, amount: &str, side: OrderSide) -> (r: Result<String, OrderError>)
        ensures
            is_decimal(amount@) ==> r is Ok && r->Ok_0@ == order_text(quoted_pair@, amount@, side),
            !is_decimal(amount@) ==> r is Err && r->Err_0 is InvalidAmount
                && r->Err_0->InvalidAmount_raw@ == amount@,
    {
        if !is_decimal_str(amount) {
            return Err(OrderError::InvalidAmount { raw: owned(amount) });
        }
        let mut body = owned("{\"pair\":");
        body.append(quoted_pair);
        body.append(",\"amount\":\"");
        body.append(amount);
        body.append("\",\"side\":\"");
        let side_label = side.to_string();
        body.append(side_label.as_str());
        body.append("\",\"type\":\"");
        let type_label = OrderType::Market.to_string();
        body.append(type_label.as_str());
        body.append("\"}");
        Ok(body)
    }

    /// Authenticates a request whose body is `body` with a fresh nonce.
    /// `None`, with the nonce counter unchanged, where the clock cannot be read.
    pub fn sign_body(&mut self, body: &str) -> (r: Option<AuthHeaders>)
        ensures
            final(self).end_point == old(self).end_point,
            final(self).api_key == old(self).api_key,
            final(self).api_secret == old(self).api_secret,
            match r {
                Some(h) => {
                    &&& final(self).nonces.last_issued() > old(self).nonces.last_issued()
                    &&& h.access_key@ == old(self).api_key@
                    &&& h.access_nonce@ == decimal_of(final(self).nonces.last_issued() as nat)
                    &&& h.access_signature@ == spec_signature(old(self).api_secret@, h.access_nonce@, body@)
                },
                None => final(self).nonces.last_issued() == old(self).nonces.last_issued(),
            },
    {
        let access_nonce = gen_nonce(&mut self.nonces)?;
        let access_signature = crate::signer::sign(self.api_secret.as_str(), access_nonce.as_str(), body);
        Some(AuthHeaders { access_key: self.api_key.clone(), access_nonce, access_signature })
    }

    /// Prepares a market order for `amount` of `pair` on `side`: its address,
    /// its body, and headers signed over that body with a fresh nonce.
    pub fn order_type_market(&mut self, pair: &str, amount: &str, side: OrderSide) -> (r: Result<
        SignedRequest,
        OrderError,
    >)
        ensures
            final(self).end_point == old(self).end_point,
            final(self).api_key == old(self).api_key,
            final(self).api_secret == old(self).api_secret,
            !is_decimal(amount@) ==> r is Err && r->Err_0 is InvalidAmount && final(self).nonces.last_issued()
                == old(self).nonces.last_issued(),
            match r {
                Ok(req) => {
                    &&& is_decimal(amount@)
                    &&& final(self).nonces.last_issued() > old(self).nonces.last_issued()
                    &&& req.path@ == old(self).end_point@ + "/user/spot/order"@
                    &&& req.body@ == market_order_body(pair@, amount@, side)
                    &&& req.headers.access_key@ == old(self).api_key@
                    &&& req.headers.access_nonce@ == decimal_of(final(self).nonces.last_issued() as nat)
                    &&& req.headers.access_signature@ == spec_signature(
                        old(self).api_secret@,
                        req.headers.access_nonce@,
                        req.body@,
                    )
                },
                Err(OrderError::InvalidAmount { raw }) => !is_decimal(amount@) && raw@ == amount@
                    && final(self).nonces.last_issued() == old(self).nonces.last_issued(),
                Err(OrderError::ClockUnavailable) => is_decimal(amount@) && final(self).nonces.last_issued()
                    == old(self).nonces.last_issued(),
            },
    {
        let body = PrivateApi::market_order_body(pair, amount, side)?;
        let path = self.order_path();
        match self.sign_body(body.as_str()) {
            Some(headers) => Ok(SignedRequest { path, body, headers }),
            None => Err(OrderError::ClockUnavailable),
        }
    }
}

} // verus!

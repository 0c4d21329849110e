use vstd::prelude::*;
use crate::error::{view_result, DecodeError, DecodeErrorModel};
use crate::json::JsonValue;
use crate::common::OrderSide;
use crate::number::{coerce_float, coerce_uint, spec_coerce_float, spec_coerce_uint, Float};
use crate::text::{owned, str_eq};

verus! {

/// The member `key` of `v`, as a reference-free option.
pub open spec fn member(v: JsonValue, key: Seq<char>) -> Option<JsonValue> {
    v.spec_get(key)
}

/// The last traded prices of one pair.
#[derive(Debug, Clone)]
pub struct TickerInfo {
    pub sell: Float,
    pub buy: Float,
    pub high: Float,
    pub low: Float,
    pub open: Float,
    pub last: Float,
    pub vol: Float,
    pub timestamp: u64,
}

pub struct TickerModel {
    pub sell: Option<Seq<char>>,
    pub buy: Option<Seq<char>>,
    pub high: Option<Seq<char>>,
    pub low: Option<Seq<char>>,
    pub open: Option<Seq<char>>,
    pub last: Option<Seq<char>>,
    pub vol: Option<Seq<char>>,
    pub timestamp: u64,
}

impl View for TickerInfo {
    type V = TickerModel;

    open spec fn view(&self) -> TickerModel {
        TickerModel {
            sell: self.sell@,
            buy: self.buy@,
            high: self.high@,
            low: self.low@,
            open: self.open@,
            last: self.last@,
            vol: self.vol@,
            timestamp: self.timestamp,
        }
    }
}

/// A ticker payload read field by field in the order `sell`, `buy`, `high`,
/// `low`, `open`, `last`, `vol`, `timestamp`; the first field that fails gives
/// the error. Only `sell` and `buy` may be null.
pub open spec fn spec_ticker(v: JsonValue) -> Result<TickerModel, DecodeErrorModel> {
    let sell = spec_coerce_float(member(v, "sell"@), "sell"@, true);
    let buy = spec_coerce_float(member(v, "buy"@), "buy"@, true);
    let high = spec_coerce_float(member(v, "high"@), "high"@, false);
    let low = spec_coerce_float(member(v, "low"@), "low"@, false);
    let open = spec_coerce_float(member(v, "open"@), "open"@, false);
    let last = spec_coerce_float(member(v, "last"@), "last"@, false);
    let vol = spec_coerce_float(member(v, "vol"@), "vol"@, false);
    let timestamp = spec_coerce_uint(member(v, "timestamp"@), "timestamp"@);
    if sell is Err {
        Err(sell->Err_0)
    } else if buy is Err {
        Err(buy->Err_0)
    } else if high is Err {
        Err(high->Err_0)
    } else if low is Err {
        Err(low->Err_0)
    } else if open is Err {
        Err(open->Err_0)
    } else if last is Err {
        Err(last->Err_0)
    } else if vol is Err {
        Err(vol->Err_0)
    } else if timestamp is Err {
        Err(timestamp->Err_0)
    } else {
        Ok(
            TickerModel {
                sell: sell->Ok_0,
                buy: buy->Ok_0,
                high: high->Ok_0,
                low: low->Ok_0,
                open: open->Ok_0,
                last: last->Ok_0,
                vol: vol->Ok_0,
                timestamp: timestamp->Ok_0,
            },
        )
    }
}

/// Decodes the payload of a ticker response.
pub fn decode_ticker(v: &JsonValue) -> (r: Result<TickerInfo, DecodeError>)
    ensures
        view_result(r) == spec_ticker(*v),
{
    let sell = coerce_float(v.get("sell"), "sell", true)?;
    let buy = coerce_float(v.get("buy"), "buy", true)?;
    let high = coerce_float(v.get("high"), "high", false)?;
    let low = coerce_float(v.get("low"), "low", false)?;
    let open = coerce_float(v.get("open"), "open", false)?;
    let last = coerce_float(v.get("last"), "last", false)?;
    let vol = coerce_float(v.get("vol"), "vol", false)?;
    let timestamp = coerce_uint(v.get("timestamp"), "timestamp")?;
    Ok(TickerInfo { sell, buy, high, low, open, last, vol, timestamp })
}

/// The views of a sequence of values, element by element.
pub open spec fn views<T: View>(s: Seq<T>) -> Seq<T::V> {
    s.map_values(|x: T| x@)
}

/// Decodes every item of a sequence with `f`, in order; the first item that
/// fails gives the error, and no partial result is kept.
pub open spec fn decode_all<A>(items: Seq<JsonValue>, f: spec_fn(JsonValue) -> Result<A, DecodeErrorModel>) -> Result<
    Seq<A>,
    DecodeErrorModel,
>
    decreases items.len(),
{
    if items.len() == 0 {
        Ok(Seq::empty())
    } else {
        match decode_all(items.drop_last(), f) {
            Err(e) => Err(e),
            Ok(done) => match f(items.last()) {
                Err(e) => Err(e),
                Ok(a) => Ok(done.push(a)),
            },
        }
    }
}

/// Once a prefix of the items fails, the whole sequence fails with the same error.
proof fn lemma_decode_all_err<A>(items: Seq<JsonValue>, k: int, f: spec_fn(JsonValue) -> Result<A, DecodeErrorModel>)
    requires
        0 <= k <= items.len(),
        decode_all(items.subrange(0, k), f) is Err,
    ensures
        decode_all(items, f) == decode_all(items.subrange(0, k), f),
    decreases items.len(),
{
    if k == items.len() {
        assert(items.subrange(0, k) =~= items);
    } else {
        let p = items.drop_last();
        assert(p.subrange(0, k) =~= items.subrange(0, k));
        lemma_decode_all_err(p, k, f);
    }
}

/// One step of a decoding loop: the prefix grows by the next item.
proof fn lemma_decode_all_step<A>(items: Seq<JsonValue>, i: int, f: spec_fn(JsonValue) -> Result<A, DecodeErrorModel>)
    requires
        0 <= i < items.len(),
    ensures
        decode_all(items.subrange(0, i + 1), f) == match decode_all(items.subrange(0, i), f) {
            Err(e) => Err(e),
            Ok(done) => match f(items[i]) {
                Err(e) => Err(e),
                Ok(a) => Ok(done.push(a)),
            },
        },
{
    let next = items.subrange(0, i + 1);
    assert(next.drop_last() =~= items.subrange(0, i));
    assert(next.last() == items[i]);
}

/// The array that `value` must be, for the field `field`.
pub open spec fn spec_expect_array(value: Option<JsonValue>, field: Seq<char>) -> Result<
    Seq<JsonValue>,
    DecodeErrorModel,
> {
    match value {
        None => Err(DecodeErrorModel::MissingField { field }),
        Some(JsonValue::Array(items)) => Ok(items@),
        Some(v) => Err(DecodeErrorModel::TypeMismatch { field, expected: "array"@, actual: v.spec_kind() }),
    }
}

fn expect_array<'a>(value: Option<&'a JsonValue>, field: &str) -> (r: Result<&'a Vec<JsonValue>, DecodeError>)
    ensures
        match r {
            Ok(items) => spec_expect_array(match value { Some(v) => Some(*v), None => None }, field@)
                == Ok::<Seq<JsonValue>, DecodeErrorModel>(items@),
            Err(e) => spec_expect_array(match value { Some(v) => Some(*v), None => None }, field@)
                == Err::<Seq<JsonValue>, DecodeErrorModel>(e@),
        },
{
    match value {
        None => Err(DecodeError::MissingField { field: owned(field) }),
        Some(JsonValue::Array(items)) => Ok(items),
        Some(v) => Err(DecodeError::TypeMismatch { field: owned(field), expected: owned("array"), actual: v.kind() }),
    }
}

/// The tickers of every pair, keyed by pair symbol. The entries are kept in
/// a vector, with the map as their view: a std map keyed by `String` has no
/// lookup that a proof can follow.
#[derive(Debug, Clone)]
pub struct Tickers {
    /// The entries in the order they were decoded; where a pair occurs twice
    /// the later entry is the one that counts.
    pub data: Vec<(String, TickerInfo)>,
}

/// The map that a sequence of entries builds when each is inserted in turn,
/// so that a later entry for a key replaces an earlier one.
pub open spec fn entries_map(s: Seq<(Seq<char>, TickerModel)>) -> Map<Seq<char>, TickerModel>
    decreases s.len(),
{
    if s.len() == 0 {
        Map::empty()
    } else {
        entries_map(s.drop_last()).insert(s.last().0, s.last().1)
    }
}

impl View for Tickers {
    type V = Map<Seq<char>, TickerModel>;

    open spec fn view(&self) -> Map<Seq<char>, TickerModel> {
        entries_map(views(self.data@))
    }
}

/// Entries after position `i` that are for other keys leave the map's entry
/// for `k` as the first `i` entries made it.
proof fn lemma_entries_tail(s: Seq<(Seq<char>, TickerModel)>, i: int, k: Seq<char>)
    requires
        0 <= i <= s.len(),
        forall|j: int| i <= j < s.len() ==> (#[trigger] s[j]).0 != k,
    ensures
        entries_map(s).contains_key(k) == entries_map(s.subrange(0, i)).contains_key(k),
        entries_map(s).contains_key(k) ==> entries_map(s)[k] == entries_map(s.subrange(0, i))[k],
    decreases s.len(),
{
    if s.len() > i {
        let p = s.drop_last();
        assert(p.subrange(0, i) =~= s.subrange(0, i));
        lemma_entries_tail(p, i, k);
    } else {
        assert(s.subrange(0, i) =~= s);
    }
}

impl Tickers {
    /// The ticker of `pair`, where the payload had one.
    pub fn get(&self, pair: &str) -> (r: Option<&TickerInfo>)
        ensures
            match r {
                Some(t) => self@.contains_key(pair@) && self@[pair@] == t@,
                None => !self@.contains_key(pair@),
            },
    {
        let ghost s = views(self.data@);
        let mut i: usize = self.data.len();
        while i > 0
            invariant
                i <= self.data@.len(),
                s == views(self.data@),
                forall|j: int| i <= j < s.len() ==> (#[trigger] s[j]).0 != pair@,
            decreases i,
        {
            if crate::text::str_eq(self.data[i - 1].0.as_str(), pair) {
                let found = &self.data[i - 1].1;
                proof {
                    lemma_entries_tail(s, i as int, pair@);
                    let p = s.subrange(0, i as int);
                    assert(p.drop_last() =~= s.subrange(0, i - 1));
                    assert(p.last() == s[i - 1]);
                }
                return Some(found);
            }
            i = i - 1;
        }
        proof {
            lemma_entries_tail(s, 0, pair@);
            assert(s.subrange(0, 0) =~= Seq::<(Seq<char>, TickerModel)>::empty());
        }
        None
    }
}

/// One element of the tickers payload: its `pair` member, then the ticker.
pub open spec fn spec_pair_entry(e: JsonValue) -> Result<(Seq<char>, TickerModel), DecodeErrorModel> {
    match member(e, "pair"@) {
        None => Err(DecodeErrorModel::MissingField { field: "pair"@ }),
        Some(JsonValue::Str(p)) => match spec_ticker(e) {
            Ok(t) => Ok((p@, t)),
            Err(err) => Err(err),
        },
        Some(v) => Err(DecodeErrorModel::TypeMismatch { field: "pair"@, expected: "string"@, actual: v.spec_kind() }),
    }
}

pub open spec fn spec_ticker_entries(items: Seq<JsonValue>) -> Result<Seq<(Seq<char>, TickerModel)>, DecodeErrorModel> {
    decode_all(items, |e: JsonValue| spec_pair_entry(e))
}

/// A tickers payload: an array of per-pair tickers, gathered by pair.
pub open spec fn spec_tickers(v: JsonValue) -> Result<Map<Seq<char>, TickerModel>, DecodeErrorModel> {
    match spec_expect_array(Some(v), "data"@) {
        Err(e) => Err(e),
        Ok(items) => match spec_ticker_entries(items) {
            Err(e) => Err(e),
            Ok(entries) => Ok(entries_map(entries)),
        },
    }
}

fn decode_pair_entry(e: &JsonValue) -> (r: Result<(String, TickerInfo), DecodeError>)
    ensures
        view_result(r) == spec_pair_entry(*e),
{
    match e.get("pair") {
        None => Err(DecodeError::MissingField { field: owned("pair") }),
        Some(JsonValue::Str(p)) => {
            let t = decode_ticker(e)?;
            Ok((p.clone(), t))
        },
        Some(v) => Err(DecodeError::TypeMismatch { field: owned("pair"), expected: owned("string"), actual: v.kind() }),
    }
}

/// Decodes the payload of a tickers response. A pair that occurs twice keeps
/// its later ticker.
pub fn decode_tickers(v: &JsonValue) -> (r: Result<Tickers, DecodeError>)
    ensures
        view_result(r) == spec_tickers(*v),
        r is Ok ==> spec_ticker_entries(spec_expect_array(Some(*v), "data"@)->Ok_0) == Ok::<
            Seq<(Seq<char>, TickerModel)>,
            DecodeErrorModel,
        >(views(r->Ok_0.data@)),
{
    let items = expect_array(Some(v), "data")?;
    let n = items.len();
    let mut data: Vec<(String, TickerInfo)> = Vec::new();
    let mut i: usize = 0;
    assert(views(data@) =~= Seq::<(Seq<char>, TickerModel)>::empty());
    assert(items@.subrange(0, 0) =~= Seq::<JsonValue>::empty());
    while i < n
        invariant
            n == items@.len(),
            i <= n,
            spec_expect_array(Some(*v), "data"@) == Ok::<Seq<JsonValue>, DecodeErrorModel>(items@),
            spec_ticker_entries(items@.subrange(0, i as int)) == Ok::<
                Seq<(Seq<char>, TickerModel)>,
                DecodeErrorModel,
            >(views(data@)),
        decreases n - i,
    {
        let ghost f = |e: JsonValue| spec_pair_entry(e);
        proof {
            lemma_decode_all_step(items@, i as int, f);
        }
        match decode_pair_entry(&items[i]) {
            Err(err) => {
                proof {
                    lemma_decode_all_err(items@, i + 1, f);
                }
                return Err(err);
            },
            Ok(entry) => {
                let ghost before = data@;
                data.push(entry);
                assert(views(data@) =~= views(before).push(entry@));
            },
        }
        i = i + 1;
    }
    assert(items@.subrange(0, n as int) =~= items@);
    Ok(Tickers { data })
}

/// The resting orders of a pair's book, each level a price and an amount, in
/// the order the exchange listed them.
#[derive(Debug, Clone)]
pub struct DepthInfo {
    pub asks: Vec<(Float, Float)>,
    pub bids: Vec<(Float, Float)>,
}

pub struct DepthModel {
    pub asks: Seq<(Option<Seq<char>>, Option<Seq<char>>)>,
    pub bids: Seq<(Option<Seq<char>>, Option<Seq<char>>)>,
}

impl View for DepthInfo {
    type V = DepthModel;

    open spec fn view(&self) -> DepthModel {
        DepthModel { asks: views(self.asks@), bids: views(self.bids@) }
    }
}

/// One level of a book side: an array of exactly two numbers, price then amount.
pub open spec fn spec_level(e: JsonValue, side: Seq<char>) -> Result<
    (Option<Seq<char>>, Option<Seq<char>>),
    DecodeErrorModel,
> {
    match e {
        JsonValue::Array(xs) => if xs@.len() != 2 {
            Err(DecodeErrorModel::ArityMismatch { expected: 2, actual: xs@.len() })
        } else {
            let price = spec_coerce_float(Some(xs@[0]), "price"@, false);
            let amount = spec_coerce_float(Some(xs@[1]), "amount"@, false);
            if price is Err {
                Err(price->Err_0)
            } else if amount is Err {
                Err(amount->Err_0)
            } else {
                Ok((price->Ok_0, amount->Ok_0))
            }
        },
        _ => Err(DecodeErrorModel::TypeMismatch { field: side, expected: "array"@, actual: e.spec_kind() }),
    }
}

pub open spec fn spec_levels(items: Seq<JsonValue>, side: Seq<char>) -> Result<
    Seq<(Option<Seq<char>>, Option<Seq<char>>)>,
    DecodeErrorModel,
> {
    decode_all(items, |e: JsonValue| spec_level(e, side))
}

/// The levels of the book side `side` of a depth payload.
pub open spec fn spec_side(v: JsonValue, side: Seq<char>) -> Result<
    Seq<(Option<Seq<char>>, Option<Seq<char>>)>,
    DecodeErrorModel,
> {
    match spec_expect_array(member(v, side), side) {
        Err(e) => Err(e),
        Ok(items) => spec_levels(items, side),
    }
}

/// A depth payload: its `asks`, then its `bids`.
pub open spec fn spec_depth(v: JsonValue) -> Result<DepthModel, DecodeErrorModel> {
    match spec_side(v, "asks"@) {
        Err(e) => Err(e),
        Ok(asks) => match spec_side(v, "bids"@) {
            Err(e) => Err(e),
            Ok(bids) => Ok(DepthModel { asks, bids }),
        },
    }
}

fn decode_level(e: &JsonValue, side: &str) -> (r: Result<(Float, Float), DecodeError>)
    ensures
        view_result(r) == spec_level(*e, side@),
{
    match e {
        JsonValue::Array(xs) => {
            if xs.len() != 2 {
                return Err(DecodeError::ArityMismatch { expected: 2, actual: xs.len() });
            }
            let price = coerce_float(Some(&xs[0]), "price", false)?;
            let amount = coerce_float(Some(&xs[1]), "amount", false)?;
            Ok((price, amount))
        },
        _ => Err(DecodeError::TypeMismatch { field: owned(side), expected: owned("array"), actual: e.kind() }),
    }
}

fn decode_side(v: &JsonValue, side: &str) -> (r: Result<Vec<(Float, Float)>, DecodeError>)
    ensures
        match r {
            Ok(levels) => spec_side(*v, side@) == Ok::<
                Seq<(Option<Seq<char>>, Option<Seq<char>>)>,
                DecodeErrorModel,
            >(views(levels@)),
            Err(e) => spec_side(*v, side@) == Err::<
                Seq<(Option<Seq<char>>, Option<Seq<char>>)>,
                DecodeErrorModel,
            >(e@),
        },
{
    let items = expect_array(v.get(side), side)?;
    let n = items.len();
    let mut levels: Vec<(Float, Float)> = Vec::new();
    let mut i: usize = 0;
    assert(views(levels@) =~= Seq::<(Option<Seq<char>>, Option<Seq<char>>)>::empty());
    assert(items@.subrange(0, 0) =~= Seq::<JsonValue>::empty());
    while i < n
        invariant
            n == items@.len(),
            i <= n,
            spec_expect_array(member(*v, side@), side@) == Ok::<Seq<JsonValue>, DecodeErrorModel>(items@),
            spec_levels(items@.subrange(0, i as int), side@) == Ok::<
                Seq<(Option<Seq<char>>, Option<Seq<char>>)>,
                DecodeErrorModel,
            >(views(levels@)),
        decreases n - i,
    {
        let ghost f = |e: JsonValue| spec_level(e, side@);
        proof {
            lemma_decode_all_step(items@, i as int, f);
        }
        match decode_level(&items[i], side) {
            Err(err) => {
                proof {
                    lemma_decode_all_err(items@, i + 1, f);
                }
                return Err(err);
            },
            Ok(level) => {
                let ghost before = levels@;
                levels.push(level);
                assert(views(levels@) =~= views(before).push(level@));
            },
        }
        i = i + 1;
    }
    assert(items@.subrange(0, n as int) =~= items@);
    Ok(levels)
}

/// Decodes the payload of a depth response. Every level must be a pair of
/// numbers; the levels keep the order they came in.
pub fn decode_depth(v: &JsonValue) -> (r: Result<DepthInfo, DecodeError>)
    ensures
        view_result(r) == spec_depth(*v),
{
    let asks = decode_side(v, "asks")?;
    let bids = decode_side(v, "bids")?;
    Ok(DepthInfo { asks, bids })
}

/// One executed trade.
#[derive(Debug, Clone)]
pub struct TransactionInfo {
    pub transaction_id: u64,
    pub side: OrderSide,
    pub price: Float,
    pub amount: Float,
    pub executed_at: u64,
}

pub struct TransactionModel {
    pub transaction_id: u64,
    pub side: OrderSide,
    pub price: Option<Seq<char>>,
    pub amount: Option<Seq<char>>,
    pub executed_at: u64,
}

impl View for TransactionInfo {
    type V = TransactionModel;

    open spec fn view(&self) -> TransactionModel {
        TransactionModel {
            transaction_id: self.transaction_id,
            side: self.side,
            price: self.price@,
            amount: self.amount@,
            executed_at: self.executed_at,
        }
    }
}

/// The side of a trade: exactly `buy` or `sell`, nothing else.
pub open spec fn spec_side_of(value: Option<JsonValue>) -> Result<OrderSide, DecodeErrorModel> {
    match value {
        None => Err(DecodeErrorModel::MissingField { field: "side"@ }),
        Some(JsonValue::Str(s)) => if s@ == "buy"@ {
            Ok(OrderSide::Buy)
        } else if s@ == "sell"@ {
            Ok(OrderSide::Sell)
        } else {
            Err(DecodeErrorModel::InvalidEnum { field: "side"@, raw: s@ })
        },
        Some(v) => Err(DecodeErrorModel::TypeMismatch { field: "side"@, expected: "string"@, actual: v.spec_kind() }),
    }
}

/// A trade object read in the order `transaction_id`, `side`, `price`,
/// `amount`, `executed_at`.
pub open spec fn spec_transaction(v: JsonValue) -> Result<TransactionModel, DecodeErrorModel> {
    let id = spec_coerce_uint(member(v, "transaction_id"@), "transaction_id"@);
    let side = spec_side_of(member(v, "side"@));
    let price = spec_coerce_float(member(v, "price"@), "price"@, false);
    let amount = spec_coerce_float(member(v, "amount"@), "amount"@, false);
    let executed_at = spec_coerce_uint(member(v, "executed_at"@), "executed_at"@);
    if id is Err {
        Err(id->Err_0)
    } else if side is Err {
        Err(side->Err_0)
    } else if price is Err {
        Err(price->Err_0)
    } else if amount is Err {
        Err(amount->Err_0)
    } else if executed_at is Err {
        Err(executed_at->Err_0)
    } else {
        Ok(
            TransactionModel {
                transaction_id: id->Ok_0,
                side: side->Ok_0,
                price: price->Ok_0,
                amount: amount->Ok_0,
                executed_at: executed_at->Ok_0,
            },
        )
    }
}

/// Reads the side of a trade.
pub fn decode_side_of(value: Option<&JsonValue>) -> (r: Result<OrderSide, DecodeError>)
    ensures
        match r {
            Ok(side) => spec_side_of(match value { Some(v) => Some(*v), None => None })
                == Ok::<OrderSide, DecodeErrorModel>(side),
            Err(e) => spec_side_of(match value { Some(v) => Some(*v), None => None })
                == Err::<OrderSide, DecodeErrorModel>(e@),
        },
{
    match value {
        None => Err(DecodeError::MissingField { field: owned("side") }),
        Some(JsonValue::Str(s)) => if str_eq(s.as_str(), "buy") {
            Ok(OrderSide::Buy)
        } else if str_eq(s.as_str(), "sell") {
            Ok(OrderSide::Sell)
        } else {
            Err(DecodeError::InvalidEnum { field: owned("side"), raw: s.clone() })
        },
        Some(v) => Err(DecodeError::TypeMismatch { field: owned("side"), expected: owned("string"), actual: v.kind() }),
    }
}

/// Decodes one trade object.
pub fn decode_transaction(v: &JsonValue) -> (r: Result<TransactionInfo, DecodeError>)
    ensures
        view_result(r) == spec_transaction(*v),
{
    let transaction_id = coerce_uint(v.get("transaction_id"), "transaction_id")?;
    let side = decode_side_of(v.get("side"))?;
    let price = coerce_float(v.get("price"), "price", false)?;
    let amount = coerce_float(v.get("amount"), "amount", false)?;
    let executed_at = coerce_uint(v.get("executed_at"), "executed_at")?;
    Ok(TransactionInfo { transaction_id, side, price, amount, executed_at })
}

/// The trades of a pair, in the order the exchange listed them.
#[derive(Debug, Clone)]
pub struct Transactions {
    pub data: Vec<TransactionInfo>,
}

impl View for Transactions {
    type V = Seq<TransactionModel>;

    open spec fn view(&self) -> Seq<TransactionModel> {
        views(self.data@)
    }
}

/// A trade history payload: an object whose `transactions` member is an
/// array of trades.
pub open spec fn spec_transactions(v: JsonValue) -> Result<Seq<TransactionModel>, DecodeErrorModel> {
    match spec_expect_array(member(v, "transactions"@), "transactions"@) {
        Err(e) => Err(e),
        Ok(items) => decode_all(items, |e: JsonValue| spec_transaction(e)),
    }
}

/// Decodes the payload of a trade history response.
pub fn decode_transactions(v: &JsonValue) -> (r: Result<Transactions, DecodeError>)
    ensures
        view_result(r) == spec_transactions(*v),
{
    let items = expect_array(v.get("transactions"), "transactions")?;
    let n = items.len();
    let mut data: Vec<TransactionInfo> = Vec::new();
    let mut i: usize = 0;
    let ghost f = |e: JsonValue| spec_transaction(e);
    assert(views(data@) =~= Seq::<TransactionModel>::empty());
    assert(items@.subrange(0, 0) =~= Seq::<JsonValue>::empty());
    while i < n
        invariant
            n == items@.len(),
            i <= n,
            f == (|e: JsonValue| spec_transaction(e)),
            spec_expect_array(member(*v, "transactions"@), "transactions"@) == Ok::<
                Seq<JsonValue>,
                DecodeErrorModel,
            >(items@),
            decode_all(items@.subrange(0, i as int), f) == Ok::<Seq<TransactionModel>, DecodeErrorModel>(
                views(data@),
            ),
        decreases n - i,
    {
        proof {
            lemma_decode_all_step(items@, i as int, f);
        }
        match decode_transaction(&items[i]) {
            Err(err) => {
                proof {
                    lemma_decode_all_err(items@, i + 1, f);
                }
                return Err(err);
            },
            Ok(t) => {
                let ghost before = data@;
                data.push(t);
                assert(views(data@) =~= views(before).push(t@));
            },
        }
        i = i + 1;
    }
    assert(items@.subrange(0, n as int) =~= items@);
    Ok(Transactions { data })
}

/// One candle: prices and volume over an interval, and the interval's start.
#[derive(Debug, Clone)]
pub struct CandleStick {
    pub open: Float,
    pub high: Float,
    pub low: Float,
    pub close: Float,
    pub volume: Float,
    pub timestamp: u64,
}

pub struct CandleModel {
    pub open: Option<Seq<char>>,
    pub high: Option<Seq<char>>,
    pub low: Option<Seq<char>>,
    pub close: Option<Seq<char>>,
    pub volume: Option<Seq<char>>,
    pub timestamp: u64,
}

impl View for CandleStick {
    type V = CandleModel;

    open spec fn view(&self) -> CandleModel {
        CandleModel {
            open: self.open@,
            high: self.high@,
            low: self.low@,
            close: self.close@,
            volume: self.volume@,
            timestamp: self.timestamp,
        }
    }
}

/// One candle: an array of exactly six members, open, high, low, close,
/// volume and timestamp, read in that order.
pub open spec fn spec_candle(e: JsonValue) -> Result<CandleModel, DecodeErrorModel> {
    match e {
        JsonValue::Array(xs) => if xs@.len() != 6 {
            Err(DecodeErrorModel::ArityMismatch { expected: 6, actual: xs@.len() })
        } else {
            let open = spec_coerce_float(Some(xs@[0]), "open"@, false);
            let high = spec_coerce_float(Some(xs@[1]), "high"@, false);
            let low = spec_coerce_float(Some(xs@[2]), "low"@, false);
            let close = spec_coerce_float(Some(xs@[3]), "close"@, false);
            let volume = spec_coerce_float(Some(xs@[4]), "volume"@, false);
            let timestamp = spec_coerce_uint(Some(xs@[5]), "timestamp"@);
            if open is Err {
                Err(open->Err_0)
            } else if high is Err {
                Err(high->Err_0)
            } else if low is Err {
                Err(low->Err_0)
            } else if close is Err {
                Err(close->Err_0)
            } else if volume is Err {
                Err(volume->Err_0)
            } else if timestamp is Err {
                Err(timestamp->Err_0)
            } else {
                Ok(
                    CandleModel {
                        open: open->Ok_0,
                        high: high->Ok_0,
                        low: low->Ok_0,
                        close: close->Ok_0,
                        volume: volume->Ok_0,
                        timestamp: timestamp->Ok_0,
                    },
                )
            }
        },
        _ => Err(DecodeErrorModel::TypeMismatch { field: "ohlcv"@, expected: "array"@, actual: e.spec_kind() }),
    }
}

/// Decodes one candle.
pub fn decode_candle(e: &JsonValue) -> (r: Result<CandleStick, DecodeError>)
    ensures
        view_result(r) == spec_candle(*e),
{
    match e {
        JsonValue::Array(xs) => {
            if xs.len() != 6 {
                return Err(DecodeError::ArityMismatch { expected: 6, actual: xs.len() });
            }
            let open = coerce_float(Some(&xs[0]), "open", false)?;
            let high = coerce_float(Some(&xs[1]), "high", false)?;
            let low = coerce_float(Some(&xs[2]), "low", false)?;
            let close = coerce_float(Some(&xs[3]), "close", false)?;
            let volume = coerce_float(Some(&xs[4]), "volume", false)?;
            let timestamp = coerce_uint(Some(&xs[5]), "timestamp")?;
            Ok(CandleStick { open, high, low, close, volume, timestamp })
        },
        _ => Err(DecodeError::TypeMismatch { field: owned("ohlcv"), expected: owned("array"), actual: e.kind() }),
    }
}

/// A candlestick series, in the order the exchange listed it; never empty.
#[derive(Debug, Clone)]
pub struct CandleStickInfo {
    pub ohlcv: Vec<CandleStick>,
}

impl View for CandleStickInfo {
    type V = Seq<CandleModel>;

    open spec fn view(&self) -> Seq<CandleModel> {
        views(self.ohlcv@)
    }
}

/// A candlestick payload: an object whose `candlestick` member is a
/// non-empty array; the `ohlcv` member of its first element holds the candles,
/// of which there must be at least one.
pub open spec fn spec_candles(v: JsonValue) -> Result<Seq<CandleModel>, DecodeErrorModel> {
    match spec_expect_array(member(v, "candlestick"@), "candlestick"@) {
        Err(e) => Err(e),
        Ok(series) => if series.len() == 0 {
            Err(DecodeErrorModel::ArityMismatch { expected: 1, actual: 0 })
        } else {
            match spec_expect_array(member(series[0], "ohlcv"@), "ohlcv"@) {
                Err(e) => Err(e),
                Ok(items) => match decode_all(items, |e: JsonValue| spec_candle(e)) {
                    Err(e) => Err(e),
                    Ok(candles) => if candles.len() == 0 {
                        Err(DecodeErrorModel::ArityMismatch { expected: 1, actual: 0 })
                    } else {
                        Ok(candles)
                    },
                },
            }
        },
    }
}

/// Decodes the payload of a candlestick response.
pub fn decode_candlestick(v: &JsonValue) -> (r: Result<CandleStickInfo, DecodeError>)
    ensures
        view_result(r) == spec_candles(*v),
        r is Ok ==> r->Ok_0.ohlcv@.len() > 0,
{
    let series = expect_array(v.get("candlestick"), "candlestick")?;
    if series.len() == 0 {
        return Err(DecodeError::ArityMismatch { expected: 1, actual: 0 });
    }
    let items = expect_array(series[0].get("ohlcv"), "ohlcv")?;
    let n = items.len();
    let mut ohlcv: Vec<CandleStick> = Vec::new();
    let mut i: usize = 0;
    let ghost f = |e: JsonValue| spec_candle(e);
    assert(views(ohlcv@) =~= Seq::<CandleModel>::empty());
    assert(items@.subrange(0, 0) =~= Seq::<JsonValue>::empty());
    while i < n
        invariant
            n == items@.len(),
            i <= n,
            f == (|e: JsonValue| spec_candle(e)),
            spec_expect_array(member(*v, "candlestick"@), "candlestick"@) == Ok::<
                Seq<JsonValue>,
                DecodeErrorModel,
            >(series@),
            series@.len() > 0,
            spec_expect_array(member(series@[0], "ohlcv"@), "ohlcv"@) == Ok::<
                Seq<JsonValue>,
                DecodeErrorModel,
            >(items@),
            decode_all(items@.subrange(0, i as int), f) == Ok::<Seq<CandleModel>, DecodeErrorModel>(
                views(ohlcv@),
            ),
            ohlcv@.len() == i,
        decreases n - i,
    {
        proof {
            lemma_decode_all_step(items@, i as int, f);
        }
        match decode_candle(&items[i]) {
            Err(err) => {
                proof {
                    lemma_decode_all_err(items@, i + 1, f);
                }
                return Err(err);
            },
            Ok(c) => {
                let ghost before = ohlcv@;
                ohlcv.push(c);
                assert(views(ohlcv@) =~= views(before).push(c@));
            },
        }
        i = i + 1;
    }
    assert(items@.subrange(0, n as int) =~= items@);
    if n == 0 {
        return Err(DecodeError::ArityMismatch { expected: 1, actual: 0 });
    }
    Ok(CandleStickInfo { ohlcv })
}

} // verus!

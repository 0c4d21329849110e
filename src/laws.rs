use vstd::prelude::*;
use crate::decode::{spec_level, spec_side_of, spec_ticker, TickerModel};
use crate::error::DecodeErrorModel;
use crate::json::JsonValue;
use crate::number::{is_number_text, spec_coerce_float, Float};
use crate::signer::spec_signature;
use vstd::std_specs::cmp::PartialEqSpec;

verus! {

/// A number that a field decoded to, written back with the same text as the
/// same kind of JSON value (a string for a string, a number for a number),
/// decodes to the same number again.
pub proof fn law_float_round_trip(value: JsonValue, field: Seq<char>, allow_null: bool, written: JsonValue)
    requires
        spec_coerce_float(Some(value), field, allow_null) is Ok,
        spec_coerce_float(Some(value), field, allow_null)->Ok_0 is Some,
        (value is Str && written is Str && written->Str_0@ == spec_coerce_float(Some(value), field, allow_null)->Ok_0->Some_0)
            || (value is Number && written is Number && written->Number_0@ == spec_coerce_float(
            Some(value),
            field,
            allow_null,
        )->Ok_0->Some_0),
    ensures
        spec_coerce_float(Some(written), field, allow_null) == spec_coerce_float(Some(value), field, allow_null),
{
}

/// Every field of a decoded ticker is not-a-number or the text of a number;
/// only `sell` and `buy` may be not-a-number.
pub proof fn law_ticker_fields_are_numbers(v: JsonValue)
    requires
        spec_ticker(v) is Ok,
    ensures
        ({
            let t: TickerModel = spec_ticker(v)->Ok_0;
            &&& t.sell is Some ==> is_number_text(t.sell->Some_0)
            &&& t.buy is Some ==> is_number_text(t.buy->Some_0)
            &&& t.high is Some && is_number_text(t.high->Some_0)
            &&& t.low is Some && is_number_text(t.low->Some_0)
            &&& t.open is Some && is_number_text(t.open->Some_0)
            &&& t.last is Some && is_number_text(t.last->Some_0)
            &&& t.vol is Some && is_number_text(t.vol->Some_0)
        }),
{
}

/// Null decodes to not-a-number, which equals nothing, itself included, where
/// null is allowed; where it is not, null is a type error.
pub proof fn law_null_is_nan(field: Seq<char>, x: Float)
    requires
        x@ is None,
    ensures
        spec_coerce_float(Some(JsonValue::Null), field, true) == Ok::<Option<Seq<char>>, DecodeErrorModel>(None),
        !x.eq_spec(&x),
        spec_coerce_float(Some(JsonValue::Null), field, false) == Err::<Option<Seq<char>>, DecodeErrorModel>(
            DecodeErrorModel::TypeMismatch { field, expected: "string"@, actual: "null"@ },
        ),
{
}

/// The signature depends on the secret, the nonce and the body alone.
pub proof fn law_sign_deterministic(
    secret: Seq<char>,
    nonce: Seq<char>,
    body: Seq<char>,
    secret2: Seq<char>,
    nonce2: Seq<char>,
    body2: Seq<char>,
)
    requires
        secret == secret2,
        nonce == nonce2,
        body == body2,
    ensures
        spec_signature(secret, nonce, body) == spec_signature(secret2, nonce2, body2),
{
}

/// A book level that is an array of any length but two is an arity error.
pub proof fn law_level_arity(e: JsonValue, side: Seq<char>)
    requires
        e is Array,
        e->Array_0@.len() != 2,
    ensures
        spec_level(e, side) == Err::<(Option<Seq<char>>, Option<Seq<char>>), DecodeErrorModel>(
            DecodeErrorModel::ArityMismatch { expected: 2, actual: e->Array_0@.len() },
        ),
{
}

/// A trade side other than exactly `buy` or `sell`, in any other case too, is
/// an enum error that carries the text.
pub proof fn law_side_is_exact(v: JsonValue)
    requires
        v is Str,
        v->Str_0@ != "buy"@,
        v->Str_0@ != "sell"@,
    ensures
        spec_side_of(Some(v)) == Err::<crate::common::OrderSide, DecodeErrorModel>(
            DecodeErrorModel::InvalidEnum { field: "side"@, raw: v->Str_0@ },
        ),
{
}

} // verus!

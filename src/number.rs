use vstd::prelude::*;
use crate::error::{DecodeError, DecodeErrorModel};
use crate::json::JsonValue;
use crate::text::{owned, str_eq};

verus! {

pub open spec fn is_digit(c: char) -> bool {
    '0' <= c && c <= '9'
}

pub open spec fn digit_value(c: char) -> nat {
    (c as u32 - '0' as u32) as nat
}

/// One or more decimal digits.
pub open spec fn is_digits(s: Seq<char>) -> bool {
    s.len() > 0 && forall|i: int| 0 <= i < s.len() ==> is_digit(#[trigger] s[i])
}

/// The number that a string of digits writes, most significant first.
pub open spec fn digits_value(s: Seq<char>) -> nat
    decreases s.len(),
{
    if s.len() == 0 {
        0
    } else {
        digits_value(s.drop_last()) * 10 + digit_value(s.last())
    }
}

/// Digits with at most one decimal point, which has a digit on each side.
pub open spec fn is_unsigned_decimal(s: Seq<char>) -> bool {
    &&& s.len() > 0
    &&& is_digit(s[0])
    &&& is_digit(s.last())
    &&& forall|i: int| 0 <= i < s.len() ==> is_digit(#[trigger] s[i]) || s[i] == '.'
    &&& forall|i: int, j: int|
        0 <= i < s.len() && 0 <= j < s.len() && #[trigger] s[i] == '.' && #[trigger] s[j] == '.'
            ==> i == j
}

/// A plain decimal number, as an order amount is written: an optional minus sign, then
/// digits with at most one inner decimal point (`-12.5`, `3000000`).
pub open spec fn is_decimal(s: Seq<char>) -> bool {
    if s.len() > 0 && s[0] == '-' {
        is_unsigned_decimal(s.drop_first())
    } else {
        is_unsigned_decimal(s)
    }
}

/// The length of the run of digits that starts at position `i` of `s`.
pub open spec fn digit_run(s: Seq<char>, i: int) -> nat
    decreases s.len() - i,
{
    if 0 <= i < s.len() && is_digit(s[i]) {
        1 + digit_run(s, i + 1)
    } else {
        0
    }
}

/// A number in JSON's grammar: an optional minus sign; an integer part that
/// is `0` or starts with another digit; an optional fraction of a point and
/// one or more digits; an optional exponent of `e` or `E`, an optional sign
/// and one or more digits (`-0.5`, `1e5`, `2.5E-7`).
pub open spec fn is_json_number(s: Seq<char>) -> bool {
    let a: int = if s.len() > 0 && s[0] == '-' { 1 } else { 0 };
    let n1 = digit_run(s, a);
    let p = a + n1;
    let int_ok = n1 >= 1 && (n1 == 1 || s[a] != '0');
    let has_frac = p < s.len() && s[p] == '.';
    let n2: int = if has_frac { digit_run(s, p + 1) as int } else { 0 };
    let q = if has_frac { p + 1 + n2 } else { p };
    let has_exp = q < s.len() && (s[q] == 'e' || s[q] == 'E');
    let b = if has_exp && q + 1 < s.len() && (s[q + 1] == '+' || s[q + 1] == '-') { q + 2 } else { q + 1 };
    let n3: int = if has_exp { digit_run(s, b) as int } else { 0 };
    let end = if has_exp { b + n3 } else { q };
    int_ok && (!has_frac || n2 >= 1) && (!has_exp || n3 >= 1) && end == s.len()
}

/// The length of the run of digits that starts at position `i` of `s`.
fn digit_run_at(s: &str, i: usize) -> (r: usize)
    requires
        i <= s@.len(),
    ensures
        r == digit_run(s@, i as int),
        i + r <= s@.len(),
{
    let n = s.unicode_len();
    let mut j: usize = i;
    while j < n
        invariant
            n == s@.len(),
            i <= j <= n,
            digit_run(s@, i as int) == (j - i) + digit_run(s@, j as int),
        decreases n - j,
    {
        let c = s.get_char(j);
        if !('0' <= c && c <= '9') {
            return j - i;
        }
        j = j + 1;
    }
    j - i
}

/// Whether `s` is a number in JSON's grammar.
pub fn is_json_number_str(s: &str) -> (r: bool)
    ensures
        r == is_json_number(s@),
{
    let len = s.unicode_len();
    let a: usize = if len > 0 && s.get_char(0) == '-' { 1 } else { 0 };
    let n1 = digit_run_at(s, a);
    let p = a + n1;
    if n1 == 0 || (n1 > 1 && s.get_char(a) == '0') {
        return false;
    }
    let has_frac = p < len && s.get_char(p) == '.';
    let mut q = p;
    if has_frac {
        let n2 = digit_run_at(s, p + 1);
        if n2 == 0 {
            return false;
        }
        q = p + 1 + n2;
    }
    let has_exp = q < len && (s.get_char(q) == 'e' || s.get_char(q) == 'E');
    let mut end = q;
    if has_exp {
        let b = if q + 1 < len && (s.get_char(q + 1) == '+' || s.get_char(q + 1) == '-') { q + 2 } else { q + 1 };
        let n3 = digit_run_at(s, b);
        if n3 == 0 {
            return false;
        }
        end = b + n3;
    }
    end == len
}

/// A finite number as Rust's float syntax writes it: an optional sign; digits
/// with an optional decimal point anywhere among them, at least one digit in
/// all; an optional exponent of `e` or `E`, an optional sign and one or more
/// digits (`+5`, `.5`, `5.`, `1e5`, `-2.5E-7`).
pub open spec fn is_float_text(s: Seq<char>) -> bool {
    let a: int = if s.len() > 0 && (s[0] == '-' || s[0] == '+') { 1 } else { 0 };
    let n1 = digit_run(s, a);
    let p = a + n1;
    let has_dot = p < s.len() && s[p] == '.';
    let n2: int = if has_dot { digit_run(s, p + 1) as int } else { 0 };
    let q = if has_dot { p + 1 + n2 } else { p };
    let has_exp = q < s.len() && (s[q] == 'e' || s[q] == 'E');
    let b = if has_exp && q + 1 < s.len() && (s[q + 1] == '+' || s[q + 1] == '-') { q + 2 } else { q + 1 };
    let n3: int = if has_exp { digit_run(s, b) as int } else { 0 };
    let end = if has_exp { b + n3 } else { q };
    n1 + n2 >= 1 && (!has_exp || n3 >= 1) && end == s.len()
}

/// Whether `s` writes a finite number in Rust's float syntax.
pub fn is_float_text_str(s: &str) -> (r: bool)
    ensures
        r == is_float_text(s@),
{
    let len = s.unicode_len();
    let a: usize = if len > 0 && (s.get_char(0) == '-' || s.get_char(0) == '+') { 1 } else { 0 };
    let n1 = digit_run_at(s, a);
    let p = a + n1;
    let has_dot = p < len && s.get_char(p) == '.';
    let mut n2: usize = 0;
    let mut q = p;
    if has_dot {
        n2 = digit_run_at(s, p + 1);
        q = p + 1 + n2;
    }
    if n1 == 0 && n2 == 0 {
        return false;
    }
    let has_exp = q < len && (s.get_char(q) == 'e' || s.get_char(q) == 'E');
    let mut end = q;
    if has_exp {
        let b = if q + 1 < len && (s.get_char(q + 1) == '+' || s.get_char(q + 1) == '-') { q + 2 } else { q + 1 };
        let n3 = digit_run_at(s, b);
        if n3 == 0 {
            return false;
        }
        end = b + n3;
    }
    end == len
}

/// Text that a numeric field accepts: a number in Rust's float syntax, or a
/// number in JSON's grammar.
pub open spec fn is_number_text(s: Seq<char>) -> bool {
    is_float_text(s) || is_json_number(s)
}

/// A floating-point field: either not-a-number, which stands for a side of the
/// book with no resting order, or a number kept as the text that wrote
/// it, so that no precision is lost before the caller converts it.
#[derive(Debug, Clone)]
pub enum Float {
    NaN,
    Decimal(String),
}

impl View for Float {
    /// `None` for not-a-number, else the text of the number.
    type V = Option<Seq<char>>;

    open spec fn view(&self) -> Option<Seq<char>> {
        match self {
            Float::NaN => None,
            Float::Decimal(s) => Some(s@),
        }
    }
}

impl Float {
    /// Whether the value is not-a-number.
    pub fn is_nan(&self) -> (r: bool)
        ensures
            r == (self@ is None),
    {
        match self {
            Float::NaN => true,
            Float::Decimal(_) => false,
        }
    }

    /// The text of a number; `None` for not-a-number.
    pub fn as_decimal(&self) -> (r: Option<&str>)
        ensures
            match r {
                Some(t) => self@ == Some(t@),
                None => self@ is None,
            },
    {
        match self {
            Float::NaN => None,
            Float::Decimal(s) => Some(s.as_str()),
        }
    }
}

impl PartialEq for Float {
    /// Floating-point equality: not-a-number equals nothing, itself included;
    /// two numbers are equal when they are written alike.
    fn eq(&self, other: &Float) -> (r: bool) {
        match (self, other) {
            (Float::Decimal(a), Float::Decimal(b)) => str_eq(a.as_str(), b.as_str()),
            _ => false,
        }
    }
}

impl vstd::std_specs::cmp::PartialEqSpecImpl for Float {
    open spec fn obeys_eq_spec() -> bool {
        true
    }

    open spec fn eq_spec(&self, other: &Float) -> bool {
        self@ is Some && self@ == other@
    }
}

/// Whether `s` writes a decimal number.
pub fn is_decimal_str(s: &str) -> (r: bool)
    ensures
        r == is_decimal(s@),
{
    let n = s.unicode_len();
    if n == 0 {
        return false;
    }
    let start: usize = if s.get_char(0) == '-' { 1 } else { 0 };
    if start >= n {
        return false;
    }
    let ghost t = if s@[0] == '-' { s@.drop_first() } else { s@ };
    assert(forall|k: int| 0 <= k < t.len() ==> t[k] == s@[k + start]);
    assert(t.len() == n - start);
    assert(is_decimal(s@) == is_unsigned_decimal(t));
    let mut seen_dot = false;
    let mut i: usize = start;
    while i < n
        invariant
            n == s@.len(),
            start <= i <= n,
            t.len() == n - start,
            is_decimal(s@) == is_unsigned_decimal(t),
            forall|k: int| 0 <= k < t.len() ==> t[k] == s@[k + start],
            forall|k: int| start <= k < i ==> is_digit(#[trigger] s@[k]) || s@[k] == '.',
            forall|k: int, l: int|
                start <= k < i && start <= l < i && #[trigger] s@[k] == '.' && #[trigger] s@[l] == '.'
                    ==> k == l,
            seen_dot == exists|k: int| start <= k < i && s@[k] == '.',
        decreases n - i,
    {
        let c = s.get_char(i);
        if c == '.' {
            if seen_dot {
                let ghost k = choose|k: int| start <= k < i && s@[k] == '.';
                assert(t[k - start] == '.' && t[i - start] == '.');
                return false;
            }
            seen_dot = true;
        } else if !('0' <= c && c <= '9') {
            assert(!(is_digit(t[i - start]) || t[i - start] == '.'));
            return false;
        }
        i = i + 1;
    }
    let first = s.get_char(start);
    let last = s.get_char(n - 1);
    assert(t[0] == first && t.last() == last);
    assert forall|k: int, l: int|
        0 <= k < t.len() && 0 <= l < t.len() && #[trigger] t[k] == '.' && #[trigger] t[l] == '.'
        implies k == l by {
        assert(s@[k + start] == '.' && s@[l + start] == '.');
    }
    assert forall|k: int| 0 <= k < t.len() implies is_digit(#[trigger] t[k]) || t[k] == '.' by {
        assert(is_digit(s@[k + start]) || s@[k + start] == '.');
    }
    '0' <= first && first <= '9' && '0' <= last && last <= '9'
}

/// A prefix of a string of digits writes no larger a number than the whole.
proof fn lemma_digits_prefix_le(s: Seq<char>, k: int)
    requires
        is_digits(s),
        0 <= k <= s.len(),
    ensures
        digits_value(s.subrange(0, k)) <= digits_value(s),
    decreases s.len(),
{
    if k < s.len() {
        let p = s.drop_last();
        if p.len() > 0 {
            assert(is_digits(p));
            lemma_digits_prefix_le(p, k);
            assert(p.subrange(0, k) =~= s.subrange(0, k));
        } else {
            assert(s.subrange(0, k) =~= Seq::<char>::empty());
        }
    } else {
        assert(s.subrange(0, k) =~= s);
    }
}

/// The unsigned 64-bit integer written in decimal digits by `s`, where there
/// is one.
pub open spec fn spec_parse_u64(s: Seq<char>) -> Option<u64> {
    if is_digits(s) && digits_value(s) <= u64::MAX {
        Some(digits_value(s) as u64)
    } else {
        None
    }
}

/// Reads a string of decimal digits as an unsigned 64-bit integer; `None` for
/// anything else and for a number too large for 64 bits.
pub fn parse_u64(s: &str) -> (r: Option<u64>)
    ensures
        r == spec_parse_u64(s@),
{
    let n = s.unicode_len();
    if n == 0 {
        return None;
    }
    let mut acc: u64 = 0;
    let mut i: usize = 0;
    while i < n
        invariant
            n == s@.len(),
            0 < n,
            i <= n,
            forall|k: int| 0 <= k < i ==> is_digit(#[trigger] s@[k]),
            acc == digits_value(s@.subrange(0, i as int)),
        decreases n - i,
    {
        let c = s.get_char(i);
        if !('0' <= c && c <= '9') {
            assert(!is_digit(s@[i as int]));
            return None;
        }
        let d = (c as u32 - '0' as u32) as u64;
        let ghost next = s@.subrange(0, i + 1);
        assert(next.drop_last() =~= s@.subrange(0, i as int));
        assert(digits_value(next) == digits_value(s@.subrange(0, i as int)) * 10 + d);
        if acc > (u64::MAX - d) / 10 {
            proof {
                if is_digits(s@) {
                    lemma_digits_prefix_le(s@, i + 1);
                }
            }
            return None;
        }
        acc = acc * 10 + d;
        i = i + 1;
    }
    assert(s@.subrange(0, n as int) =~= s@);
    Some(acc)
}

/// What reading `value` as the floating-point field `field` gives: a missing
/// member, and a member that is neither a string nor a number, is an error;
/// null stands for not-a-number only where `allow_null` admits it; a string
/// must write a finite number in Rust's float syntax, and a number is taken as
/// JSON wrote it; either way the text is kept.
pub open spec fn spec_coerce_float(value: Option<JsonValue>, field: Seq<char>, allow_null: bool) -> Result<
    Option<Seq<char>>,
    DecodeErrorModel,
> {
    match value {
        None => Err(DecodeErrorModel::MissingField { field }),
        Some(JsonValue::Null) => if allow_null {
            Ok(None)
        } else {
            Err(DecodeErrorModel::TypeMismatch { field, expected: "string"@, actual: "null"@ })
        },
        Some(JsonValue::Str(s)) => if is_float_text(s@) {
            Ok(Some(s@))
        } else {
            Err(DecodeErrorModel::InvalidNumber { field, raw: s@ })
        },
        Some(JsonValue::Number(s)) => if is_json_number(s@) {
            Ok(Some(s@))
        } else {
            Err(DecodeErrorModel::InvalidNumber { field, raw: s@ })
        },
        Some(v) => Err(DecodeErrorModel::TypeMismatch { field, expected: "string"@, actual: v.spec_kind() }),
    }
}

/// What reading `value` as the unsigned integer field `field` gives: a string
/// or a number must be written in decimal digits and fit in 64 bits.
pub open spec fn spec_coerce_uint(value: Option<JsonValue>, field: Seq<char>) -> Result<u64, DecodeErrorModel> {
    match value {
        None => Err(DecodeErrorModel::MissingField { field }),
        Some(JsonValue::Str(s)) => match spec_parse_u64(s@) {
            Some(n) => Ok(n),
            None => Err(DecodeErrorModel::InvalidNumber { field, raw: s@ }),
        },
        Some(JsonValue::Number(s)) => match spec_parse_u64(s@) {
            Some(n) => Ok(n),
            None => Err(DecodeErrorModel::InvalidNumber { field, raw: s@ }),
        },
        Some(v) => Err(DecodeErrorModel::TypeMismatch { field, expected: "integer"@, actual: v.spec_kind() }),
    }
}

fn type_mismatch(field: &str, expected: &str, value: &JsonValue) -> (e: DecodeError)
    ensures
        e@ == (DecodeErrorModel::TypeMismatch { field: field@, expected: expected@, actual: value.spec_kind() }),
{
    DecodeError::TypeMismatch { field: owned(field), expected: owned(expected), actual: value.kind() }
}

/// Reads a floating-point field. Null is not-a-number where `allow_null` is
/// set, and a type error otherwise.
pub fn coerce_float(value: Option<&JsonValue>, field: &str, allow_null: bool) -> (r: Result<Float, DecodeError>)
    ensures
        crate::error::view_result(r) == spec_coerce_float(
            match value { Some(v) => Some(*v), None => None },
            field@,
            allow_null,
        ),
{
    match value {
        None => Err(DecodeError::MissingField { field: owned(field) }),
        Some(JsonValue::Null) => if allow_null {
            Ok(Float::NaN)
        } else {
            Err(type_mismatch(field, "string", &JsonValue::Null))
        },
        Some(JsonValue::Str(s)) => if is_float_text_str(s.as_str()) {
            Ok(Float::Decimal(s.clone()))
        } else {
            Err(DecodeError::InvalidNumber { field: owned(field), raw: s.clone() })
        },
        Some(JsonValue::Number(s)) => if is_json_number_str(s.as_str()) {
            Ok(Float::Decimal(s.clone()))
        } else {
            Err(DecodeError::InvalidNumber { field: owned(field), raw: s.clone() })
        },
        Some(v) => Err(type_mismatch(field, "string", v)),
    }
}

/// Reads an unsigned integer field, such as a timestamp in milliseconds.
pub fn coerce_uint(value: Option<&JsonValue>, field: &str) -> (r: Result<u64, DecodeError>)
    ensures
        crate::error::view_result(r) == spec_coerce_uint(
            match value { Some(v) => Some(*v), None => None },
            field@,
        ),
{
    match value {
        None => Err(DecodeError::MissingField { field: owned(field) }),
        Some(JsonValue::Str(s)) => match parse_u64(s.as_str()) {
            Some(n) => Ok(n),
            None => Err(DecodeError::InvalidNumber { field: owned(field), raw: s.clone() }),
        },
        Some(JsonValue::Number(s)) => match parse_u64(s.as_str()) {
            Some(n) => Ok(n),
            None => Err(DecodeError::InvalidNumber { field: owned(field), raw: s.clone() }),
        },
        Some(v) => Err(type_mismatch(field, "integer", v)),
    }
}

} // verus!

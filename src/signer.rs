use vstd::prelude::*;
use vstd::utf8::encode_utf8;
use crate::text::{owned, push_char};

verus! {

/// The HMAC-SHA256 tag of `message` under `key`.
pub uninterp spec fn hmac_sha256(key: Seq<u8>, message: Seq<u8>) -> Seq<u8>;

/// Relies on ring::hmac::Key::new and ring::hmac::sign with HMAC_SHA256: the
/// tag depends on the key and the message alone, and is the 32 bytes of a
/// SHA-256 output.
#[verifier::external_body]
fn hmac_sha256_tag(key: &[u8], message: &[u8]) -> (r: Vec<u8>)
    ensures
        r@ == hmac_sha256(key@, message@),
        r@.len() == 32,
{
    let key = ring::hmac::Key::new(ring::hmac::HMAC_SHA256, key);
    ring::hmac::sign(&key, message).as_ref().to_vec()
}

/// The lowercase hexadecimal digit of `d`, below 16.
pub open spec fn hex_char(d: nat) -> char {
    "0123456789abcdef"@[d as int]
}

/// Each byte as two lowercase hexadecimal digits, high nibble first, with no
/// separator.
pub open spec fn hex_of(b: Seq<u8>) -> Seq<char>
    decreases b.len(),
{
    if b.len() == 0 {
        Seq::empty()
    } else {
        hex_of(b.drop_last()) + seq![hex_char((b.last() / 16) as nat), hex_char((b.last() % 16) as nat)]
    }
}

fn hex_digit(d: u8) -> (c: char)
    requires
        d < 16,
    ensures
        c == hex_char(d as nat),
{
    let digits = "0123456789abcdef";
    proof {
        reveal_strlit("0123456789abcdef");
    }
    digits.get_char(d as usize)
}

/// Renders bytes as lowercase hexadecimal, two digits per byte.
pub fn u8_to_string(input: &[u8]) -> (r: String)
    ensures
        r@ == hex_of(input@),
        r@.len() == 2 * input@.len(),
{
    let mut s = String::new();
    let n = input.len();
    let mut i: usize = 0;
    assert(input@.subrange(0, 0) =~= Seq::<u8>::empty());
    while i < n
        invariant
            n == input@.len(),
            i <= n,
            s@ == hex_of(input@.subrange(0, i as int)),
            s@.len() == 2 * i,
        decreases n - i,
    {
        let b = input[i];
        let ghost before = s@;
        push_char(&mut s, hex_digit(b / 16));
        push_char(&mut s, hex_digit(b % 16));
        let ghost next = input@.subrange(0, i + 1);
        assert(next.drop_last() =~= input@.subrange(0, i as int));
        assert(s@ =~= hex_of(next));
        i = i + 1;
    }
    assert(input@.subrange(0, n as int) =~= input@);
    s
}

/// The decimal digit of `d`, below 10.
pub open spec fn digit_char(d: nat) -> char {
    "0123456789"@[d as int]
}

/// The decimal form of `n`, with no sign and no leading zero.
pub open spec fn decimal_of(n: nat) -> Seq<char>
    decreases n,
{
    if n < 10 {
        seq![digit_char(n)]
    } else {
        decimal_of(n / 10).push(digit_char(n % 10))
    }
}

/// Writes `n` in decimal.
pub fn decimal_string(n: u128) -> (r: String)
    ensures
        r@ == decimal_of(n as nat),
    decreases n,
{
    let digits = "0123456789";
    proof {
        reveal_strlit("0123456789");
    }
    if n < 10 {
        let mut s = String::new();
        push_char(&mut s, digits.get_char(n as usize));
        assert(s@ =~= seq![digit_char(n as nat)]);
        s
    } else {
        let mut s = decimal_string(n / 10);
        push_char(&mut s, digits.get_char((n % 10) as usize));
        s
    }
}

/// The message that a private request is signed over: the nonce's decimal
/// text immediately followed by the body, byte for byte.
pub open spec fn canonical_message(nonce: Seq<char>, body: Seq<char>) -> Seq<u8> {
    encode_utf8(nonce) + encode_utf8(body)
}

/// The signature of a private request: the HMAC-SHA256 of the canonical
/// message under the secret, in lowercase hexadecimal.
pub open spec fn spec_signature(secret: Seq<char>, nonce: Seq<char>, body: Seq<char>) -> Seq<char> {
    hex_of(hmac_sha256(encode_utf8(secret), canonical_message(nonce, body)))
}

/// Signs the request body `body` sent with the nonce written `nonce`.
pub fn sign(secret: &str, nonce: &str, body: &str) -> (r: String)
    ensures
        r@ == spec_signature(secret@, nonce@, body@),
        r@.len() == 64,
{
    let mut message = vstd::slice::slice_to_vec(nonce.as_bytes());
    let mut rest = vstd::slice::slice_to_vec(body.as_bytes());
    message.append(&mut rest);
    let tag = hmac_sha256_tag(secret.as_bytes(), message.as_slice());
    u8_to_string(tag.as_slice())
}

/// Relies on std::time::SystemTime::now and SystemTime::duration_since with
/// UNIX_EPOCH: the wall clock in whole milliseconds since the Unix epoch, or
/// `None` where the clock is set before it. Nothing is known of the value.
#[verifier::external_body]
fn unix_time_millis() -> (r: Option<u128>) {
    match std::time::SystemTime::now().duration_since(std::time::UNIX_EPOCH) {
        Ok(d) => Some(d.as_millis()),
        Err(_) => None,
    }
}

/// The nonce issued after `last` when the clock reads `millis`: the clock in
/// milliseconds times 1000, raised where needed to stay above `last`.
pub open spec fn spec_next_nonce(last: u128, millis: u128) -> int {
    if millis * 1000 > last {
        millis * 1000
    } else {
        last + 1
    }
}

/// Issues the nonces of one credential, each larger than the one before,
/// whatever the clock does between calls.
#[derive(Debug)]
pub struct NonceCounter {
    last: u128,
}

impl NonceCounter {
    /// The last nonce issued; 0 before the first.
    pub closed spec fn last_issued(&self) -> u128 {
        self.last
    }

    pub fn new() -> (r: NonceCounter)
        ensures
            r.last_issued() == 0,
    {
        NonceCounter { last: 0 }
    }

    /// The next nonce for the clock reading `millis`, in milliseconds since
    /// the Unix epoch. `None`, with the counter unchanged, only where the nonce
    /// would not fit in 128 bits.
    pub fn next_nonce(&mut self, millis: u128) -> (r: Option<u128>)
        ensures
            match r {
                Some(n) => {
                    &&& n == spec_next_nonce(old(self).last_issued(), millis)
                    &&& n > old(self).last_issued()
                    &&& n >= millis * 1000
                    &&& final(self).last_issued() == n
                },
                None => {
                    &&& millis * 1000 > u128::MAX || old(self).last_issued() == u128::MAX
                    &&& final(self).last_issued() == old(self).last_issued()
                },
            },
    {
        if millis > u128::MAX / 1000 || self.last == u128::MAX {
            return None;
        }
        let scaled = millis * 1000;
        let n = if scaled > self.last { scaled } else { self.last + 1 };
        self.last = n;
        Some(n)
    }
}

/// Two nonces issued one after the other by the same counter increase,
/// whatever the two clock readings were.
pub proof fn law_nonces_increase(last: u128, first_millis: u128, second_millis: u128)
    requires
        spec_next_nonce(last, first_millis) <= u128::MAX,
    ensures
        spec_next_nonce(spec_next_nonce(last, first_millis) as u128, second_millis) > spec_next_nonce(
            last,
            first_millis,
        ),
{
}

/// Reads the clock and issues the next nonce of `counter`, in decimal. `None`,
/// with the counter unchanged, where the clock cannot be read or the nonce
/// would not fit.
pub fn gen_nonce(counter: &mut NonceCounter) -> (r: Option<String>)
    ensures
        match r {
            Some(s) => {
                &&& final(counter).last_issued() > old(counter).last_issued()
                &&& s@ == decimal_of(final(counter).last_issued() as nat)
            },
            None => final(counter).last_issued() == old(counter).last_issued(),
        },
{
    let millis = unix_time_millis()?;
    let n = counter.next_nonce(millis)?;
    Some(decimal_string(n))
}

/// The credentials part of a private request's headers.
#[derive(Debug, Clone)]
pub struct AuthHeaders {
    pub access_key: String,
    pub access_nonce: String,
    pub access_signature: String,
}

impl AuthHeaders {
    /// The header lines of a private request, as name and value: the content
    /// type, then the key, the nonce and the signature.
    pub fn to_vec(&self) -> (r: Vec<(String, String)>)
        ensures
            r@.len() == 4,
            r@[0].0@ == "Content-Type"@ && r@[0].1@ == "application/json"@,
            r@[1].0@ == "ACCESS-KEY"@ && r@[1].1@ == self.access_key@,
            r@[2].0@ == "ACCESS-NONCE"@ && r@[2].1@ == self.access_nonce@,
            r@[3].0@ == "ACCESS-SIGNATURE"@ && r@[3].1@ == self.access_signature@,
    {
        let mut r: Vec<(String, String)> = Vec::new();
        r.push((owned("Content-Type"), owned("application/json")));
        r.push((owned("ACCESS-KEY"), self.access_key.clone()));
        r.push((owned("ACCESS-NONCE"), self.access_nonce.clone()));
        r.push((owned("ACCESS-SIGNATURE"), self.access_signature.clone()));
        r
    }
}

} // verus!

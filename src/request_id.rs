//! Identifiers that tag a request in the in-flight set and in the log.
use vstd::prelude::*;

verus! {

/// Smallest request number drawn.
pub const REQUEST_NUMBER_MIN: u64 = 100000;

/// Request numbers are drawn below this bound.
pub const REQUEST_NUMBER_END: u64 = 999999;

/// The decimal digit for `d`, which is below ten.
pub open spec fn digit_char(d: nat) -> char {
    if d == 0 { '0' }
    else if d == 1 { '1' }
    else if d == 2 { '2' }
    else if d == 3 { '3' }
    else if d == 4 { '4' }
    else if d == 5 { '5' }
    else if d == 6 { '6' }
    else if d == 7 { '7' }
    else if d == 8 { '8' }
    else { '9' }
}

/// The decimal numeral of `n`, without leading zeros.
pub open spec fn decimal(n: nat) -> Seq<char>
    decreases n,
{
    if n < 10 {
        seq![digit_char(n)]
    } else {
        decimal(n / 10) + seq![digit_char(n % 10)]
    }
}

/// The label of request number `n`: `req-` and its decimal numeral.
pub open spec fn label_of(n: u64) -> Seq<char> {
    "req-"@ + decimal(n as nat)
}

/// Relies on rand's `thread_rng` and `Rng::gen_range`: a value in `[low, high)`,
/// which panics only on an empty range.
#[verifier::external_body]
fn random_below(low: u64, high: u64) -> (r: u64)
    requires
        low < high,
    ensures
        low <= r < high,
{
    rand::Rng::gen_range(&mut rand::thread_rng(), low..high)
}

fn digit_str(d: u64) -> (r: &'static str)
    requires
        d < 10,
    ensures
        r@ == seq![digit_char(d as nat)],
{
    proof {
        reveal_strlit("0");
        reveal_strlit("1");
        reveal_strlit("2");
        reveal_strlit("3");
        reveal_strlit("4");
        reveal_strlit("5");
        reveal_strlit("6");
        reveal_strlit("7");
        reveal_strlit("8");
        reveal_strlit("9");
    }
    if d == 0 { "0" }
    else if d == 1 { "1" }
    else if d == 2 { "2" }
    else if d == 3 { "3" }
    else if d == 4 { "4" }
    else if d == 5 { "5" }
    else if d == 6 { "6" }
    else if d == 7 { "7" }
    else if d == 8 { "8" }
    else {
        assert(seq!['9'] =~= "9"@);
        "9"
    }
}

fn append_decimal(s: &mut String, n: u64)
    ensures
        final(s)@ == old(s)@ + decimal(n as nat),
    decreases n,
{
    if n >= 10 {
        append_decimal(s, n / 10);
    }
    s.append(digit_str(n % 10));
    assert(final(s)@ =~= old(s)@ + decimal(n as nat)) by {
        if n >= 10 {
            assert(decimal(n as nat) == decimal((n / 10) as nat) + seq![digit_char((n % 10) as nat)]);
        }
    }
}

/// The label of request number `n`.
pub fn request_label(n: u64) -> (r: String)
    ensures
        r@ == label_of(n),
{
    let mut r = String::from_str("req-");
    append_decimal(&mut r, n);
    r
}

/// Draws a request number at random.
pub fn draw_request_number() -> (r: u64)
    ensures
        REQUEST_NUMBER_MIN <= r < REQUEST_NUMBER_END,
{
    random_below(REQUEST_NUMBER_MIN, REQUEST_NUMBER_END)
}

/// A fresh request label, drawn at random.
pub fn generate_request_id() -> (r: String)
    ensures
        exists|n: u64| REQUEST_NUMBER_MIN <= n < REQUEST_NUMBER_END && r@ == label_of(n),
{
    let n = draw_request_number();
    request_label(n)
}

} // verus!

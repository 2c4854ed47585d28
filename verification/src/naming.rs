//! Timestamp-based names: reading the clock (trusted), and rendering
//! integers as decimal text (verified), so that fallback file names such as
//! `audio_<seconds>` can be derived with an exact contract.

use vstd::prelude::*;
use vstd::string::*;
use std::time::{SystemTime, UNIX_EPOCH};
use crate::strutil::push_char;

verus! {

/// Relies on `std::time::SystemTime::now`: seconds of the current time since
/// the Unix epoch, or 0 when the clock reads earlier than the epoch.  The
/// result depends on the clock, so nothing is promised of it.
#[verifier::external_body]
fn now_unix_secs() -> u64 {
    SystemTime::now().duration_since(UNIX_EPOCH).map(|d| d.as_secs()).unwrap_or(0)
}

pub open spec fn digit_char(d: int) -> char {
    if d == 0 {
        '0'
    } else if d == 1 {
        '1'
    } else if d == 2 {
        '2'
    } else if d == 3 {
        '3'
    } else if d == 4 {
        '4'
    } else if d == 5 {
        '5'
    } else if d == 6 {
        '6'
    } else if d == 7 {
        '7'
    } else if d == 8 {
        '8'
    } else {
        '9'
    }
}

/// The decimal digits of `n`, most significant first, with no leading zero
/// except for `n == 0` itself.
pub open spec fn dec_rep(n: nat) -> Seq<char>
    decreases n,
{
    if n < 10 {
        seq![digit_char(n as int)]
    } else {
        dec_rep(n / 10) + seq![digit_char((n % 10) as int)]
    }
}

fn digit_char_exec(d: u64) -> (r: char)
    requires
        d < 10,
    ensures
        r == digit_char(d as int),
{
    if d == 0 {
        '0'
    } else if d == 1 {
        '1'
    } else if d == 2 {
        '2'
    } else if d == 3 {
        '3'
    } else if d == 4 {
        '4'
    } else if d == 5 {
        '5'
    } else if d == 6 {
        '6'
    } else if d == 7 {
        '7'
    } else if d == 8 {
        '8'
    } else {
        '9'
    }
}

/// Renders an unsigned integer as decimal text.
pub fn u64_to_decimal(n: u64) -> (r: String)
    ensures
        r@ == dec_rep(n as nat),
{
    if n == 0 {
        let mut zero = String::new();
        push_char(&mut zero, '0');
        proof {
            assert(zero@ =~= dec_rep(0));
        }
        return zero;
    }
    let mut m: u64 = n;
    let mut digits: Vec<char> = Vec::new();
    while m > 0
        invariant
            m > 0 ==> dec_rep(n as nat) =~= dec_rep(m as nat) + digits@.reverse(),
            m == 0 ==> dec_rep(n as nat) =~= digits@.reverse(),
        decreases m,
    {
        let d = m % 10;
        let ghost old_digits = digits@;
        let ghost old_m = m;
        digits.push(digit_char_exec(d));
        m = m / 10;
        proof {
            assert(digits@.reverse() =~= seq![digit_char(d as int)] + old_digits.reverse());
            if old_m >= 10 {
                assert(dec_rep(old_m as nat) == dec_rep((old_m / 10) as nat) + seq![
                    digit_char((old_m % 10) as int),
                ]);
                assert(dec_rep(n as nat) =~= dec_rep(m as nat) + digits@.reverse());
            } else {
                assert(dec_rep(old_m as nat) == seq![digit_char(old_m as int)]);
                assert(m == 0);
                assert(dec_rep(n as nat) =~= digits@.reverse());
            }
        }
    }
    let len = digits.len();
    let mut out = String::new();
    let mut j: usize = len;
    while j > 0
        invariant
            j <= len,
            len == digits@.len(),
            dec_rep(n as nat) == digits@.reverse(),
            out@.len() == len - j,
            forall|k: int| 0 <= k < out@.len() ==> out@[k] == digits@[len - 1 - k],
        decreases j,
    {
        j -= 1;
        let c = digits[j];
        crate::strutil::push_char(&mut out, c);
    }
    proof {
        assert(out@ =~= digits@.reverse());
    }
    out
}

/// A file-name-safe timestamp: the clock's current Unix-epoch seconds as
/// decimal text, so the result is always one or more ASCII digits.
pub fn get_safe_timestamp() -> (r: String)
    ensures
        exists|n: nat| r@ == dec_rep(n),
{
    let secs = now_unix_secs();
    let r = u64_to_decimal(secs);
    proof {
        assert(r@ == dec_rep(secs as nat));
    }
    r
}

/// Law: a decimal rendering is never empty and holds only digit characters.
pub proof fn lemma_dec_rep_digits(n: nat)
    ensures
        dec_rep(n).len() > 0,
        forall|i: int|
            0 <= i < dec_rep(n).len() ==> '0' <= #[trigger] dec_rep(n)[i] <= '9',
    decreases n,
{
    if n >= 10 {
        lemma_dec_rep_digits(n / 10);
    }
}

} // verus!

//! Decimal rendering of native-token amounts.
//!
//! Balances travel as an integer number of lamports; the tools print them as
//! SOL, a billion lamports each, with the token sign and exactly nine
//! fractional digits.

use vstd::prelude::*;
use vstd::string::StrSliceExecFns;
use vstd::string::StringExecFns;

verus! {

/// One SOL is this many lamports.
pub const LAMPORTS_PER_SOL: u64 = 1_000_000_000;

/// The decimal digit `d` as a character.
pub open spec fn digit_char(d: nat) -> char {
    if d == 0 {
        '0'
    } else if d == 1 {
        '1'
    } else if d == 2 {
        '2'
    } else if d == 3 {
        '3'
    } else if d == 4 {
        '4'
    } else if d == 5 {
        '5'
    } else if d == 6 {
        '6'
    } else if d == 7 {
        '7'
    } else if d == 8 {
        '8'
    } else {
        '9'
    }
}

/// The decimal digits of `n`, most significant first, no leading zero
/// except for `n == 0` itself.
pub open spec fn dec_digits(n: nat) -> Seq<char>
    decreases n,
{
    if n < 10 {
        seq![digit_char(n)]
    } else {
        dec_digits(n / 10).push(digit_char(n % 10))
    }
}

/// `n` zero characters.
pub open spec fn zeros(n: nat) -> Seq<char>
    decreases n,
{
    if n == 0 {
        Seq::empty()
    } else {
        seq!['0'] + zeros((n - 1) as nat)
    }
}

/// `s` preceded by as many zeros as it takes to reach length `w`.
pub open spec fn left_pad(s: Seq<char>, w: nat) -> Seq<char> {
    if s.len() >= w {
        s
    } else {
        zeros((w - s.len()) as nat) + s
    }
}

/// The text the tools print for a balance of `lamports`: the token sign,
/// the whole SOL, a point, and the lamport remainder padded to nine digits.
pub open spec fn sol_text(lamports: u64) -> Seq<char> {
    "◎"@ + dec_digits((lamports / LAMPORTS_PER_SOL) as nat) + "."@ + left_pad(
        dec_digits((lamports % LAMPORTS_PER_SOL) as nat),
        9,
    )
}

/// Appends the single digit `d` to `r`.
fn append_digit(r: &mut String, d: u64)
    requires
        d < 10,
    ensures
        final(r)@ == old(r)@.push(digit_char(d as nat)),
{
    if d == 0 {
        r.append("0");
    } else if d == 1 {
        r.append("1");
    } else if d == 2 {
        r.append("2");
    } else if d == 3 {
        r.append("3");
    } else if d == 4 {
        r.append("4");
    } else if d == 5 {
        r.append("5");
    } else if d == 6 {
        r.append("6");
    } else if d == 7 {
        r.append("7");
    } else if d == 8 {
        r.append("8");
    } else {
        r.append("9");
    }
    proof {
        reveal_strlit("0");
        reveal_strlit("1");
        reveal_strlit("2");
        reveal_strlit("3");
        reveal_strlit("4");
        reveal_strlit("5");
        reveal_strlit("6");
        reveal_strlit("7");
        reveal_strlit("8");
        reveal_strlit("9");
        assert(r@ =~= old(r)@.push(digit_char(d as nat)));
    }
}

/// Renders `n` in decimal.
pub fn u64_to_dec(n: u64) -> (r: String)
    ensures
        r@ == dec_digits(n as nat),
    decreases n,
{
    if n < 10 {
        let mut r = String::new();
        append_digit(&mut r, n);
        proof {
            assert(r@ =~= dec_digits(n as nat));
        }
        r
    } else {
        let mut r = u64_to_dec(n / 10);
        append_digit(&mut r, n % 10);
        proof {
            assert(r@ =~= dec_digits(n as nat));
        }
        r
    }
}

/// Renders `n` in decimal, left-padded with zeros to at least nine digits.
pub fn dec_padded9(n: u64) -> (r: String)
    ensures
        r@ == left_pad(dec_digits(n as nat), 9),
{
    let mut r = u64_to_dec(n);
    let mut len: usize = r.as_str().unicode_len();
    while len < 9
        invariant
            len == r@.len(),
            r@.len() >= dec_digits(n as nat).len(),
            dec_digits(n as nat).len() < 9 ==> len <= 9,
            dec_digits(n as nat).len() >= 9 ==> len == dec_digits(n as nat).len(),
            r@ == zeros((r@.len() - dec_digits(n as nat).len()) as nat) + dec_digits(n as nat),
        decreases 9 - len,
    {
        let padded = String::from_str("0").concat(r.as_str());
        proof {
            reveal_strlit("0");
            assert(padded@ =~= zeros((r@.len() + 1 - dec_digits(n as nat).len()) as nat)
                + dec_digits(n as nat));
        }
        r = padded;
        len = len + 1;
    }
    proof {
        assert(r@ =~= left_pad(dec_digits(n as nat), 9));
    }
    r
}

/// Renders `lamports` as the printed SOL amount.
pub fn format_sol(lamports: u64) -> (r: String)
    ensures
        r@ == sol_text(lamports),
{
    let mut r = String::from_str("◎");
    let whole = u64_to_dec(lamports / LAMPORTS_PER_SOL);
    r.append(whole.as_str());
    r.append(".");
    let frac = dec_padded9(lamports % LAMPORTS_PER_SOL);
    r.append(frac.as_str());
    proof {
        assert(r@ =~= sol_text(lamports));
    }
    r
}

} // verus!

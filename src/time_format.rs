use vstd::prelude::*;
use vstd::string::StringExecFns;
use vstd::arithmetic::div_mod::{lemma_fundamental_div_mod, lemma_fundamental_div_mod_converse};

verus! {

/// Quotient of `a / b` rounded toward zero, as Rust's `/` computes it.
pub open spec fn div_toward_zero(a: int, b: int) -> int {
    if a >= 0 { a / b } else { -((-a) / b) }
}

/// Remainder that goes with `div_toward_zero`; it takes the sign of `a`.
pub open spec fn rem_toward_zero(a: int, b: int) -> int {
    a - b * div_toward_zero(a, b)
}

/// `x` taken modulo 2^32, the value that `as u32` keeps of it.
pub open spec fn wrap_u32(x: int) -> int {
    x % 0x1_0000_0000
}

/// Rust's remainder by 2^32, moved into range, is `x` modulo 2^32.
proof fn lemma_wrap_of_rem(x: int)
    ensures
        wrap_u32(x) == (if rem_toward_zero(x, 0x1_0000_0000) < 0 {
            rem_toward_zero(x, 0x1_0000_0000) + 0x1_0000_0000
        } else {
            rem_toward_zero(x, 0x1_0000_0000)
        }),
{
    let m: int = 0x1_0000_0000;
    let t = rem_toward_zero(x, m);
    let q = div_toward_zero(x, m);
    lemma_fundamental_div_mod(x, m);
    lemma_fundamental_div_mod(-x, m);
    assert(x == q * m + t) by (nonlinear_arith)
        requires
            t == x - m * q,
    ;
    if x >= 0 {
        assert(t == x % m);
    } else {
        assert(t == -((-x) % m));
    }
    if t < 0 {
        assert(x == (q - 1) * m + (t + m)) by (nonlinear_arith)
            requires
                x == q * m + t,
        ;
        lemma_fundamental_div_mod_converse(x, m, q - 1, t + m);
    } else {
        lemma_fundamental_div_mod_converse(x, m, q, t);
    }
}

/// Splits a number of seconds into whole minutes and the remaining seconds,
/// both rounded toward zero. Each part is narrowed to `u32` as `as` does, so
/// a negative part wraps around: -1 second gives (0, 4294967295).
pub fn translate_time(time: i64) -> (r: (u32, u32))
    ensures
        r.0 == wrap_u32(div_toward_zero(time as int, 60)),
        r.1 == wrap_u32(rem_toward_zero(time as int, 60)),
        0 <= time ==> r.1 < 60,
        0 <= time < 60 * 0x1_0000_0000 ==> r.0 == time / 60,
{
    let min = time / 60;
    let sec = time % 60;
    let low = min % 0x1_0000_0000;
    assert(min == div_toward_zero(time as int, 60));
    assert(sec == rem_toward_zero(time as int, 60));
    assert(low == rem_toward_zero(min as int, 0x1_0000_0000));
    let wrapped_min = if low < 0 { low + 0x1_0000_0000 } else { low };
    let wrapped_sec = if sec < 0 { sec + 0x1_0000_0000 } else { sec };
    proof {
        lemma_wrap_of_rem(min as int);
        if sec < 0 {
            lemma_fundamental_div_mod_converse(sec as int, 0x1_0000_0000, -1, sec + 0x1_0000_0000);
        } else {
            lemma_fundamental_div_mod_converse(sec as int, 0x1_0000_0000, 0, sec as int);
        }
    }
    (wrapped_min as u32, wrapped_sec as u32)
}

/// The decimal digit `d` as a character.
pub open spec fn digit_char(d: nat) -> char {
    if d == 0 { '0' }
    else if d == 1 { '1' }
    else if d == 2 { '2' }
    else if d == 3 { '3' }
    else if d == 4 { '4' }
    else if d == 5 { '5' }
    else if d == 6 { '6' }
    else if d == 7 { '7' }
    else if d == 8 { '8' }
    else { '9' }
}

/// The decimal notation of `n`, without leading zeros.
pub open spec fn decimal(n: nat) -> Seq<char>
    decreases n,
{
    if n < 10 {
        seq![digit_char(n)]
    } else {
        decimal(n / 10).push(digit_char(n % 10))
    }
}

/// `n` in decimal, padded with a leading zero to at least two digits.
pub open spec fn two_digits(n: nat) -> Seq<char> {
    if n < 10 { seq!['0'] + decimal(n) } else { decimal(n) }
}

/// The clock text `mm:ss` for the given minutes and seconds.
pub open spec fn clock_text(min: nat, sec: nat) -> Seq<char> {
    two_digits(min) + seq![':'] + two_digits(sec)
}

fn digit_str(d: u32) -> (r: &'static str)
    requires
        d < 10,
    ensures
        r@ == seq![digit_char(d as nat)],
{
    proof {
        reveal_strlit("0");
        reveal_strlit("1");
        reveal_strlit("2");
        reveal_strlit("3");
        reveal_strlit("4");
        reveal_strlit("5");
        reveal_strlit("6");
        reveal_strlit("7");
        reveal_strlit("8");
        reveal_strlit("9");
    }
    if d == 0 { "0" }
    else if d == 1 { "1" }
    else if d == 2 { "2" }
    else if d == 3 { "3" }
    else if d == 4 { "4" }
    else if d == 5 { "5" }
    else if d == 6 { "6" }
    else if d == 7 { "7" }
    else if d == 8 { "8" }
    else { "9" }
}

pub(crate) fn append_decimal(s: &mut String, n: u32)
    ensures
        final(s)@ == old(s)@ + decimal(n as nat),
    decreases n,
{
    if n >= 10 {
        append_decimal(s, n / 10);
    }
    s.append(digit_str(n % 10));
    assert(final(s)@ =~= old(s)@ + decimal(n as nat));
}

fn append_two_digits(s: &mut String, n: u32)
    ensures
        final(s)@ == old(s)@ + two_digits(n as nat),
{
    if n < 10 {
        proof { reveal_strlit("0"); }
        s.append("0");
    }
    append_decimal(s, n);
    assert(final(s)@ =~= old(s)@ + two_digits(n as nat));
}

/// Formats minutes and seconds as `mm:ss`, each part zero-padded to two digits.
pub fn formate_time(min: u32, sec: u32) -> (r: String)
    ensures
        r@ == clock_text(min as nat, sec as nat),
{
    let mut s = String::new();
    append_two_digits(&mut s, min);
    proof { reveal_strlit(":"); }
    s.append(":");
    append_two_digits(&mut s, sec);
    assert(s@ =~= clock_text(min as nat, sec as nat));
    s
}

} // verus!

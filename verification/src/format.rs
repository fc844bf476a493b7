//! Decimal numbers and the `HH:MM:SS.mmm` rendering of a span of time.

use crate::clock;
use crate::clock::duration_nanos;
use crate::model::millis_of;
use std::time::Duration;
use vstd::prelude::*;
use vstd::string::StringExecFns;

verus! {

/// The character for one decimal digit.
pub open spec fn digit_char(d: nat) -> char {
    if d == 0 {
        '0'
    } else if d == 1 {
        '1'
    } else if d == 2 {
        '2'
    } else if d == 3 {
        '3'
    } else if d == 4 {
        '4'
    } else if d == 5 {
        '5'
    } else if d == 6 {
        '6'
    } else if d == 7 {
        '7'
    } else if d == 8 {
        '8'
    } else {
        '9'
    }
}

/// A number in decimal, without leading zeros.
pub open spec fn decimal(n: nat) -> Seq<char>
    decreases n,
{
    if n < 10 {
        seq![digit_char(n)]
    } else {
        decimal(n / 10).push(digit_char(n % 10))
    }
}

/// A run of `count` zeros.
pub open spec fn zeros(count: nat) -> Seq<char> {
    Seq::new(count, |i: int| '0')
}

/// A number in decimal, with zeros in front where it has fewer than `width`
/// digits. A longer number is not cut.
pub open spec fn zero_padded(n: nat, width: nat) -> Seq<char> {
    let digits = decimal(n);
    if digits.len() >= width {
        digits
    } else {
        zeros((width - digits.len()) as nat) + digits
    }
}

/// A span of whole milliseconds as hours, minutes, seconds and
/// milliseconds: `HH:MM:SS.mmm`. The hours take as many digits as they
/// need, and at least two.
pub open spec fn clock_text(ms: nat) -> Seq<char> {
    zero_padded(ms / 3_600_000, 2) + seq![':'] + zero_padded((ms % 3_600_000) / 60_000, 2)
        + seq![':'] + zero_padded((ms % 60_000) / 1_000, 2) + seq!['.'] + zero_padded(
        ms % 1_000,
        3,
    )
}

fn digit_str(d: u128) -> (s: &'static str)
    requires
        d < 10,
    ensures
        s@ == seq![digit_char(d as nat)],
{
    proof {
        reveal_strlit("0");
        reveal_strlit("1");
        reveal_strlit("2");
        reveal_strlit("3");
        reveal_strlit("4");
        reveal_strlit("5");
        reveal_strlit("6");
        reveal_strlit("7");
        reveal_strlit("8");
        reveal_strlit("9");
    }
    let s = if d == 0 {
        "0"
    } else if d == 1 {
        "1"
    } else if d == 2 {
        "2"
    } else if d == 3 {
        "3"
    } else if d == 4 {
        "4"
    } else if d == 5 {
        "5"
    } else if d == 6 {
        "6"
    } else if d == 7 {
        "7"
    } else if d == 8 {
        "8"
    } else {
        "9"
    };
    assert(s@ =~= seq![digit_char(d as nat)]);
    s
}

/// Appends `n` in decimal to `out`.
pub fn push_decimal(out: &mut String, n: u128)
    ensures
        final(out)@ == old(out)@ + decimal(n as nat),
    decreases n,
{
    if n >= 10 {
        push_decimal(out, n / 10);
    }
    out.append(digit_str(n % 10));
    assert(out@ =~= old(out)@ + decimal(n as nat));
}

/// `n` in decimal.
pub fn decimal_string(n: u128) -> (text: String)
    ensures
        text@ == decimal(n as nat),
{
    let mut text = String::new();
    push_decimal(&mut text, n);
    assert(text@ =~= decimal(n as nat));
    text
}

/// Ten to the power of `e`.
pub open spec fn pow10(e: nat) -> nat
    decreases e,
{
    if e == 0 {
        1
    } else {
        10 * pow10((e - 1) as nat)
    }
}

/// Powers of ten are positive, and the thirty-ninth is beyond `u128`.
proof fn lemma_pow10_grows(e: nat)
    ensures
        pow10(e) >= 1,
        e >= 39 ==> pow10(e) > u128::MAX,
    decreases e,
{
    if e > 0 {
        lemma_pow10_grows((e - 1) as nat);
    }
    if e == 39 {
        assert(pow10(39) == 1_000_000_000_000_000_000_000_000_000_000_000_000_000) by {
            reveal_with_fuel(pow10, 40);
        }
    }
}

/// Dropping a digit of `rest` makes room for one more power of ten below
/// `n`, and a `u128` has room for thirty-eight.
proof fn lemma_pow10_step(rest: nat, e: nat, n: nat)
    requires
        rest >= 10,
        rest * pow10(e) <= n,
        n <= u128::MAX,
    ensures
        (rest / 10) * pow10(e + 1) <= n,
        e + 1 < 39,
{
    lemma_pow10_grows(e + 1);
    lemma_pow10_grows(e);
    let p = pow10(e);
    assert(pow10(e + 1) == 10 * p);
    assert((rest / 10) * (10 * p) <= rest * p) by (nonlinear_arith)
        requires
            p >= 1,
    ;
    if e + 1 >= 39 {
        assert((rest / 10) * pow10(e + 1) >= pow10(e + 1)) by (nonlinear_arith)
            requires
                rest / 10 >= 1,
        ;
    }
}

/// The number of digits of `n` in decimal.
pub fn decimal_len(n: u128) -> (len: usize)
    ensures
        len == decimal(n as nat).len(),
        1 <= len <= 39,
{
    let mut rest: u128 = n;
    let mut len: usize = 1;
    proof {
        let unit = pow10(0);
        assert(unit == 1);
        assert(rest * unit == n) by (nonlinear_arith)
            requires
                unit == 1,
                rest == n,
        ;
    }
    while rest >= 10
        invariant
            1 <= len,
            decimal(n as nat).len() == decimal(rest as nat).len() + len - 1,
            rest * pow10((len - 1) as nat) <= n,
            len <= 39,
        decreases rest,
    {
        proof {
            lemma_pow10_step(rest as nat, (len - 1) as nat, n as nat);
        }
        rest = rest / 10;
        len = len + 1;
    }
    len
}

/// Appends `n` in decimal to `out`, with zeros in front up to `width`
/// digits.
pub fn push_zero_padded(out: &mut String, n: u128, width: usize)
    ensures
        final(out)@ == old(out)@ + zero_padded(n as nat, width as nat),
{
    let len = decimal_len(n);
    let mut written: usize = len;
    while written < width
        invariant
            len <= written,
            written <= width || written == len,
            out@ == old(out)@ + zeros((written - len) as nat),
        decreases width - written,
    {
        proof {
            reveal_strlit("0");
        }
        out.append("0");
        written = written + 1;
        assert(out@ =~= old(out)@ + zeros((written - len) as nat));
    }
    push_decimal(out, n);
    assert(out@ =~= old(out)@ + zero_padded(n as nat, width as nat));
}

/// `ms` milliseconds as `HH:MM:SS.mmm`.
pub fn format_millis(ms: u128) -> (text: String)
    ensures
        text@ == clock_text(ms as nat),
{
    proof {
        reveal_strlit(":");
        reveal_strlit(".");
    }
    let mut text = String::new();
    push_zero_padded(&mut text, ms / 3_600_000, 2);
    text.append(":");
    push_zero_padded(&mut text, (ms % 3_600_000) / 60_000, 2);
    text.append(":");
    push_zero_padded(&mut text, (ms % 60_000) / 1_000, 2);
    text.append(".");
    push_zero_padded(&mut text, ms % 1_000, 3);
    assert(text@ =~= clock_text(ms as nat));
    text
}

/// A duration as `HH:MM:SS.mmm`, cut to whole milliseconds.
pub fn format_duration(d: Duration) -> (text: String)
    ensures
        text@ == clock_text(millis_of(duration_nanos(d))),
{
    format_millis(clock::as_millis(d))
}

/// A number below ten has one digit, one below a hundred two, one below a
/// thousand three; no number has none.
pub proof fn lemma_decimal_len(n: nat)
    ensures
        decimal(n).len() >= 1,
        n < 10 ==> decimal(n).len() == 1,
        10 <= n < 100 ==> decimal(n).len() == 2,
        100 <= n < 1_000 ==> decimal(n).len() == 3,
    decreases n,
{
    if n >= 10 {
        lemma_decimal_len(n / 10);
    }
}

/// Padding gives at least `width` characters, and exactly `width` where the
/// number has no more digits than that.
pub proof fn lemma_zero_padded_len(n: nat, width: nat)
    ensures
        zero_padded(n, width).len() >= width,
        zero_padded(n, width).len() >= decimal(n).len(),
        decimal(n).len() <= width ==> zero_padded(n, width).len() == width,
{
}

/// The shape of `HH:MM:SS.mmm`: the hours in two digits or more, then a
/// colon, two digits of minutes, a colon, two digits of seconds, a full
/// stop and three digits of milliseconds. Below a hundred hours that is
/// twelve characters.
pub proof fn lemma_clock_text_shape(ms: nat)
    ensures
        ({
            let hours = zero_padded(ms / 3_600_000, 2).len() as int;
            let text = clock_text(ms);
            &&& hours >= 2
            &&& text.len() == hours + 10
            &&& text[hours] == ':'
            &&& text[hours + 3] == ':'
            &&& text[hours + 6] == '.'
            &&& ms < 360_000_000 ==> text.len() == 12
        }),
{
    let h = ms / 3_600_000;
    let m = (ms % 3_600_000) / 60_000;
    let s = (ms % 60_000) / 1_000;
    let f = ms % 1_000;
    lemma_decimal_len(h);
    lemma_decimal_len(m);
    lemma_decimal_len(s);
    lemma_decimal_len(f);
    lemma_zero_padded_len(h, 2);
    lemma_zero_padded_len(m, 2);
    lemma_zero_padded_len(s, 2);
    lemma_zero_padded_len(f, 3);
}

} // verus!

//! Durations and sizes as they are shown.
use vstd::prelude::*;
use vstd::string::*;

use crate::text;
use crate::text::{decimal_of, two_digits_of};

verus! {

/// A duration in milliseconds as it is shown: in minutes and seconds, in
/// seconds and tenths, or in milliseconds.
pub open spec fn duration_text(millis: nat) -> Seq<char> {
    let secs = millis / 1000;
    if secs >= 60 {
        decimal_of(secs / 60) + "m"@ + two_digits_of(secs % 60) + "s"@
    } else if secs > 0 {
        decimal_of(secs) + "."@ + decimal_of((millis % 1000) / 100) + "s"@
    } else {
        decimal_of(millis) + "ms"@
    }
}

/// A duration in milliseconds as it is shown.
pub fn fmt_duration(millis: u64) -> (r: String)
    ensures
        r@ == duration_text(millis as nat),
{
    let secs: u64 = millis / 1000;
    if secs >= 60 {
        let m = text::decimal(secs / 60);
        let s = text::two_digits(secs % 60);
        m.concat("m").concat(s.as_str()).concat("s")
    } else if secs > 0 {
        let s = text::decimal(secs);
        let t = text::decimal((millis % 1000) / 100);
        s.concat(".").concat(t.as_str()).concat("s")
    } else {
        text::decimal(millis).concat("ms")
    }
}

/// The frames of the spinner.
pub open spec fn spinner() -> Seq<char> {
    seq!['⠋', '⠙', '⠹', '⠸', '⠼', '⠴', '⠦', '⠧', '⠇', '⠏']
}

/// The frame of the spinner after some milliseconds; each stays for 80.
pub fn spinner_frame(millis: u64) -> (r: char)
    ensures
        r == spinner()[(millis as int / 80) % 10],
{
    let i: u64 = (millis / 80) % 10;
    if i == 0 {
        '⠋'
    } else if i == 1 {
        '⠙'
    } else if i == 2 {
        '⠹'
    } else if i == 3 {
        '⠸'
    } else if i == 4 {
        '⠼'
    } else if i == 5 {
        '⠴'
    } else if i == 6 {
        '⠦'
    } else if i == 7 {
        '⠧'
    } else if i == 8 {
        '⠇'
    } else {
        '⠏'
    }
}

/// The whole number nearest to `a / b`; of two that are as near, the even one.
pub open spec fn nearest(a: int, b: int) -> int {
    let q = a / b;
    let r = a % b;
    if 2 * r > b || (2 * r == b && q % 2 == 1) {
        q + 1
    } else {
        q
    }
}

/// The step between numbers of 53 significant bits around `n`.
pub open spec fn step_at(n: int, step: int) -> int
    decreases n - step,
{
    if step <= 0 || n < step * 0x20_0000_0000_0000 {
        step
    } else {
        step_at(n, 2 * step)
    }
}

/// A size, kept to 53 significant bits.
pub open spec fn significant(n: int) -> int {
    nearest(n, step_at(n, 1)) * step_at(n, 1)
}

/// A size in some unit, to the nearest tenth.
pub open spec fn in_unit(n: int, unit: int, name: Seq<char>) -> Seq<char> {
    let tenths = nearest(10 * significant(n), unit);
    decimal_of((tenths / 10) as nat) + "."@ + decimal_of((tenths % 10) as nat) + name
}

/// A number of bytes as it is shown: in bytes, or to the nearest tenth of the
/// largest unit of which there is at least one.
pub open spec fn bytes_text(n: nat) -> Seq<char> {
    if n >= 0x4000_0000 {
        in_unit(n as int, 0x4000_0000, " GB"@)
    } else if n >= 0x10_0000 {
        in_unit(n as int, 0x10_0000, " MB"@)
    } else if n >= 0x400 {
        in_unit(n as int, 0x400, " KB"@)
    } else {
        decimal_of(n) + " B"@
    }
}

fn round(a: u128, b: u128) -> (r: u128)
    requires
        0 < b <= 0x4000_0000,
        a <= 0xff_ffff_ffff_ffff_ffff,
    ensures
        r == nearest(a as int, b as int),
        r <= a + 1,
{
    let q: u128 = a / b;
    let r: u128 = a % b;
    assert(q <= a) by (nonlinear_arith)
        requires
            q == a / b,
            b > 0,
    ;
    if 2 * r > b || (2 * r == b && q % 2 == 1) {
        q + 1
    } else {
        q
    }
}

fn keep_significant(n: u64) -> (r: u128)
    ensures
        r == significant(n as int),
        r <= 0x2_0000_0000_0000_0000,
{
    let wide: u128 = n as u128;
    let mut step: u128 = 1;
    while wide >= step * 0x20_0000_0000_0000
        invariant
            wide == n,
            1 <= step <= 0xfff,
            step == 1 || step * 0x10_0000_0000_0000 <= wide,
            step_at(n as int, step as int) == step_at(n as int, 1),
        decreases 0x1000 - step,
    {
        step = 2 * step;
    }
    let q = round(wide, step);
    assert(q * step <= wide + step) by {
        let a = wide as int;
        let b = step as int;
        assert(b * (a / b) <= a) by (nonlinear_arith)
            requires
                a >= 0,
                b > 0,
        ;
        assert((a / b + 1) * b == b * (a / b) + b) by (nonlinear_arith);
        assert((a / b) * b == b * (a / b)) by (nonlinear_arith);
        assert(q == a / b || q == a / b + 1);
    }
    assert(0 <= q * step) by (nonlinear_arith)
        requires
            q >= 0,
            step >= 0,
    ;
    q * step
}

fn fmt_in_unit(n: u64, unit: u128, name: &str) -> (r: String)
    requires
        unit == 0x400 || unit == 0x10_0000 || unit == 0x4000_0000,
    ensures
        r@ == in_unit(n as int, unit as int, name@),
{
    let kept = keep_significant(n);
    let tenths = round(10 * kept, unit);
    assert(tenths / 10 <= 0x80_0000_0000_0001);
    let whole = text::decimal((tenths / 10) as u64);
    let part = text::decimal((tenths % 10) as u64);
    whole.concat(".").concat(part.as_str()).concat(name)
}

/// A number of bytes as it is shown.
pub fn fmt_bytes(n: usize) -> (r: String)
    ensures
        r@ == bytes_text(n as nat),
{
    let n: u64 = n as u64;
    if n >= 0x4000_0000 {
        fmt_in_unit(n, 0x4000_0000, " GB")
    } else if n >= 0x10_0000 {
        fmt_in_unit(n, 0x10_0000, " MB")
    } else if n >= 0x400 {
        fmt_in_unit(n, 0x400, " KB")
    } else {
        text::decimal(n).concat(" B")
    }
}

/// Sizes below 2 to the 53rd are shown by their exact value.
pub proof fn small_sizes_are_exact(n: int)
    requires
        0 <= n < 0x20_0000_0000_0000,
    ensures
        significant(n) == n,
{
    assert(step_at(n, 1) == 1);
    assert(nearest(n, 1) == n);
    assert(n * 1 == n);
}

} // verus!

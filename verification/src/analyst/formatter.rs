use vstd::prelude::*;
use crate::text::{decimal_text, digit_char, u64_to_text};

verus! {

/// The last three decimal digits of `r`, leading zeros included.
pub open spec fn three_digits(r: nat) -> Seq<char> {
    seq![digit_char(((r / 100) % 10) as int), digit_char(((r / 10) % 10) as int), digit_char((r % 10) as int)]
}

/// `n` written in decimal with its digits grouped by three and the groups separated by
/// commas, as num_format writes a `u64` in the English locale.
pub open spec fn grouped_text(n: nat) -> Seq<char>
    decreases n,
{
    if n < 1000 {
        decimal_text(n)
    } else {
        grouped_text(n / 1000) + seq![','] + three_digits(n % 1000)
    }
}

fn three_digit_text(r: u64) -> (s: String)
    requires
        r < 1000,
    ensures
        s@ == three_digits(r as nat),
{
    let mut s = u64_to_text((r / 100) % 10);
    s.append(u64_to_text((r / 10) % 10).as_str());
    s.append(u64_to_text(r % 10).as_str());
    assert(s@ =~= three_digits(r as nat));
    s
}

/// `n` with its digits grouped by three, the groups separated by commas.
pub fn format_count(n: u64) -> (s: String)
    ensures
        s@ == grouped_text(n as nat),
    decreases n,
{
    if n < 1000 {
        u64_to_text(n)
    } else {
        let mut s = format_count(n / 1000);
        proof {
            reveal_strlit(",");
        }
        s.append(",");
        s.append(three_digit_text(n % 1000).as_str());
        assert(s@ =~= grouped_text(n as nat));
        s
    }
}

/// `i` written in decimal, with a minus sign where it is negative.
pub open spec fn signed_text(i: int) -> Seq<char> {
    if i < 0 {
        seq!['-'] + decimal_text((-i) as nat)
    } else {
        decimal_text(i as nat)
    }
}

/// `a` divided by `b` with the quotient rounded toward zero, as Rust divides integers.
pub open spec fn div_toward_zero(a: int, b: int) -> int {
    if a >= 0 {
        a / b
    } else {
        -((-a) / b)
    }
}

/// A duration of `t_ms` milliseconds in minutes, seconds and milliseconds, as
/// `<m>m <s>s and <ms>ms`; each part carries the sign of the duration.
pub open spec fn duration_text(t_ms: int) -> Seq<char> {
    let whole_seconds = div_toward_zero(t_ms, 1000);
    let ms = t_ms - 1000 * whole_seconds;
    let m = div_toward_zero(whole_seconds, 60);
    let s = whole_seconds - 60 * m;
    signed_text(m) + "m "@ + signed_text(s) + "s and "@ + signed_text(ms) + "ms"@
}

fn signed_part(negative: bool, magnitude: u64) -> (s: String)
    ensures
        s@ == signed_text(if negative { -magnitude } else { magnitude as int }),
{
    if negative && magnitude > 0 {
        let mut s = "-".to_owned();
        proof {
            reveal_strlit("-");
        }
        s.append(u64_to_text(magnitude).as_str());
        assert(s@ =~= seq!['-'] + decimal_text(magnitude as nat));
        s
    } else {
        u64_to_text(magnitude)
    }
}

/// A duration of `t_ms` milliseconds in minutes, seconds and milliseconds.
pub fn format_duration_ms(t_ms: i64) -> (s: String)
    ensures
        s@ == duration_text(t_ms as int),
{
    let negative = t_ms < 0;
    let magnitude: u64 = if negative { ((-(t_ms + 1)) as u64) + 1 } else { t_ms as u64 };
    assert(magnitude == if negative { -t_ms } else { t_ms as int });
    let m = magnitude / 60000;
    let sec = (magnitude / 1000) % 60;
    let ms = magnitude % 1000;
    proof {
        let w = div_toward_zero(t_ms as int, 1000);
        let mm = div_toward_zero(w, 60);
        assert(magnitude / 60000 == (magnitude / 1000) / 60) by (nonlinear_arith);
        if negative {
            assert(w == -((magnitude / 1000) as int));
            assert(mm == -(((magnitude / 1000) / 60) as int));
        } else {
            assert(w == (magnitude / 1000) as int);
            assert(mm == ((magnitude / 1000) / 60) as int);
        }
        assert((magnitude / 1000) as int - 60 * ((magnitude / 1000) / 60) == (magnitude / 1000) % 60) by (nonlinear_arith);
        assert(magnitude - 1000 * (magnitude / 1000) == magnitude % 1000) by (nonlinear_arith);
    }
    let mut s = signed_part(negative, m);
    proof {
        reveal_strlit("m ");
        reveal_strlit("s and ");
        reveal_strlit("ms");
    }
    s.append("m ");
    s.append(signed_part(negative, sec).as_str());
    s.append("s and ");
    s.append(signed_part(negative, ms).as_str());
    s.append("ms");
    s
}

} // verus!

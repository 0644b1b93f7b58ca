use vstd::prelude::*;
use crate::result::{BoxResult, UnexpectedError};
use crate::text::{to_chars, decimal_text, digit_char};
use crate::analyst::formatter::{grouped_text, three_digits};

verus! {

/// Why a text is not an unsigned integer, as std's `ParseIntError` tells it.
#[derive(Debug, Clone, Copy, PartialEq, Eq, Structural)]
pub enum IntParseFailure {
    Empty,
    InvalidDigit,
    PosOverflow,
}

/// The message std gives for each way a text fails to be an integer.
pub open spec fn failure_message(f: IntParseFailure) -> Seq<char> {
    match f {
        IntParseFailure::Empty => "cannot parse integer from empty string"@,
        IntParseFailure::InvalidDigit => "invalid digit found in string"@,
        IntParseFailure::PosOverflow => "number too large to fit in target type"@,
    }
}

pub open spec fn is_decimal_digit(c: char) -> bool {
    '0' <= c && c <= '9'
}

pub open spec fn digit_value(c: char) -> int {
    c as int - '0' as int
}

/// Reading the digits of `d` from position `i` on, with `acc` the value of those before:
/// the value, or the first thing that stops it (a character that is no digit, or a value
/// past `u64::MAX`).
pub open spec fn scan_decimal(d: Seq<char>, i: int, acc: int) -> Result<u64, IntParseFailure>
    decreases d.len() - i,
{
    if i >= d.len() {
        Ok(acc as u64)
    } else if !is_decimal_digit(d[i]) {
        Err(IntParseFailure::InvalidDigit)
    } else if acc * 10 + digit_value(d[i]) > u64::MAX {
        Err(IntParseFailure::PosOverflow)
    } else {
        scan_decimal(d, i + 1, acc * 10 + digit_value(d[i]))
    }
}

/// `s` as an unsigned 64-bit integer, as std's `str::parse::<u64>` reads it: decimal
/// digits, after an optional `+`.
pub open spec fn parse_u64(s: Seq<char>) -> Result<u64, IntParseFailure> {
    if s.len() == 0 {
        Err(IntParseFailure::Empty)
    } else if s.len() == 1 && (s[0] == '+' || s[0] == '-') {
        Err(IntParseFailure::InvalidDigit)
    } else if s[0] == '+' {
        scan_decimal(s.drop_first(), 0, 0)
    } else {
        scan_decimal(s, 0, 0)
    }
}

/// `s` without its spaces and commas.
pub open spec fn without_separators(s: Seq<char>) -> Seq<char> {
    s.filter(|c: char| c != ' ' && c != ',')
}

/// Reads the characters `d[start..]` as `parse_u64` does after its sign.
fn scan_digits(d: &Vec<char>, start: usize) -> (r: Result<u64, IntParseFailure>)
    requires
        start <= d@.len(),
    ensures
        r == scan_decimal(d@.subrange(start as int, d@.len() as int), 0, 0),
{
    let ghost t = d@.subrange(start as int, d@.len() as int);
    let mut acc: u64 = 0;
    let mut i = start;
    while i < d.len()
        invariant
            start <= i <= d@.len(),
            t == d@.subrange(start as int, d@.len() as int),
            scan_decimal(t, (i - start) as int, acc as int) == scan_decimal(t, 0, 0),
        decreases d@.len() - i,
    {
        let c = d[i];
        assert(t[i - start] == c);
        if !('0' <= c && c <= '9') {
            return Err(IntParseFailure::InvalidDigit);
        }
        let x = (c as u32 - '0' as u32) as u64;
        if acc > (u64::MAX - x) / 10 {
            assert(acc * 10 + x > u64::MAX) by (nonlinear_arith)
                requires
                    acc > (u64::MAX - x) / 10,
                    x <= 9,
            ;
            return Err(IntParseFailure::PosOverflow);
        }
        assert(acc * 10 + x <= u64::MAX) by (nonlinear_arith)
            requires
                acc <= (u64::MAX - x) / 10,
                x <= 9,
        ;
        acc = acc * 10 + x;
        i = i + 1;
    }
    Ok(acc)
}

/// `s` read as an unsigned integer.
pub fn parse_u64_text(s: &str) -> (r: Result<u64, IntParseFailure>)
    ensures
        r == parse_u64(s@),
{
    let chars = to_chars(s);
    parse_u64_chars(&chars)
}

fn parse_u64_chars(regular: &Vec<char>) -> (r: Result<u64, IntParseFailure>)
    ensures
        r == parse_u64(regular@),
{
    let n = regular.len();
    if n == 0 {
        Err(IntParseFailure::Empty)
    } else if n == 1 && (regular[0] == '+' || regular[0] == '-') {
        Err(IntParseFailure::InvalidDigit)
    } else if regular[0] == '+' {
        assert(regular@.subrange(1, n as int) =~= regular@.drop_first());
        scan_digits(regular, 1)
    } else {
        assert(regular@.subrange(0, n as int) =~= regular@);
        scan_digits(regular, 0)
    }
}

/// The message of a failure to read an integer.
pub fn failure_text(f: IntParseFailure) -> (m: &'static str)
    ensures
        m@ == failure_message(f),
{
    match f {
        IntParseFailure::Empty => "cannot parse integer from empty string",
        IntParseFailure::InvalidDigit => "invalid digit found in string",
        IntParseFailure::PosOverflow => "number too large to fit in target type",
    }
}

/// `value` without its spaces and commas, read as an unsigned integer.
pub fn str_to_u64(value: &str) -> (r: BoxResult<u64>)
    ensures
        match parse_u64(without_separators(value@)) {
            Ok(n) => r == Ok::<u64, UnexpectedError>(n),
            Err(f) => r matches Err(e) && e.message_view() == failure_message(f),
        },
{
    let chars = to_chars(value);
    let mut regular: Vec<char> = Vec::new();
    let mut i: usize = 0;
    while i < chars.len()
        invariant
            i <= chars@.len(),
            chars@ == value@,
            regular@ == without_separators(chars@.take(i as int)),
        decreases chars@.len() - i,
    {
        let c = chars[i];
        proof {
            reveal_with_fuel(Seq::filter, 1);
            assert(chars@.take(i + 1).drop_last() =~= chars@.take(i as int));
        }
        if c != ' ' && c != ',' {
            regular.push(c);
        }
        i = i + 1;
    }
    assert(chars@.take(chars@.len() as int) =~= chars@);
    match parse_u64_chars(&regular) {
        Ok(v) => Ok(v),
        Err(f) => UnexpectedError::new_as_box_result(failure_text(f)),
    }
}


/// The number of decimal digits at the start of `s`.
pub open spec fn digit_run(s: Seq<char>) -> nat
    decreases s.len(),
{
    if s.len() > 0 && is_decimal_digit(s[0]) {
        1 + digit_run(s.drop_first())
    } else {
        0
    }
}

pub open spec fn is_sign(c: char) -> bool {
    c == '+' || c == '-'
}

/// Whether `s` is empty or an exponent: `e` or `E`, an optional sign, and digits.
pub open spec fn is_exponent(s: Seq<char>) -> bool {
    s.len() == 0 || ((s[0] == 'e' || s[0] == 'E') && {
        let t = s.drop_first();
        let u = if t.len() > 0 && is_sign(t[0]) { t.drop_first() } else { t };
        u.len() > 0 && digit_run(u) == u.len()
    })
}

/// Whether `s` is a decimal number: digits with an optional fraction, at least one digit
/// in all, and an optional exponent.
pub open spec fn is_decimal_number(s: Seq<char>) -> bool {
    let a = digit_run(s);
    let rest = s.skip(a as int);
    if rest.len() > 0 && rest[0] == '.' {
        let after = rest.drop_first();
        let b = digit_run(after);
        (a > 0 || b > 0) && is_exponent(after.skip(b as int))
    } else {
        a > 0 && is_exponent(rest)
    }
}

/// Whether `c` is the letter given by its two cases.
pub open spec fn letter(c: char, lower: char, upper: char) -> bool {
    c == lower || c == upper
}

/// Whether `s` is one of the words that std reads as a special float value (`inf`,
/// `infinity`, `nan`), in any case.
pub open spec fn is_special_float(s: Seq<char>) -> bool {
    ||| (s.len() == 3 && letter(s[0], 'i', 'I') && letter(s[1], 'n', 'N') && letter(s[2], 'f', 'F'))
    ||| (s.len() == 3 && letter(s[0], 'n', 'N') && letter(s[1], 'a', 'A') && letter(s[2], 'n', 'N'))
    ||| (s.len() == 8 && letter(s[0], 'i', 'I') && letter(s[1], 'n', 'N') && letter(s[2], 'f', 'F')
        && letter(s[3], 'i', 'I') && letter(s[4], 'n', 'N') && letter(s[5], 'i', 'I')
        && letter(s[6], 't', 'T') && letter(s[7], 'y', 'Y'))
}

/// Whether std's `str::parse::<f64>` reads `s` as a number: an optional sign, then
/// `inf`, `infinity` or `nan` in any case, or a decimal number.
pub open spec fn is_float_literal(s: Seq<char>) -> bool {
    let body = if s.len() > 0 && is_sign(s[0]) { s.drop_first() } else { s };
    is_special_float(body) || is_decimal_number(body)
}

/// What std's `str::parse::<f64>` does with `value` once its spaces and commas are
/// taken out: the text it reads as a number, or the message of its error.
pub open spec fn float_text(value: Seq<char>) -> Result<Seq<char>, Seq<char>> {
    let regular = without_separators(value);
    if regular.len() == 0 {
        Err("cannot parse float from empty string"@)
    } else if is_float_literal(regular) {
        Ok(regular)
    } else {
        Err("invalid float literal"@)
    }
}

proof fn lemma_digit_run(s: Seq<char>, k: int)
    requires
        0 <= k <= s.len(),
        forall|j: int| 0 <= j < k ==> is_decimal_digit(#[trigger] s[j]),
        k == s.len() || !is_decimal_digit(s[k]),
    ensures
        digit_run(s) == k,
    decreases k,
{
    if k > 0 {
        assert forall|j: int| 0 <= j < k - 1 implies is_decimal_digit(#[trigger] s.drop_first()[j]) by {
            assert(s.drop_first()[j] == s[j + 1]);
        }
        if k - 1 < s.drop_first().len() {
            assert(s.drop_first()[k - 1] == s[k]);
        }
        lemma_digit_run(s.drop_first(), k - 1);
    }
}

/// The end of the run of digits of `s` that starts at `from`.
fn digits_end(s: &Vec<char>, from: usize) -> (end: usize)
    requires
        from <= s@.len(),
    ensures
        from <= end <= s@.len(),
        digit_run(s@.skip(from as int)) == end - from,
{
    let mut end = from;
    while end < s.len() && '0' <= s[end] && s[end] <= '9'
        invariant
            from <= end <= s@.len(),
            forall|j: int| from <= j < end ==> is_decimal_digit(#[trigger] s@[j]),
        decreases s@.len() - end,
    {
        end = end + 1;
    }
    let ghost t = s@.skip(from as int);
    assert forall|j: int| 0 <= j < end - from implies is_decimal_digit(#[trigger] t[j]) by {
        assert(t[j] == s@[from + j]);
    }
    if end < s.len() {
        assert(t[end - from] == s@[end as int]);
    }
    proof { lemma_digit_run(t, end - from); }
    end
}

fn is_exponent_at(s: &Vec<char>, from: usize) -> (r: bool)
    requires
        from <= s@.len(),
    ensures
        r == is_exponent(s@.skip(from as int)),
{
    let ghost t = s@.skip(from as int);
    if from == s.len() {
        return true;
    }
    assert(t[0] == s@[from as int]);
    if !(s[from] == 'e' || s[from] == 'E') {
        return false;
    }
    let mut k = from + 1;
    assert(t.drop_first() =~= s@.skip(k as int));
    if k < s.len() && (s[k] == '+' || s[k] == '-') {
        assert(s@.skip(k as int)[0] == s@[k as int]);
        assert(s@.skip(k as int).drop_first() =~= s@.skip(k + 1));
        k = k + 1;
    }
    let end = digits_end(s, k);
    k < s.len() && end == s.len()
}

fn is_decimal_number_at(s: &Vec<char>, from: usize) -> (r: bool)
    requires
        from <= s@.len(),
    ensures
        r == is_decimal_number(s@.skip(from as int)),
{
    let ghost t = s@.skip(from as int);
    let a_end = digits_end(s, from);
    assert(t.skip((a_end - from) as int) =~= s@.skip(a_end as int));
    if a_end < s.len() && s[a_end] == '.' {
        assert(s@.skip(a_end as int)[0] == s@[a_end as int]);
        assert(s@.skip(a_end as int).drop_first() =~= s@.skip(a_end + 1));
        let b_end = digits_end(s, a_end + 1);
        assert(s@.skip(a_end + 1).skip((b_end - a_end - 1) as int) =~= s@.skip(b_end as int));
        (a_end > from || b_end > a_end + 1) && is_exponent_at(s, b_end)
    } else {
        if a_end < s.len() {
            assert(s@.skip(a_end as int)[0] == s@[a_end as int]);
        }
        a_end > from && is_exponent_at(s, a_end)
    }
}

fn is_letter(c: char, lower: char, upper: char) -> (r: bool)
    ensures
        r == letter(c, lower, upper),
{
    c == lower || c == upper
}

fn is_special_at(s: &Vec<char>, from: usize) -> (r: bool)
    requires
        from <= s@.len(),
    ensures
        r == is_special_float(s@.skip(from as int)),
{
    let ghost t = s@.skip(from as int);
    let n = s.len() - from;
    if n == 3 {
        assert(t[0] == s@[from as int] && t[1] == s@[from + 1] && t[2] == s@[from + 2]);
        (is_letter(s[from], 'i', 'I') && is_letter(s[from + 1], 'n', 'N') && is_letter(s[from + 2], 'f', 'F'))
            || (is_letter(s[from], 'n', 'N') && is_letter(s[from + 1], 'a', 'A') && is_letter(s[from + 2], 'n', 'N'))
    } else if n == 8 {
        assert(t[0] == s@[from as int] && t[1] == s@[from + 1] && t[2] == s@[from + 2] && t[3] == s@[from + 3]);
        assert(t[4] == s@[from + 4] && t[5] == s@[from + 5] && t[6] == s@[from + 6] && t[7] == s@[from + 7]);
        is_letter(s[from], 'i', 'I') && is_letter(s[from + 1], 'n', 'N') && is_letter(s[from + 2], 'f', 'F')
            && is_letter(s[from + 3], 'i', 'I') && is_letter(s[from + 4], 'n', 'N') && is_letter(s[from + 5], 'i', 'I')
            && is_letter(s[from + 6], 't', 'T') && is_letter(s[from + 7], 'y', 'Y')
    } else {
        false
    }
}

/// `value` without its spaces and commas, where std's `str::parse::<f64>` reads that as a
/// number; else the message of the error it gives.
pub fn checked_float_text(value: &str) -> (r: BoxResult<String>)
    ensures
        match float_text(value@) {
            Ok(t) => r matches Ok(s) && s@ == t,
            Err(m) => r matches Err(e) && e.message_view() == m,
        },
{
    let chars = to_chars(value);
    let mut regular: Vec<char> = Vec::new();
    let mut kept = String::new();
    let mut i: usize = 0;
    while i < chars.len()
        invariant
            i <= chars@.len(),
            chars@ == value@,
            regular@ == without_separators(chars@.take(i as int)),
            kept@ == regular@,
        decreases chars@.len() - i,
    {
        let c = chars[i];
        proof {
            reveal_with_fuel(Seq::filter, 1);
            assert(chars@.take(i + 1).drop_last() =~= chars@.take(i as int));
        }
        if c != ' ' && c != ',' {
            regular.push(c);
            kept.append(value.substring_char(i, i + 1));
            assert(value@.subrange(i as int, i + 1) =~= seq![c]);
        }
        i = i + 1;
    }
    assert(chars@.take(chars@.len() as int) =~= chars@);
    if regular.len() == 0 {
        return UnexpectedError::new_as_box_result("cannot parse float from empty string");
    }
    let start: usize = if regular[0] == '+' || regular[0] == '-' { 1 } else { 0 };
    assert(regular@.skip(0) =~= regular@);
    assert(regular@.skip(1) =~= regular@.drop_first());
    if is_special_at(&regular, start) || is_decimal_number_at(&regular, start) {
        Ok(kept)
    } else {
        UnexpectedError::new_as_box_result("invalid float literal")
    }
}


/// Whether std's `str::parse::<f64>` reads `s`, as it stands, as a number.
pub fn is_float_text(s: &str) -> (r: bool)
    ensures
        r == (s@.len() > 0 && is_float_literal(s@)),
{
    let chars = to_chars(s);
    if chars.len() == 0 {
        return false;
    }
    let start: usize = if chars[0] == '+' || chars[0] == '-' { 1 } else { 0 };
    assert(chars@.skip(0) =~= chars@);
    assert(chars@.skip(1) =~= chars@.drop_first());
    is_special_at(&chars, start) || is_decimal_number_at(&chars, start)
}


proof fn lemma_digit_char(d: int)
    requires
        0 <= d < 10,
    ensures
        is_decimal_digit(digit_char(d)),
        digit_value(digit_char(d)) == d,
{
}

/// One more character read after `s`: what reading `s` gave, extended by `c`.
pub open spec fn scan_step(r: Result<u64, IntParseFailure>, c: char) -> Result<u64, IntParseFailure> {
    match r {
        Err(f) => Err(f),
        Ok(v) => if !is_decimal_digit(c) {
            Err(IntParseFailure::InvalidDigit)
        } else if v * 10 + digit_value(c) > u64::MAX {
            Err(IntParseFailure::PosOverflow)
        } else {
            Ok((v * 10 + digit_value(c)) as u64)
        },
    }
}

proof fn lemma_scan_push(s: Seq<char>, c: char, i: int, acc: int)
    requires
        0 <= i <= s.len(),
        0 <= acc <= u64::MAX,
    ensures
        scan_decimal(s.push(c), i, acc) == scan_step(scan_decimal(s, i, acc), c),
    decreases s.len() - i,
{
    let t = s.push(c);
    if i == s.len() {
        assert(t[i] == c);
        if is_decimal_digit(c) && acc * 10 + digit_value(c) <= u64::MAX {
            assert(scan_decimal(t, i + 1, acc * 10 + digit_value(c)) == Ok::<u64, IntParseFailure>((acc * 10 + digit_value(c)) as u64));
        }
    } else {
        assert(t[i] == s[i]);
        if is_decimal_digit(s[i]) && acc * 10 + digit_value(s[i]) <= u64::MAX {
            lemma_scan_push(s, c, i + 1, acc * 10 + digit_value(s[i]));
        }
    }
}

proof fn lemma_decimal_scan(n: nat)
    requires
        n <= u64::MAX,
    ensures
        scan_decimal(decimal_text(n), 0, 0) == Ok::<u64, IntParseFailure>(n as u64),
        decimal_text(n).len() >= 1,
        is_decimal_digit(decimal_text(n)[0]),
        forall|i: int| 0 <= i < decimal_text(n).len() ==> is_decimal_digit(#[trigger] decimal_text(n)[i]),
    decreases n,
{
    if n < 10 {
        lemma_digit_char(n as int);
        let t = decimal_text(n);
        assert(t == seq![digit_char(n as int)]);
        assert(scan_decimal(t, 1, digit_value(digit_char(n as int))) == Ok::<u64, IntParseFailure>(n as u64));
    } else {
        let q = n / 10;
        let d = n % 10;
        lemma_decimal_scan(q);
        lemma_digit_char(d as int);
        lemma_scan_push(decimal_text(q), digit_char(d as int), 0, 0);
        assert(q * 10 + d == n) by (nonlinear_arith)
            requires
                q == n / 10,
                d == n % 10,
        ;
        assert(decimal_text(n)[0] == decimal_text(q)[0]);
        assert forall|i: int| 0 <= i < decimal_text(n).len() implies is_decimal_digit(#[trigger] decimal_text(n)[i]) by {
            if i < decimal_text(q).len() {
                assert(decimal_text(n)[i] == decimal_text(q)[i]);
            }
        }
    }
}

/// Reading a number back from its decimal text gives the number: `str_to_u64` and
/// `parse_u64_text` undo `u64_to_text`.
pub proof fn law_decimal_round_trip(n: u64)
    ensures
        parse_u64(decimal_text(n as nat)) == Ok::<u64, IntParseFailure>(n),
        without_separators(decimal_text(n as nat)) == decimal_text(n as nat),
{
    lemma_decimal_scan(n as nat);
    let t = decimal_text(n as nat);
    assert(t[0] != '+' && t[0] != '-');
    lemma_digits_kept(t);
}

/// What `format_count` writes, `n` with its digits grouped by three between commas, reads
/// back as `n` with `str_to_u64`, which drops the commas before it parses.
pub proof fn law_grouped_round_trip(n: u64)
    ensures
        without_separators(grouped_text(n as nat)) == decimal_text(n as nat),
        parse_u64(without_separators(grouped_text(n as nat))) == Ok::<u64, IntParseFailure>(n),
{
    lemma_grouped_digits(n as nat);
    law_decimal_round_trip(n);
}

/// `n` from 1000 up is written as `n / 1000` followed by the last three digits.
proof fn lemma_decimal_thousands(n: nat)
    requires
        n >= 1000,
    ensures
        decimal_text(n) == decimal_text(n / 1000) + three_digits(n % 1000),
{
    let r = n % 1000;
    assert(n / 10 >= 10 && n / 100 >= 10) by (nonlinear_arith) requires n >= 1000;
    assert((n / 10) / 10 == n / 100 && (n / 100) / 10 == n / 1000) by (nonlinear_arith) requires n >= 0;
    assert(n % 10 == r % 10 && (n / 10) % 10 == (r / 10) % 10 && (n / 100) % 10 == (r / 100) % 10)
        by (nonlinear_arith) requires r == n % 1000, n >= 0;
    let a = decimal_text(n / 1000);
    assert(decimal_text(n / 100) == a.push(digit_char(((n / 100) % 10) as int)));
    assert(decimal_text(n / 10) == decimal_text(n / 100).push(digit_char(((n / 10) % 10) as int)));
    assert(decimal_text(n) == decimal_text(n / 10).push(digit_char((n % 10) as int)));
    assert(decimal_text(n) =~= a + three_digits(r));
}

proof fn lemma_grouped_digits(n: nat)
    ensures
        without_separators(grouped_text(n)) == decimal_text(n),
    decreases n,
{
    lemma_decimal_scan_digits(n);
    if n < 1000 {
        lemma_digits_kept(decimal_text(n));
    } else {
        lemma_grouped_digits(n / 1000);
        lemma_decimal_thousands(n);
        let pred = |c: char| c != ' ' && c != ',';
        let head = grouped_text(n / 1000);
        let tail = three_digits(n % 1000);
        Seq::filter_distributes_over_add(head + seq![','], tail, pred);
        Seq::filter_distributes_over_add(head, seq![','], pred);
        reveal_with_fuel(Seq::filter, 2);
        assert(seq![','].filter(pred) =~= Seq::<char>::empty());
        let r = n % 1000;
        lemma_digit_char(((r / 100) % 10) as int);
        lemma_digit_char(((r / 10) % 10) as int);
        lemma_digit_char((r % 10) as int);
        lemma_digits_kept(tail);
        assert(without_separators(grouped_text(n)) =~= decimal_text(n / 1000) + tail);
    }
}

/// Every character of `decimal_text(n)` is a decimal digit.
proof fn lemma_decimal_scan_digits(n: nat)
    ensures
        forall|i: int| 0 <= i < decimal_text(n).len() ==> is_decimal_digit(#[trigger] decimal_text(n)[i]),
    decreases n,
{
    if n >= 10 {
        lemma_decimal_scan_digits(n / 10);
        lemma_digit_char((n % 10) as int);
        assert forall|i: int| 0 <= i < decimal_text(n).len() implies is_decimal_digit(#[trigger] decimal_text(n)[i]) by {
            if i < decimal_text(n / 10).len() {
                assert(decimal_text(n)[i] == decimal_text(n / 10)[i]);
            }
        }
    } else {
        lemma_digit_char(n as int);
    }
}

proof fn lemma_digits_kept(t: Seq<char>)
    requires
        forall|i: int| 0 <= i < t.len() ==> #[trigger] t[i] != ' ' && t[i] != ',',
    ensures
        without_separators(t) == t,
    decreases t.len(),
{
    reveal_with_fuel(Seq::filter, 1);
    if t.len() > 0 {
        assert forall|i: int| 0 <= i < t.drop_last().len() implies #[trigger] t.drop_last()[i] != ' ' && t.drop_last()[i] != ',' by {
            assert(t.drop_last()[i] == t[i]);
        }
        lemma_digits_kept(t.drop_last());
        assert(t.drop_last().push(t.last()) =~= t);
    }
}

} // verus!

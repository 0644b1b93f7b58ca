use vstd::prelude::*;

verus! {

/// The characters of `s`, one by one.
pub fn to_chars(s: &str) -> (v: Vec<char>)
    ensures
        v@ == s@,
{
    broadcast use vstd::string::group_string_axioms;

    let mut v: Vec<char> = Vec::new();
    for c in it: s.chars()
        invariant
            v@ == it.seq().take(it.index() as int),
            it.seq() == s@,
    {
        v.push(c);
    }
    v
}

/// Whether two texts are the same.
pub fn same_text(a: &str, b: &str) -> (r: bool)
    ensures
        r == (a@ == b@),
{
    a.to_owned() == b.to_owned()
}

/// Whether `pat` occurs in `s` at position `i`.
pub open spec fn occurs_at(s: Seq<char>, pat: Seq<char>, i: int) -> bool {
    0 <= i && i + pat.len() <= s.len() && s.subrange(i, i + pat.len()) == pat
}

/// The first position at or after `from` where `pat` occurs in `s`.
#[verifier::opaque]
pub open spec fn find_from(s: Seq<char>, pat: Seq<char>, from: int) -> Option<int> {
    if exists|i: int| from <= i && #[trigger] occurs_at(s, pat, i) {
        Some(choose|i: int| from <= i && occurs_at(s, pat, i) && forall|j: int| from <= j < i ==> !#[trigger] occurs_at(s, pat, j))
    } else {
        None
    }
}

/// `find_from` gives the first occurrence at or after `from`.
pub proof fn lemma_find_from_first(s: Seq<char>, pat: Seq<char>, from: int, i: int)
    requires
        from <= i,
        occurs_at(s, pat, i),
        forall|j: int| from <= j < i ==> !#[trigger] occurs_at(s, pat, j),
    ensures
        find_from(s, pat, from) == Some(i),
{
    reveal(find_from);
    let p = |k: int| from <= k && occurs_at(s, pat, k) && forall|j: int| from <= j < k ==> !#[trigger] occurs_at(s, pat, j);
    assert(p(i));
    let c = choose|k: int| #[trigger] p(k);
    assert(p(c));
    if c < i {
        assert(!occurs_at(s, pat, c));
    }
    if c > i {
        assert(!occurs_at(s, pat, i));
    }
}

/// `find_from` gives nothing where `pat` does not occur at or after `from`.
pub proof fn lemma_find_from_none(s: Seq<char>, pat: Seq<char>, from: int)
    requires
        forall|j: int| from <= j ==> !#[trigger] occurs_at(s, pat, j),
    ensures
        find_from(s, pat, from) is None,
{
    reveal(find_from);
}

/// What `find_from` gives is an occurrence, and no earlier one follows `from`.
#[verifier::spinoff_prover]
pub proof fn lemma_find_from_some(s: Seq<char>, pat: Seq<char>, from: int)
    requires
        find_from(s, pat, from) is Some,
    ensures
        ({
            let i = find_from(s, pat, from)->0;
            from <= i && occurs_at(s, pat, i) && forall|j: int| from <= j < i ==> !#[trigger] occurs_at(s, pat, j)
        }),
{
    reveal(find_from);
    let w = choose|k: int| from <= k && #[trigger] occurs_at(s, pat, k);
    // the least occurrence at or after `from` exists
    lemma_least_occurrence(s, pat, from, w);
}

proof fn lemma_least_occurrence(s: Seq<char>, pat: Seq<char>, from: int, w: int)
    requires
        from <= w,
        occurs_at(s, pat, w),
    ensures
        exists|k: int| from <= k && occurs_at(s, pat, k) && forall|j: int| from <= j < k ==> !#[trigger] occurs_at(s, pat, j),
    decreases w - from,
{
    if exists|j: int| from <= j < w && #[trigger] occurs_at(s, pat, j) {
        let j = choose|j: int| from <= j < w && #[trigger] occurs_at(s, pat, j);
        lemma_least_occurrence(s, pat, from, j);
    } else {
        assert(forall|j: int| from <= j < w ==> !#[trigger] occurs_at(s, pat, j));
    }
}

pub fn first_occurrence(s: &Vec<char>, pat: &Vec<char>, from: usize) -> (r: Option<usize>)
    requires
        from <= s@.len(),
    ensures
        match r {
            Some(i) => find_from(s@, pat@, from as int) == Some(i as int) && from <= i
                && occurs_at(s@, pat@, i as int),
            None => find_from(s@, pat@, from as int) is None,
        },
{
    let n = s.len();
    let m = pat.len();
    if m > n {
        assert(forall|i: int| from <= i ==> !#[trigger] occurs_at(s@, pat@, i));
        proof { lemma_find_from_none(s@, pat@, from as int); }
        return None;
    }
    let mut i = from;
    while i <= n - m
        invariant
            from <= i,
            n == s@.len(),
            m == pat@.len(),
            m <= n,
            forall|j: int| from <= j < i ==> !#[trigger] occurs_at(s@, pat@, j),
        decreases n - i,
    {
        let mut k: usize = 0;
        let mut same = true;
        while k < m
            invariant
                0 <= k <= m,
                i + m <= n,
                n == s@.len(),
                m == pat@.len(),
                same == (forall|t: int| 0 <= t < k ==> s@[i + t] == #[trigger] pat@[t]),
            decreases m - k,
        {
            if s[i + k] != pat[k] {
                same = false;
            }
            k = k + 1;
        }
        if same {
            assert(s@.subrange(i as int, i + m) =~= pat@);
            assert(occurs_at(s@, pat@, i as int));
            proof { lemma_find_from_first(s@, pat@, from as int, i as int); }
            return Some(i);
        }
        assert(!occurs_at(s@, pat@, i as int)) by {
            if occurs_at(s@, pat@, i as int) {
                assert forall|t: int| 0 <= t < m implies s@[i + t] == #[trigger] pat@[t] by {
                    assert(s@.subrange(i as int, i + m)[t] == s@[i + t]);
                }
            }
        }
        i = i + 1;
    }
    assert(forall|j: int| from <= j ==> !#[trigger] occurs_at(s@, pat@, j));
    proof { lemma_find_from_none(s@, pat@, from as int); }
    None
}

/// Whether `pat` occurs somewhere in `s`.
pub open spec fn contains_text(s: Seq<char>, pat: Seq<char>) -> bool {
    exists|i: int| #[trigger] occurs_at(s, pat, i)
}

/// Whether `pat` occurs somewhere in `s`, as std's `str::contains` with a text pattern
/// answers.
pub fn contains(s: &str, pat: &str) -> (r: bool)
    ensures
        r == contains_text(s@, pat@),
{
    let sc = to_chars(s);
    let pc = to_chars(pat);
    match first_occurrence(&sc, &pc, 0) {
        Some(i) => true,
        None => {
            proof {
                if contains_text(s@, pat@) {
                    let i = choose|i: int| #[trigger] occurs_at(s@, pat@, i);
                    assert(0 <= i);
                    lemma_find_from_some_bound(s@, pat@, 0, i);
                }
            }
            false
        },
    }
}

proof fn lemma_find_from_some_bound(s: Seq<char>, pat: Seq<char>, from: int, i: int)
    requires
        from <= i,
        occurs_at(s, pat, i),
    ensures
        find_from(s, pat, from) is Some,
{
    reveal(find_from);
}

/// Whether `c` has the Unicode White_Space property, as std's `char::is_whitespace`
/// answers.
pub open spec fn is_white_space(c: char) -> bool {
    ('\u{9}' <= c && c <= '\u{d}') || c == ' ' || c == '\u{85}' || c == '\u{a0}' || c == '\u{1680}'
        || ('\u{2000}' <= c && c <= '\u{200a}') || c == '\u{2028}' || c == '\u{2029}'
        || c == '\u{202f}' || c == '\u{205f}' || c == '\u{3000}'
}

pub fn is_whitespace(c: char) -> (r: bool)
    ensures
        r == is_white_space(c),
{
    ('\u{9}' <= c && c <= '\u{d}') || c == ' ' || c == '\u{85}' || c == '\u{a0}' || c == '\u{1680}'
        || ('\u{2000}' <= c && c <= '\u{200a}') || c == '\u{2028}' || c == '\u{2029}'
        || c == '\u{202f}' || c == '\u{205f}' || c == '\u{3000}'
}

/// The number of white-space characters at the start of `s`.
pub open spec fn leading_space(s: Seq<char>) -> nat
    decreases s.len(),
{
    if s.len() > 0 && is_white_space(s[0]) {
        1 + leading_space(s.drop_first())
    } else {
        0
    }
}

/// The number of white-space characters at the end of `s`.
pub open spec fn trailing_space(s: Seq<char>) -> nat
    decreases s.len(),
{
    if s.len() > 0 && is_white_space(s.last()) {
        1 + trailing_space(s.drop_last())
    } else {
        0
    }
}

/// `s` without the white space at its start and end, as std's `str::trim` gives it.
pub open spec fn trim_spec(s: Seq<char>) -> Seq<char> {
    let lead = leading_space(s);
    let rest = s.subrange(lead as int, s.len() as int);
    rest.subrange(0, rest.len() - trailing_space(rest))
}

proof fn lemma_leading_space(s: Seq<char>, k: int)
    requires
        0 <= k <= s.len(),
        forall|j: int| 0 <= j < k ==> is_white_space(#[trigger] s[j]),
        k == s.len() || !is_white_space(s[k]),
    ensures
        leading_space(s) == k,
    decreases k,
{
    if k > 0 {
        assert forall|j: int| 0 <= j < k - 1 implies is_white_space(#[trigger] s.drop_first()[j]) by {
            assert(s.drop_first()[j] == s[j + 1]);
        }
        if k - 1 < s.drop_first().len() {
            assert(s.drop_first()[k - 1] == s[k]);
        }
        lemma_leading_space(s.drop_first(), k - 1);
    }
}

proof fn lemma_trailing_space(s: Seq<char>, k: int)
    requires
        0 <= k <= s.len(),
        forall|j: int| s.len() - k <= j < s.len() ==> is_white_space(#[trigger] s[j]),
        k == s.len() || !is_white_space(s[s.len() - k - 1]),
    ensures
        trailing_space(s) == k,
    decreases k,
{
    if k > 0 {
        assert forall|j: int| s.drop_last().len() - (k - 1) <= j < s.drop_last().len() implies is_white_space(#[trigger] s.drop_last()[j]) by {
            assert(s.drop_last()[j] == s[j]);
        }
        if k - 1 < s.drop_last().len() {
            assert(s.drop_last()[s.drop_last().len() - (k - 1) - 1] == s[s.len() - k - 1]);
        }
        lemma_trailing_space(s.drop_last(), k - 1);
    }
}

/// `s` without the white space at its start and end.
pub fn trim(s: &str) -> (r: String)
    ensures
        r@ == trim_spec(s@),
{
    let chars = to_chars(s);
    let n = chars.len();
    let mut start: usize = 0;
    while start < n && is_whitespace(chars[start])
        invariant
            n == s@.len(),
            chars@ == s@,
            start <= n,
            forall|j: int| 0 <= j < start ==> is_white_space(#[trigger] s@[j]),
        decreases n - start,
    {
        start = start + 1;
    }
    proof {
        lemma_leading_space(s@, start as int);
    }
    let mut end: usize = n;
    while end > start && is_whitespace(chars[end - 1])
        invariant
            n == s@.len(),
            chars@ == s@,
            start <= end <= n,
            forall|j: int| end <= j < n ==> is_white_space(#[trigger] s@[j]),
        decreases end - start,
    {
        end = end - 1;
    }
    proof {
        let rest = s@.subrange(start as int, n as int);
        assert forall|j: int| rest.len() - (n - end) <= j < rest.len() implies is_white_space(#[trigger] rest[j]) by {
            assert(rest[j] == s@[start + j]);
        }
        if end > start {
            assert(rest[rest.len() - (n - end) - 1] == s@[end - 1]);
        }
        lemma_trailing_space(rest, (n - end) as int);
        assert(rest.subrange(0, rest.len() - (n - end)) =~= s@.subrange(start as int, end as int));
    }
    s.substring_char(start, end).to_owned()
}


/// The character of a decimal digit.
pub open spec fn digit_char(d: int) -> char {
    if d == 0 { '0' } else if d == 1 { '1' } else if d == 2 { '2' } else if d == 3 { '3' }
    else if d == 4 { '4' } else if d == 5 { '5' } else if d == 6 { '6' } else if d == 7 { '7' }
    else if d == 8 { '8' } else { '9' }
}

/// `n` written in decimal, without leading zeros, as std's `to_string` writes it.
pub open spec fn decimal_text(n: nat) -> Seq<char>
    decreases n,
{
    if n < 10 {
        seq![digit_char(n as int)]
    } else {
        decimal_text(n / 10).push(digit_char((n % 10) as int))
    }
}

fn digit_text(d: u64) -> (s: &'static str)
    requires
        d < 10,
    ensures
        s@ == seq![digit_char(d as int)],
{
    proof {
        reveal_strlit("0");
        reveal_strlit("1");
        reveal_strlit("2");
        reveal_strlit("3");
        reveal_strlit("4");
        reveal_strlit("5");
        reveal_strlit("6");
        reveal_strlit("7");
        reveal_strlit("8");
        reveal_strlit("9");
    }
    if d == 0 { "0" } else if d == 1 { "1" } else if d == 2 { "2" } else if d == 3 { "3" }
    else if d == 4 { "4" } else if d == 5 { "5" } else if d == 6 { "6" } else if d == 7 { "7" }
    else if d == 8 { "8" } else { "9" }
}

/// `n` written in decimal.
pub fn u64_to_text(n: u64) -> (s: String)
    ensures
        s@ == decimal_text(n as nat),
    decreases n,
{
    if n < 10 {
        digit_text(n).to_owned()
    } else {
        let mut s = u64_to_text(n / 10);
        s.append(digit_text(n % 10));
        s
    }
}

/// The texts of `parts` joined with a space between each two, as std's `join(" ")`
/// gives them.
pub open spec fn join_with_space(parts: Seq<Seq<char>>) -> Seq<char>
    decreases parts.len(),
{
    if parts.len() == 0 {
        Seq::empty()
    } else if parts.len() == 1 {
        parts[0]
    } else {
        join_with_space(parts.drop_last()) + seq![' '] + parts.last()
    }
}

/// The texts of `parts` joined with a space between each two.
pub fn join_texts(parts: &Vec<String>) -> (s: String)
    ensures
        s@ == join_with_space(parts@.map_values(|p: String| p@)),
{
    let ghost views = parts@.map_values(|p: String| p@);
    let mut s = String::new();
    let mut i: usize = 0;
    proof {
        reveal_strlit(" ");
    }
    while i < parts.len()
        invariant
            i <= parts@.len(),
            views == parts@.map_values(|p: String| p@),
            s@ == join_with_space(views.take(i as int)),
            " "@ == seq![' '],
        decreases parts@.len() - i,
    {
        assert(views.take(i + 1).drop_last() =~= views.take(i as int));
        if i > 0 {
            s.append(" ");
        } else {
            assert(s@ =~= Seq::<char>::empty());
        }
        s.append(parts[i].as_str());
        i = i + 1;
        assert(views.take(i as int).last() == parts@[i - 1]@);
        if i == 1 {
            assert(s@ =~= join_with_space(views.take(i as int)));
        }
    }
    assert(views.take(parts@.len() as int) =~= views);
    s
}

/// The first of the white-space-separated words of `s`, as `split_whitespace().nth(0)`
/// gives it: the text from the first character that is not white space up to the white
/// space after it.
pub open spec fn first_word(s: Seq<char>) -> Option<Seq<char>> {
    let start = leading_space(s) as int;
    if start >= s.len() {
        None
    } else {
        let rest = s.subrange(start, s.len() as int);
        Some(rest.subrange(0, word_length(rest) as int))
    }
}

/// The number of characters at the start of `s` before its first white space.
pub open spec fn word_length(s: Seq<char>) -> nat
    decreases s.len(),
{
    if s.len() > 0 && !is_white_space(s[0]) {
        1 + word_length(s.drop_first())
    } else {
        0
    }
}

proof fn lemma_word_length(s: Seq<char>, k: int)
    requires
        0 <= k <= s.len(),
        forall|j: int| 0 <= j < k ==> !is_white_space(#[trigger] s[j]),
        k == s.len() || is_white_space(s[k]),
    ensures
        word_length(s) == k,
    decreases k,
{
    if k > 0 {
        assert forall|j: int| 0 <= j < k - 1 implies !is_white_space(#[trigger] s.drop_first()[j]) by {
            assert(s.drop_first()[j] == s[j + 1]);
        }
        if k - 1 < s.drop_first().len() {
            assert(s.drop_first()[k - 1] == s[k]);
        }
        lemma_word_length(s.drop_first(), k - 1);
    }
}

/// The first white-space-separated word of `s`, where it has one.
pub fn first_word_of(s: &str) -> (r: Option<String>)
    ensures
        match r {
            Some(w) => first_word(s@) == Some(w@),
            None => first_word(s@) is None,
        },
{
    let chars = to_chars(s);
    let n = chars.len();
    let mut start: usize = 0;
    while start < n && is_whitespace(chars[start])
        invariant
            n == s@.len(),
            chars@ == s@,
            start <= n,
            forall|j: int| 0 <= j < start ==> is_white_space(#[trigger] s@[j]),
        decreases n - start,
    {
        start = start + 1;
    }
    proof {
        lemma_leading_space(s@, start as int);
    }
    if start == n {
        return None;
    }
    let mut end: usize = start;
    while end < n && !is_whitespace(chars[end])
        invariant
            n == s@.len(),
            chars@ == s@,
            start <= end <= n,
            forall|j: int| start <= j < end ==> !is_white_space(#[trigger] s@[j]),
        decreases n - end,
    {
        end = end + 1;
    }
    proof {
        let rest = s@.subrange(start as int, n as int);
        assert forall|j: int| 0 <= j < end - start implies !is_white_space(#[trigger] rest[j]) by {
            assert(rest[j] == s@[start + j]);
        }
        if end < n {
            assert(rest[end - start] == s@[end as int]);
        }
        lemma_word_length(rest, (end - start) as int);
        assert(rest.subrange(0, (end - start) as int) =~= s@.subrange(start as int, end as int));
    }
    Some(s.substring_char(start, end).to_owned())
}

/// The position of the last `c` in `s`, or -1 where there is none.
pub open spec fn last_index_of(s: Seq<char>, c: char) -> int
    decreases s.len(),
{
    if s.len() == 0 {
        -1
    } else if s.last() == c {
        s.len() - 1
    } else {
        last_index_of(s.drop_last(), c)
    }
}

proof fn lemma_last_index_of(s: Seq<char>, c: char, k: int)
    requires
        -1 <= k < s.len(),
        k >= 0 ==> s[k] == c,
        forall|j: int| k < j < s.len() ==> #[trigger] s[j] != c,
    ensures
        last_index_of(s, c) == k,
    decreases s.len(),
{
    if s.len() > 0 && k < s.len() - 1 {
        assert(s[s.len() - 1] != c);
        assert forall|j: int| k < j < s.drop_last().len() implies #[trigger] s.drop_last()[j] != c by {
            assert(s.drop_last()[j] == s[j]);
        }
        if k >= 0 {
            assert(s.drop_last()[k] == s[k]);
        }
        lemma_last_index_of(s.drop_last(), c, k);
    }
}

/// The position of the last `c` among the first `end` characters of `s`.
pub fn last_index_in(s: &Vec<char>, end: usize, c: char) -> (r: Option<usize>)
    requires
        end <= s@.len(),
    ensures
        match r {
            Some(k) => last_index_of(s@.subrange(0, end as int), c) == k as int,
            None => last_index_of(s@.subrange(0, end as int), c) == -1,
        },
{
    let mut k = end;
    while k > 0 && s[k - 1] != c
        invariant
            k <= end <= s@.len(),
            forall|j: int| k <= j < end ==> #[trigger] s@[j] != c,
        decreases k,
    {
        k = k - 1;
    }
    let ghost t = s@.subrange(0, end as int);
    assert forall|j: int| k <= j < t.len() implies #[trigger] t[j] != c by {
        assert(t[j] == s@[j]);
    }
    if k == 0 {
        proof { lemma_last_index_of(t, c, -1); }
        None
    } else {
        assert(t[k - 1] == s@[k - 1]);
        proof { lemma_last_index_of(t, c, k - 1); }
        Some(k - 1)
    }
}

} // verus!

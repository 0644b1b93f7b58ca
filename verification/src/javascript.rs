use vstd::prelude::*;
use crate::text::{find_from, first_occurrence, occurs_at, to_chars, lemma_find_from_some};

verus! {

/// How a character moves the nesting depth of curly braces.
pub open spec fn brace_delta(c: char) -> int {
    if c == '{' { 1 } else if c == '}' { -1 } else { 0 }
}

/// Scanning `s` from position `k` with `depth` braces open: the position at which the
/// depth first drops to zero, or the last position of `s` where it never does.
pub open spec fn close_scan(s: Seq<char>, k: int, depth: int) -> int
    decreases s.len() - k,
{
    if k >= s.len() {
        s.len() - 1
    } else if depth + brace_delta(s[k]) == 0 {
        k
    } else {
        close_scan(s, k + 1, depth + brace_delta(s[k]))
    }
}

/// The position of the brace that closes the one opened at `begin`.
pub open spec fn closing_brace(s: Seq<char>, begin: int) -> int {
    close_scan(s, begin + 1, 1)
}

/// Searching `s` from `from`: the first `{` after the first occurrence of `lhs`, and the
/// position of the brace that closes it.
pub open spec fn rhs_bounds(lhs: Seq<char>, from: int, s: Seq<char>) -> Option<(int, int)> {
    match find_from(s, lhs, from) {
        None => None,
        Some(lb) => match find_from(s, seq!['{'], lb) {
            None => None,
            Some(rb) => Some((rb, closing_brace(s, rb))),
        },
    }
}

/// The objects assigned to `lhs` in `s`, searching from `from`, at most `limit` of them;
/// each search after the first starts at the end of the object found before.
pub open spec fn rhs_objects(lhs: Seq<char>, s: Seq<char>, from: int, limit: nat) -> Seq<Seq<char>>
    decreases limit,
{
    if limit == 0 {
        seq![]
    } else {
        match rhs_bounds(lhs, from, s) {
            None => seq![],
            Some((b, e)) => seq![s.subrange(b, e + 1)] + rhs_objects(lhs, s, e, (limit - 1) as nat),
        }
    }
}

proof fn lemma_close_scan_bounds(s: Seq<char>, k: int, depth: int)
    requires
        0 <= k <= s.len(),
        s.len() > 0,
    ensures
        k - 1 <= close_scan(s, k, depth) < s.len(),
        k < s.len() ==> k <= close_scan(s, k, depth),
    decreases s.len() - k,
{
    if k < s.len() && depth + brace_delta(s[k]) != 0 {
        lemma_close_scan_bounds(s, k + 1, depth + brace_delta(s[k]));
    }
}

/// Position of the first `{` at or after `lhs` in `script` (searching from `from`), and of
/// the brace that closes it.
fn get_rhs_object_one(lhs: &Vec<char>, from: usize, script: &Vec<char>) -> (r: Option<(usize, usize)>)
    requires
        from <= script@.len(),
    ensures
        match r {
            Some((b, e)) => rhs_bounds(lhs@, from as int, script@) == Some((b as int, e as int))
                && from <= b <= e < script@.len(),
            None => rhs_bounds(lhs@, from as int, script@) is None,
        },
{
    let lhs_begin = match first_occurrence(script, lhs, from) {
        None => return None,
        Some(v) => v,
    };
    let mut brace: Vec<char> = Vec::new();
    brace.push('{');
    assert(brace@ =~= seq!['{']);
    let rhs_begin = match first_occurrence(script, &brace, lhs_begin) {
        None => return None,
        Some(v) => v,
    };
    let n = script.len();
    assert(rhs_bounds(lhs@, from as int, script@) == Some((rhs_begin as int, closing_brace(script@, rhs_begin as int))));
    let mut count: usize = 1;
    let mut rhs_end = rhs_begin;
    let mut k = rhs_begin + 1;
    proof {
        lemma_close_scan_bounds(script@, rhs_begin + 1, 1);
    }
    while k < n
        invariant
            n == script@.len(),
            rhs_begin < n,
            rhs_begin + 1 <= k <= n,
            rhs_end == k - 1,
            1 <= count <= k - rhs_begin,
            closing_brace(script@, rhs_begin as int) == close_scan(script@, k as int, count as int),
            from <= rhs_begin,
            rhs_bounds(lhs@, from as int, script@) == Some((rhs_begin as int, closing_brace(script@, rhs_begin as int))),
        decreases n - k,
    {
        let symbol = script[k];
        let ghost c0 = count as int;
        rhs_end = k;
        if symbol == '{' {
            count = count + 1;
        }
        if symbol == '}' {
            count = count - 1;
        }
        assert(count == c0 + brace_delta(script@[k as int]));
        if count == 0 {
            assert(close_scan(script@, k as int, c0) == k);
            return Some((rhs_begin, rhs_end));
        }
        k = k + 1;
    }
    Some((rhs_begin, rhs_end))
}

/// The right-hand sides of the assignments to `lhs` in `script`: for each occurrence of
/// `lhs`, the text from the next `{` through the brace that closes it (through the end of
/// the script where none does), at most `limit` of them.
///
/// `script` is ASCII text: the positions that the search works with are byte offsets,
/// which agree with character positions there.
pub fn get_rhs_object(lhs: &str, script: &str, limit: usize) -> (rhs_list: Vec<String>)
    requires
        vstd::utf8::is_ascii_chars(script@),
    ensures
        rhs_list@.map_values(|s: String| s@) == rhs_objects(lhs@, script@, 0, limit as nat),
{
    let lhs_chars = to_chars(lhs);
    let chars = to_chars(script);
    let mut rhs_list: Vec<String> = Vec::new();
    let ghost mut found: Seq<Seq<char>> = seq![];
    let mut from_index: usize = 0;
    while rhs_list.len() < limit
        invariant
            from_index <= chars@.len(),
            chars@ == script@,
            lhs_chars@ == lhs@,
            rhs_list.len() <= limit,
            found.len() == rhs_list.len(),
            forall|t: int| 0 <= t < found.len() ==> #[trigger] found[t] == rhs_list@[t]@,
            found + rhs_objects(lhs@, script@, from_index as int, (limit - rhs_list.len()) as nat)
                == rhs_objects(lhs@, script@, 0, limit as nat),
        ensures
            rhs_list.len() <= limit,
            found.len() == rhs_list.len(),
            forall|t: int| 0 <= t < found.len() ==> #[trigger] found[t] == rhs_list@[t]@,
            found + rhs_objects(lhs@, script@, from_index as int, (limit - rhs_list.len()) as nat)
                == rhs_objects(lhs@, script@, 0, limit as nat),
            rhs_list.len() < limit ==> rhs_bounds(lhs@, from_index as int, script@) is None,
        decreases limit - rhs_list.len(),
    {
        let (from, to) = match get_rhs_object_one(&lhs_chars, from_index, &chars) {
            None => break,
            Some(v) => v,
        };
        assert(to < chars.len());
        let rhs = script.substring_char(from, to + 1).to_owned();
        let ghost rest = rhs_objects(lhs@, script@, to as int, (limit - rhs_list.len() - 1) as nat);
        assert(rhs_objects(lhs@, script@, from_index as int, (limit - rhs_list.len()) as nat)
            == seq![rhs@] + rest);
        proof {
            assert(found.push(rhs@) + rest =~= found + (seq![rhs@] + rest));
            found = found.push(rhs@);
        }
        rhs_list.push(rhs);
        from_index = to;
    }
    proof {
        if rhs_list.len() < limit {
            assert(rhs_objects(lhs@, script@, from_index as int, (limit - rhs_list.len()) as nat) == Seq::<Seq<char>>::empty());
        }
        assert(found + Seq::<Seq<char>>::empty() =~= found);
        assert(rhs_list@.map_values(|s: String| s@) =~= found);
    }
    rhs_list
}


/// A call into a JavaScript program: the program, and the function of it to call (with
/// the argument `0`) once it has run.
#[derive(Debug)]
pub struct ScriptCall {
    pub program: String,
    pub function: String,
}

/// The abstract value of a [`ScriptCall`].
pub ghost struct ScriptCallView {
    pub program: Seq<char>,
    pub function: Seq<char>,
}

impl View for ScriptCall {
    type V = ScriptCallView;

    open spec fn view(&self) -> ScriptCallView {
        ScriptCallView { program: self.program@, function: self.function@ }
    }
}

/// The program that runs `prelude`, then `script` and `;` on a line of its own end, then
/// `inspect`.
pub open spec fn script_program(prelude: Seq<char>, script: Seq<char>, inspect: Seq<char>) -> Seq<char> {
    prelude + script + seq![';', '\n'] + inspect
}

/// The call that runs `script` between `prelude` and `inspect` and then calls `function`.
pub fn script_call(prelude: &str, script: &str, inspect: &str, function: &str) -> (c: ScriptCall)
    ensures
        c@ == (ScriptCallView { program: script_program(prelude@, script@, inspect@), function: function@ }),
{
    let mut program = prelude.to_owned();
    program.append(script);
    proof {
        reveal_strlit(";\n");
        assert(";\n"@ =~= seq![';', '\n']);
    }
    program.append(";\n");
    program.append(inspect);
    assert(program@ =~= script_program(prelude@, script@, inspect@));
    ScriptCall { program, function: function.to_owned() }
}


/// Each right-hand side that `get_rhs_object` gives starts with the `{` that opens it, and
/// the search gives at most `limit` of them.
pub proof fn law_rhs_objects_open_with_brace(lhs: Seq<char>, s: Seq<char>, from: int, limit: nat)
    ensures
        rhs_objects(lhs, s, from, limit).len() <= limit,
        forall|i: int| 0 <= i < rhs_objects(lhs, s, from, limit).len() ==>
            (#[trigger] rhs_objects(lhs, s, from, limit)[i]).len() >= 1 && rhs_objects(lhs, s, from, limit)[i][0] == '{',
    decreases limit,
{
    if limit > 0 {
        if let Some((b, e)) = rhs_bounds(lhs, from, s) {
            let lb = find_from(s, lhs, from)->0;
            lemma_find_from_some(s, seq!['{'], lb);
            assert(s.subrange(b, b + 1) == seq!['{']);
            assert(s[b] == s.subrange(b, b + 1)[0]);
            lemma_close_scan_bounds(s, b + 1, 1);
            law_rhs_objects_open_with_brace(lhs, s, e, (limit - 1) as nat);
            let rest = rhs_objects(lhs, s, e, (limit - 1) as nat);
            let all = rhs_objects(lhs, s, from, limit);
            assert(all == seq![s.subrange(b, e + 1)] + rest);
            assert forall|i: int| 0 <= i < all.len() implies (#[trigger] all[i]).len() >= 1 && all[i][0] == '{' by {
                if i > 0 {
                    assert(all[i] == rest[i - 1]);
                } else {
                    assert(all[0] == s.subrange(b, e + 1));
                    assert(s.subrange(b, e + 1)[0] == s[b]);
                }
            }
        }
    }
}

} // verus!

//! Verified string utilities: substring search, trimming, line scanning,
//! character-bounded truncation and decimal rendering of integers.
use vstd::prelude::*;

verus! {

/// The needle `n` occurs in `h` starting at character index `i`.
pub open spec fn contains_at(h: Seq<char>, n: Seq<char>, i: int) -> bool {
    0 <= i && i + n.len() <= h.len() && h.subrange(i, i + n.len() as int) == n
}

/// The needle `n` occurs somewhere in `h` (case-sensitive substring).
pub open spec fn spec_contains(h: Seq<char>, n: Seq<char>) -> bool {
    exists|i: int| contains_at(h, n, i)
}

/// Does `n` occur in `h` at exactly character index `i`?
fn match_at(h: &str, n: &str, i: usize) -> (b: bool)
    requires
        i + n@.len() <= h@.len(),
    ensures
        b == contains_at(h@, n@, i as int),
{
    let h_len = h.unicode_len();
    let n_len = n.unicode_len();
    let mut j: usize = 0;
    while j < n_len
        invariant
            h_len == h@.len(),
            n_len == n@.len(),
            0 <= j <= n_len,
            i + n@.len() <= h@.len(),
            forall|k: int| 0 <= k < j ==> h@[i + k] == n@[k],
        decreases n_len - j,
    {
        if h.get_char(i + j) != n.get_char(j) {
            assert(h@.subrange(i as int, i + n@.len() as int)[j as int] != n@[j as int]);
            return false;
        }
        j = j + 1;
    }
    assert(h@.subrange(i as int, i + n@.len() as int) =~= n@);
    true
}

/// Character index of the first occurrence of `n` in `h`, if any.
pub fn find_sub(h: &str, n: &str) -> (r: Option<usize>)
    ensures
        match r {
            Some(i) => contains_at(h@, n@, i as int) && (forall|k: int|
                0 <= k < i ==> !contains_at(h@, n@, k)) && spec_find(h@, n@) == Some(i as int),
            None => !spec_contains(h@, n@) && spec_find(h@, n@) is None,
        },
{
    let h_len = h.unicode_len();
    let n_len = n.unicode_len();
    if n_len > h_len {
        assert(!spec_contains(h@, n@));
        return None;
    }
    if n_len == 0 {
        assert(h@.subrange(0, 0) =~= n@);
        assert(spec_find(h@, n@) == Some(0int));
        return Some(0);
    }
    let mut i: usize = 0;
    while i <= h_len - n_len
        invariant
            h_len == h@.len(),
            n_len == n@.len(),
            0 < n_len <= h_len,
            i <= h_len - n_len + 1,
            forall|k: int| 0 <= k < i ==> !contains_at(h@, n@, k),
        decreases h_len - i,
    {
        if match_at(h, n, i) {
            proof {
                lemma_spec_find_some(h@, n@, i as int);
            }
            return Some(i);
        }
        i = i + 1;
    }
    assert forall|k: int| 0 <= k implies !contains_at(h@, n@, k) by {
        if k <= h_len - n_len {
            assert(!contains_at(h@, n@, k));
        }
    }
    proof {
        lemma_spec_find_none(h@, n@);
    }
    None
}

/// Case-sensitive substring test.
pub fn str_contains(h: &str, n: &str) -> (b: bool)
    ensures
        b == spec_contains(h@, n@),
{
    match find_sub(h, n) {
        Some(_) => true,
        None => false,
    }
}

/// The whitespace characters stripped by trimming.
pub open spec fn is_wspace(c: char) -> bool {
    c == ' ' || c == '\t' || c == '\n' || c == '\r' || c == '\u{b}' || c == '\u{c}'
}

/// Executable whitespace test.
pub fn is_wspace_char(c: char) -> (b: bool)
    ensures
        b == is_wspace(c),
{
    c == ' ' || c == '\t' || c == '\n' || c == '\r' || c == '\u{b}' || c == '\u{c}'
}

/// `s` with leading characters satisfying `p` removed.
pub open spec fn ltrim_by(s: Seq<char>, p: spec_fn(char) -> bool) -> Seq<char>
    decreases s.len(),
{
    if s.len() > 0 && p(s[0]) {
        ltrim_by(s.skip(1), p)
    } else {
        s
    }
}

/// `s` with trailing characters satisfying `p` removed.
pub open spec fn rtrim_by(s: Seq<char>, p: spec_fn(char) -> bool) -> Seq<char>
    decreases s.len(),
{
    if s.len() > 0 && p(s.last()) {
        rtrim_by(s.drop_last(), p)
    } else {
        s
    }
}

/// `s` with leading and trailing characters satisfying `p` removed.
pub open spec fn trim_by(s: Seq<char>, p: spec_fn(char) -> bool) -> Seq<char> {
    rtrim_by(ltrim_by(s, p), p)
}

/// `s` with surrounding whitespace removed.
pub open spec fn trim_spec(s: Seq<char>) -> Seq<char> {
    trim_by(s, |c: char| is_wspace(c))
}

proof fn lemma_ltrim_by_subrange(s: Seq<char>, p: spec_fn(char) -> bool, a: int)
    requires
        0 <= a <= s.len(),
        forall|k: int| 0 <= k < a ==> p(s[k]),
        a == s.len() || !p(s[a]),
    ensures
        ltrim_by(s, p) == s.subrange(a, s.len() as int),
    decreases a,
{
    if a == 0 {
        assert(s.subrange(0, s.len() as int) =~= s);
    } else {
        lemma_ltrim_by_subrange(s.skip(1), p, a - 1);
        assert(s.skip(1).subrange(a - 1, s.skip(1).len() as int) =~= s.subrange(
            a,
            s.len() as int,
        ));
    }
}

proof fn lemma_rtrim_by_subrange(s: Seq<char>, p: spec_fn(char) -> bool, b: int)
    requires
        0 <= b <= s.len(),
        forall|k: int| b <= k < s.len() ==> p(s[k]),
        b == 0 || !p(s[b - 1]),
    ensures
        rtrim_by(s, p) == s.subrange(0, b),
    decreases s.len() - b,
{
    if b == s.len() {
        assert(s.subrange(0, b) =~= s);
    } else {
        assert(p(s.last()));
        lemma_rtrim_by_subrange(s.drop_last(), p, b);
        assert(s.drop_last().subrange(0, b) =~= s.subrange(0, b));
    }
}

/// Remove the characters accepted by `keep_trimming` from both ends of `s`,
/// where `accept` must agree with the spec predicate `p`.
#[verifier::loop_isolation(false)]
fn trim_matching(s: &str, c: char) -> (r: &str)
    ensures
        r@ == trim_by(s@, |x: char| x == c),
{
    let ghost p = |x: char| x == c;
    let len = s.unicode_len();
    let mut a: usize = 0;
    while a < len && s.get_char(a) == c
        invariant
            len == s@.len(),
            0 <= a <= len,
            forall|k: int| 0 <= k < a ==> p(s@[k]),
        decreases len - a,
    {
        proof {
            assert(p(s@[a as int]));
        }
        a = a + 1;
    }
    proof {
        lemma_ltrim_by_subrange(s@, p, a as int);
    }
    let mut b: usize = len;
    while b > a && s.get_char(b - 1) == c
        invariant
            len == s@.len(),
            a <= b <= len,
            a == len || !p(s@[a as int]),
            forall|k: int| b <= k < len ==> p(s@[k]),
        decreases b,
    {
        proof {
            assert(p(s@[b as int - 1]));
        }
        b = b - 1;
    }
    let ghost t = s@.subrange(a as int, len as int);
    proof {
        assert forall|k: int| (b - a) <= k < t.len() implies p(t[k]) by {
            assert(t[k] == s@[k + a]);
        }
        if b > a {
            assert(t[b - a - 1] == s@[b as int - 1]);
        }
        lemma_rtrim_by_subrange(t, p, b - a);
        assert(t.subrange(0, b - a) =~= s@.subrange(a as int, b as int));
    }
    s.substring_char(a, b)
}

/// Remove surrounding whitespace.
#[verifier::loop_isolation(false)]
pub fn trim_str(s: &str) -> (r: &str)
    ensures
        r@ == trim_spec(s@),
{
    let ghost p = |x: char| is_wspace(x);
    let len = s.unicode_len();
    let mut a: usize = 0;
    while a < len && is_wspace_char(s.get_char(a))
        invariant
            len == s@.len(),
            0 <= a <= len,
            forall|k: int| 0 <= k < a ==> p(s@[k]),
        decreases len - a,
    {
        proof {
            assert(p(s@[a as int]));
        }
        a = a + 1;
    }
    proof {
        lemma_ltrim_by_subrange(s@, p, a as int);
    }
    let mut b: usize = len;
    while b > a && is_wspace_char(s.get_char(b - 1))
        invariant
            len == s@.len(),
            a <= b <= len,
            a == len || !p(s@[a as int]),
            forall|k: int| b <= k < len ==> p(s@[k]),
        decreases b,
    {
        proof {
            assert(p(s@[b as int - 1]));
        }
        b = b - 1;
    }
    let ghost t = s@.subrange(a as int, len as int);
    proof {
        assert forall|k: int| (b - a) <= k < t.len() implies p(t[k]) by {
            assert(t[k] == s@[k + a]);
        }
        if b > a {
            assert(t[b - a - 1] == s@[b as int - 1]);
        }
        lemma_rtrim_by_subrange(t, p, b - a);
        assert(t.subrange(0, b - a) =~= s@.subrange(a as int, b as int));
    }
    s.substring_char(a, b)
}

/// Strip all leading and trailing backticks, then double quotes, then single
/// quotes, as a commit-message line is cleaned.
pub fn strip_quoting(s: &str) -> (r: &str)
    ensures
        r@ == strip_quoting_spec(s@),
{
    let r1 = trim_matching(s, '`');
    let r2 = trim_matching(r1, '"');
    trim_matching(r2, '\'')
}

/// Specification of `strip_quoting`.
pub open spec fn strip_quoting_spec(s: Seq<char>) -> Seq<char> {
    trim_by(trim_by(trim_by(s, |x: char| x == '`'), |x: char| x == '"'), |x: char| x == '\'')
}

/// Number of characters before the first line feed in `s` (all of `s` when
/// there is none).
pub open spec fn line_break(s: Seq<char>) -> nat
    decreases s.len(),
{
    if s.len() == 0 || s[0] == '\n' {
        0
    } else {
        1 + line_break(s.skip(1))
    }
}

proof fn lemma_line_break_at(s: Seq<char>, j: int)
    requires
        0 <= j <= s.len(),
        forall|k: int| 0 <= k < j ==> s[k] != '\n',
        j == s.len() || s[j] == '\n',
    ensures
        line_break(s) == j,
    decreases j,
{
    if j == 0 {
    } else {
        assert(s[0] != '\n');
        lemma_line_break_at(s.skip(1), j - 1);
    }
}

/// The first line of `s` that is non-empty after trimming, itself trimmed;
/// the empty sequence when there is none. Lines are separated by line feeds.
pub open spec fn first_nonblank_line(s: Seq<char>) -> Seq<char>
    decreases s.len(),
{
    let i = line_break(s) as int;
    let line = trim_spec(s.subrange(0, i));
    if line.len() > 0 {
        line
    } else if i >= s.len() {
        Seq::empty()
    } else {
        first_nonblank_line(s.subrange(i + 1, s.len() as int))
    }
}

/// Find the first line of `s` that is non-empty after trimming, trimmed.
#[verifier::loop_isolation(false)]
pub fn scan_first_nonblank_line(s: &str) -> (r: String)
    ensures
        r@ == first_nonblank_line(s@),
{
    let len = s.unicode_len();
    proof {
        assert(s@.subrange(0, len as int) =~= s@);
    }
    let mut start: usize = 0;
    loop
        invariant
            len == s@.len(),
            0 <= start <= len,
            first_nonblank_line(s@) == first_nonblank_line(
                s@.subrange(start as int, len as int),
            ),
        decreases len - start,
    {
        let ghost t = s@.subrange(start as int, len as int);
        let mut e: usize = start;
        while e < len && s.get_char(e) != '\n'
            invariant
                start <= e <= len,
                forall|k: int| start <= k < e ==> s@[k] != '\n',
            decreases len - e,
        {
            e = e + 1;
        }
        proof {
            assert forall|k: int| 0 <= k < e - start implies t[k] != '\n' by {
                assert(t[k] == s@[k + start]);
            }
            if e < len {
                assert(t[e - start] == s@[e as int]);
            }
            lemma_line_break_at(t, e - start);
            assert(t.subrange(0, e - start) =~= s@.subrange(start as int, e as int));
        }
        let line = trim_str(s.substring_char(start, e));
        if line.unicode_len() > 0 {
            return line.to_owned();
        }
        if e == len {
            return String::new();
        }
        proof {
            assert(t.subrange(e - start + 1, t.len() as int) =~= s@.subrange(
                e + 1,
                len as int,
            ));
        }
        start = e + 1;
    }
}

/// `l` with one trailing carriage return removed, as a line separator of
/// "\r\n" leaves it.
pub open spec fn strip_cr(l: Seq<char>) -> Seq<char> {
    if l.len() > 0 && l.last() == '\r' {
        l.drop_last()
    } else {
        l
    }
}

/// The lines of `s`: split at line feeds, one trailing carriage return
/// removed from each line, no empty line after a trailing line feed.
pub open spec fn line_seq(s: Seq<char>) -> Seq<Seq<char>>
    decreases s.len(),
{
    if s.len() == 0 {
        Seq::empty()
    } else {
        let i = line_break(s) as int;
        let ln = strip_cr(s.subrange(0, i));
        if i >= s.len() {
            seq![ln]
        } else {
            seq![ln] + line_seq(s.subrange(i + 1, s.len() as int))
        }
    }
}

/// The decimal digit character for `d`.
pub open spec fn dec_digit(d: int) -> char {
    if d == 0 {
        '0'
    } else if d == 1 {
        '1'
    } else if d == 2 {
        '2'
    } else if d == 3 {
        '3'
    } else if d == 4 {
        '4'
    } else if d == 5 {
        '5'
    } else if d == 6 {
        '6'
    } else if d == 7 {
        '7'
    } else if d == 8 {
        '8'
    } else {
        '9'
    }
}

/// The decimal rendering of `n`, most significant digit first.
pub open spec fn dec_str(n: nat) -> Seq<char>
    decreases n,
{
    if n < 10 {
        seq![dec_digit(n as int)]
    } else {
        dec_str(n / 10) + seq![dec_digit((n % 10) as int)]
    }
}

fn digit_str(d: u64) -> (r: &'static str)
    requires
        d < 10,
    ensures
        r@ == seq![dec_digit(d as int)],
{
    proof {
        reveal_strlit("0");
        reveal_strlit("1");
        reveal_strlit("2");
        reveal_strlit("3");
        reveal_strlit("4");
        reveal_strlit("5");
        reveal_strlit("6");
        reveal_strlit("7");
        reveal_strlit("8");
        reveal_strlit("9");
    }
    let r: &'static str = if d == 0 {
        "0"
    } else if d == 1 {
        "1"
    } else if d == 2 {
        "2"
    } else if d == 3 {
        "3"
    } else if d == 4 {
        "4"
    } else if d == 5 {
        "5"
    } else if d == 6 {
        "6"
    } else if d == 7 {
        "7"
    } else if d == 8 {
        "8"
    } else {
        "9"
    };
    proof {
        assert(r@ =~= seq![dec_digit(d as int)]);
    }
    r
}

/// Render `n` in decimal.
pub fn u64_to_string(n: u64) -> (s: String)
    ensures
        s@ == dec_str(n as nat),
    decreases n,
{
    if n < 10 {
        digit_str(n).to_owned()
    } else {
        proof {
            assert(n / 10 < n) by (nonlinear_arith)
                requires
                    n >= 10,
            ;
        }
        let mut s = u64_to_string(n / 10);
        s.append(digit_str(n % 10));
        proof {
            assert(s@ =~= dec_str(n as nat));
        }
        s
    }
}

/// Render `n` in decimal.
pub fn u32_to_string(n: u32) -> (s: String)
    ensures
        s@ == dec_str(n as nat),
{
    u64_to_string(n as u64)
}

/// The first `n` characters of `s` (all of `s` when it is shorter).
pub open spec fn take_chars(s: Seq<char>, n: int) -> Seq<char> {
    if s.len() <= n {
        s
    } else {
        s.subrange(0, n)
    }
}

/// Truncate `s` to at most `n` characters.
pub fn truncate_chars(s: &str, n: usize) -> (r: &str)
    ensures
        r@ == take_chars(s@, n as int),
{
    let len = s.unicode_len();
    if len <= n {
        assert(s@.subrange(0, s@.len() as int) =~= s@);
        s.substring_char(0, len)
    } else {
        s.substring_char(0, n)
    }
}

} // verus!


use vstd::prelude::*;

verus! {

/// Character-for-character string equality.
pub fn str_eq(a: &str, b: &str) -> (r: bool)
    ensures
        r == (a@ == b@),
{
    let a_len = a.unicode_len();
    let b_len = b.unicode_len();
    if a_len != b_len {
        return false;
    }
    let mut i: usize = 0;
    while i < a_len
        invariant
            a_len == a@.len(),
            b_len == b@.len(),
            a_len == b_len,
            0 <= i <= a_len,
            forall|k: int| 0 <= k < i ==> a@[k] == b@[k],
        decreases a_len - i,
    {
        if a.get_char(i) != b.get_char(i) {
            return false;
        }
        i = i + 1;
    }
    proof {
        assert(a@ =~= b@);
    }
    true
}

} // verus!

verus! {

/// The least character index where `n` occurs in `h`, if any, as a recursive
/// function.
pub open spec fn spec_find(h: Seq<char>, n: Seq<char>) -> Option<int>
    decreases h.len(),
{
    if n.len() > h.len() {
        None
    } else if h.subrange(0, n.len() as int) == n {
        Some(0)
    } else if h.len() == 0 {
        None
    } else {
        match spec_find(h.skip(1), n) {
            Some(i) => Some(i + 1),
            None => None,
        }
    }
}

proof fn lemma_contains_at_skip(h: Seq<char>, n: Seq<char>, k: int)
    requires
        k >= 0,
        h.len() >= 1,
    ensures
        contains_at(h.skip(1), n, k) == contains_at(h, n, k + 1),
{
    if k + n.len() <= h.len() - 1 {
        assert(h.skip(1).subrange(k, k + n.len() as int) =~= h.subrange(
            k + 1,
            k + 1 + n.len() as int,
        ));
    } else {
        assert(!contains_at(h.skip(1), n, k));
        assert(!contains_at(h, n, k + 1));
    }
}

/// `spec_find` yields exactly the least occurrence index.
pub proof fn lemma_spec_find_some(h: Seq<char>, n: Seq<char>, i: int)
    requires
        contains_at(h, n, i),
        forall|k: int| 0 <= k < i ==> !contains_at(h, n, k),
    ensures
        spec_find(h, n) == Some(i),
    decreases i,
{
    assert(h.subrange(i, i + n.len() as int) == n);
    if i == 0 {
        assert(h.subrange(0, n.len() as int) == n);
    } else {
        assert(!contains_at(h, n, 0));
        assert(h.subrange(0, n.len() as int) != n);
        lemma_contains_at_skip(h, n, i - 1);
        assert forall|k: int| 0 <= k < i - 1 implies !contains_at(h.skip(1), n, k) by {
            lemma_contains_at_skip(h, n, k);
        }
        lemma_spec_find_some(h.skip(1), n, i - 1);
    }
}

/// `spec_find` yields nothing when `n` does not occur in `h`.
pub proof fn lemma_spec_find_none(h: Seq<char>, n: Seq<char>)
    requires
        !spec_contains(h, n),
    ensures
        spec_find(h, n) is None,
    decreases h.len(),
{
    assert(!contains_at(h, n, 0));
    if n.len() <= h.len() {
        assert(h.subrange(0, n.len() as int) != n);
        if h.len() > 0 {
            assert forall|k: int| 0 <= k implies !contains_at(h.skip(1), n, k) by {
                lemma_contains_at_skip(h, n, k);
                assert(!contains_at(h, n, k + 1));
            }
            lemma_spec_find_none(h.skip(1), n);
        }
    }
}

/// The greatest character index where `c` occurs in `h`, if any.
pub open spec fn spec_rfind_char(h: Seq<char>, c: char) -> Option<int>
    decreases h.len(),
{
    if h.len() == 0 {
        None
    } else if h.last() == c {
        Some(h.len() - 1)
    } else {
        spec_rfind_char(h.drop_last(), c)
    }
}

/// Find the last occurrence of the character `c` in `h`.
#[verifier::loop_isolation(false)]
pub fn rfind_char(h: &str, c: char) -> (r: Option<usize>)
    ensures
        match r {
            Some(i) => spec_rfind_char(h@, c) == Some(i as int) && i < h@.len(),
            None => spec_rfind_char(h@, c) is None,
        },
{
    let len = h.unicode_len();
    proof {
        assert(h@.subrange(0, len as int) =~= h@);
    }
    let mut b: usize = len;
    while b > 0
        invariant
            0 <= b <= len,
            spec_rfind_char(h@, c) == spec_rfind_char(h@.subrange(0, b as int), c),
        decreases b,
    {
        if h.get_char(b - 1) == c {
            proof {
                assert(h@.subrange(0, b as int).last() == h@[b as int - 1]);
            }
            return Some(b - 1);
        }
        proof {
            assert(h@.subrange(0, b as int).last() == h@[b as int - 1]);
            assert(h@.subrange(0, b as int).drop_last() =~= h@.subrange(0, b as int - 1));
        }
        b = b - 1;
    }
    None
}

} // verus!

//! Character-level helpers shared by the parsers: views of strings as
//! character sequences, white space, substring search and tokens.

use vstd::prelude::*;
use vstd::string::StrSliceExecFns;
use vstd::string::StringExecFns;

verus! {

/// Whether `c` carries the Unicode `White_Space` property.
pub open spec fn white_space(c: char) -> bool {
    let u = c as u32;
    ||| 0x09 <= u <= 0x0D
    ||| u == 0x20
    ||| u == 0x85
    ||| u == 0xA0
    ||| u == 0x1680
    ||| 0x2000 <= u <= 0x200A
    ||| u == 0x2028
    ||| u == 0x2029
    ||| u == 0x202F
    ||| u == 0x205F
    ||| u == 0x3000
}

/// Whether `needle` occurs in `hay` starting at index `at`.
pub open spec fn occurs_at(hay: Seq<char>, needle: Seq<char>, at: int) -> bool {
    &&& 0 <= at
    &&& at + needle.len() <= hay.len()
    &&& hay.subrange(at, at + needle.len()) == needle
}

/// Whether `needle` occurs somewhere in `hay` as a contiguous run.
pub open spec fn has_substring(hay: Seq<char>, needle: Seq<char>) -> bool {
    exists|at: int| occurs_at(hay, needle, at)
}

/// Length of the longest prefix of `s` that holds no white space.
pub open spec fn leading_run(s: Seq<char>) -> nat
    decreases s.len(),
{
    if s.len() == 0 || white_space(s[0]) {
        0
    } else {
        1 + leading_run(s.skip(1))
    }
}

/// The maximal runs of characters of `s` that are not white space, in
/// the order in which they occur.
pub open spec fn tokens(s: Seq<char>) -> Seq<Seq<char>>
    decreases s.len(),
    via tokens_decreases
{
    if s.len() == 0 {
        Seq::empty()
    } else if white_space(s[0]) {
        tokens(s.skip(1))
    } else {
        let n = leading_run(s) as int;
        seq![s.take(n)] + tokens(s.skip(n))
    }
}

#[via_fn]
proof fn tokens_decreases(s: Seq<char>) {
    lemma_leading_run_bounds(s);
}

/// A leading run is no longer than its sequence, and is not empty where
/// the sequence starts with a character that is not white space.
pub proof fn lemma_leading_run_bounds(s: Seq<char>)
    ensures
        leading_run(s) <= s.len(),
        s.len() > 0 && !white_space(s[0]) ==> leading_run(s) >= 1,
    decreases s.len(),
{
    if s.len() > 0 && !white_space(s[0]) {
        lemma_leading_run_bounds(s.skip(1));
    }
}

/// The leading run of `s` has length `n` where the first `n` characters
/// hold no white space and the run cannot go on.
pub proof fn lemma_leading_run_is(s: Seq<char>, n: int)
    requires
        0 <= n <= s.len(),
        forall|k: int| 0 <= k < n ==> !white_space(s[k]),
        n == s.len() || white_space(s[n]),
    ensures
        leading_run(s) == n,
    decreases n,
{
    if n > 0 {
        lemma_leading_run_is(s.skip(1), n - 1);
    }
}

/// Every token is a non-empty run without white space.
pub proof fn lemma_tokens_are_runs(s: Seq<char>)
    ensures
        forall|i: int|
            0 <= i < tokens(s).len() ==> {
                &&& (#[trigger] tokens(s)[i]).len() > 0
                &&& forall|k: int| 0 <= k < tokens(s)[i].len() ==> !white_space(tokens(s)[i][k])
            },
    decreases s.len(),
{
    if s.len() == 0 {
        assert(tokens(s).len() == 0);
    } else if white_space(s[0]) {
        lemma_tokens_are_runs(s.skip(1));
        assert(tokens(s) == tokens(s.skip(1)));
    } else {
        let n = leading_run(s) as int;
        lemma_leading_run_bounds(s);
        lemma_leading_run_clean(s);
        lemma_tokens_are_runs(s.skip(n));
        let rest = tokens(s.skip(n));
        assert forall|i: int| 0 <= i < tokens(s).len() implies {
            &&& (#[trigger] tokens(s)[i]).len() > 0
            &&& forall|k: int| 0 <= k < tokens(s)[i].len() ==> !white_space(tokens(s)[i][k])
        } by {
            if i == 0 {
                assert(tokens(s)[0] == s.take(n));
            } else {
                assert(tokens(s)[i] == rest[i - 1]);
            }
        }
    }
}

/// No character of the leading run is white space.
pub proof fn lemma_leading_run_clean(s: Seq<char>)
    ensures
        forall|k: int| 0 <= k < leading_run(s) ==> !white_space(s[k]),
    decreases s.len(),
{
    if s.len() > 0 && !white_space(s[0]) {
        lemma_leading_run_clean(s.skip(1));
        lemma_leading_run_bounds(s);
        assert forall|k: int| 0 <= k < leading_run(s) implies !white_space(s[k]) by {
            if k > 0 {
                assert(s[k] == s.skip(1)[k - 1]);
            }
        }
    }
}

/// A text of white space alone, the empty text among them, holds no
/// token.
pub proof fn lemma_blank_has_no_tokens(s: Seq<char>)
    requires
        forall|k: int| 0 <= k < s.len() ==> white_space(s[k]),
    ensures
        tokens(s) == Seq::<Seq<char>>::empty(),
    decreases s.len(),
{
    if s.len() > 0 {
        lemma_blank_has_no_tokens(s.skip(1));
    }
}

/// The digit that stands for `d`, for `d` under ten.
pub open spec fn digit_char(d: nat) -> char {
    (0x30 + d) as char
}

/// The usual way to write `n` in base ten, without leading zeros.
pub open spec fn decimal_text(n: nat) -> Seq<char>
    decreases n,
{
    if n < 10 {
        seq![digit_char(n)]
    } else {
        decimal_text(n / 10).push(digit_char(n % 10))
    }
}

/// The views of the strings of `v`.
pub open spec fn views_of(v: Seq<String>) -> Seq<Seq<char>> {
    v.map_values(|s: String| s@)
}

/// The characters of `s`, in order.
pub fn chars_of(s: &str) -> (v: Vec<char>)
    ensures
        v@ == s@,
{
    let mut v: Vec<char> = Vec::new();
    for c in it: s.chars()
        invariant
            v@ == it.seq().take(it.index() as int),
            it.seq() == s@,
    {
        v.push(c);
    }
    v
}

/// Tests for the Unicode `White_Space` property.
pub fn is_white_space(c: char) -> (r: bool)
    ensures
        r == white_space(c),
{
    let u: u32 = c as u32;
    (0x09 <= u && u <= 0x0D) || u == 0x20 || u == 0x85 || u == 0xA0 || u == 0x1680 || (0x2000 <= u
        && u <= 0x200A) || u == 0x2028 || u == 0x2029 || u == 0x202F || u == 0x205F || u == 0x3000
}

/// Whether `needle` occurs in `hay` at index `at`.
fn matches_at(hay: &Vec<char>, needle: &Vec<char>, at: usize) -> (r: bool)
    requires
        at + needle@.len() <= hay@.len(),
    ensures
        r == occurs_at(hay@, needle@, at as int),
{
    let hay_len = hay.len();
    let mut k: usize = 0;
    while k < needle.len()
        invariant
            k <= needle@.len(),
            hay_len == hay@.len(),
            at + needle@.len() <= hay@.len(),
            forall|j: int| 0 <= j < k ==> hay@[at + j] == needle@[j],
        decreases needle@.len() - k,
    {
        if hay[at + k] != needle[k] {
            assert(hay@.subrange(at as int, at + needle@.len())[k as int] != needle@[k as int]);
            return false;
        }
        k += 1;
    }
    assert(hay@.subrange(at as int, at + needle@.len()) =~= needle@);
    true
}

/// Whether `a` and `b` hold the same characters.
pub fn same_text(a: &str, b: &str) -> (r: bool)
    ensures
        r == (a@ == b@),
{
    let x = chars_of(a);
    let y = chars_of(b);
    if x.len() != y.len() {
        return false;
    }
    let r = matches_at(&x, &y, 0);
    assert(x@.subrange(0, y@.len() as int) =~= x@);
    r
}

/// Substring test on characters: whether `needle` occurs in `hay`.
pub fn contains(hay: &str, needle: &str) -> (r: bool)
    ensures
        r == has_substring(hay@, needle@),
{
    let h = chars_of(hay);
    let n = chars_of(needle);
    if n.len() > h.len() {
        return false;
    }
    let last: usize = h.len() - n.len();
    let mut at: usize = 0;
    loop
        invariant
            last == h@.len() - n@.len(),
            at <= last,
            h@ == hay@,
            n@ == needle@,
            forall|j: int| 0 <= j < at ==> !occurs_at(h@, n@, j),
        decreases last - at,
    {
        if matches_at(&h, &n, at) {
            return true;
        }
        if at == last {
            return false;
        }
        at += 1;
    }
}

/// Splits `raw` on white space.
pub fn split_tokens(raw: &str) -> (out: Vec<String>)
    ensures
        views_of(out@) == tokens(raw@),
{
    let cs = chars_of(raw);
    let n = cs.len();
    let mut out: Vec<String> = Vec::new();
    let mut i: usize = 0;
    assert(raw@.skip(0) =~= raw@);
    assert(views_of(out@) =~= Seq::<Seq<char>>::empty());
    while i < n
        invariant
            i <= n,
            cs@ == raw@,
            n == cs@.len(),
            tokens(raw@) == views_of(out@) + tokens(raw@.skip(i as int)),
        decreases n - i,
    {
        let ghost rest = raw@.skip(i as int);
        if is_white_space(cs[i]) {
            assert(rest.skip(1) =~= raw@.skip(i + 1));
            i += 1;
        } else {
            let start = i;
            let mut j: usize = i + 1;
            while j < n && !is_white_space(cs[j])
                invariant
                    start < j <= n,
                    cs@ == raw@,
                    n == cs@.len(),
                    forall|k: int| start <= k < j ==> !white_space(cs@[k]),
                decreases n - j,
            {
                j += 1;
            }
            let token = String::from_str(raw.substring_char(start, j));
            proof {
                lemma_leading_run_is(rest, j - start);
                assert(rest.take(j - start) =~= raw@.subrange(start as int, j as int));
                assert(rest.skip(j - start) =~= raw@.skip(j as int));
                assert(views_of(out@.push(token)) =~= views_of(out@).push(token@));
                assert(views_of(out@).push(token@) + tokens(raw@.skip(j as int)) =~= views_of(out@)
                    + (seq![token@] + tokens(raw@.skip(j as int))));
            }
            out.push(token);
            i = j;
        }
    }
    assert(raw@.skip(n as int) =~= Seq::<char>::empty());
    assert(views_of(out@) + Seq::<Seq<char>>::empty() =~= views_of(out@));
    out
}

/// Writes `n` in base ten behind what `out` holds.
pub fn push_decimal(out: &mut String, n: u32)
    ensures
        final(out)@ == old(out)@ + decimal_text(n as nat),
    decreases n,
{
    if n >= 10 {
        push_decimal(out, n / 10);
    }
    let d: usize = (n % 10) as usize;
    proof {
        reveal_strlit("0123456789");
    }
    let digit = "0123456789".substring_char(d, d + 1);
    proof {
        assert(digit@ =~= seq![digit_char(d as nat)]);
        if n >= 10 {
            assert(old(out)@ + decimal_text((n / 10) as nat) + digit@ =~= old(out)@ + decimal_text(
                n as nat,
            ));
        }
    }
    out.append(digit);
}

/// `n` written in base ten.
pub fn decimal_string(n: u32) -> (r: String)
    ensures
        r@ == decimal_text(n as nat),
{
    let mut r = String::new();
    push_decimal(&mut r, n);
    assert(Seq::<char>::empty() + decimal_text(n as nat) =~= decimal_text(n as nat));
    r
}

} // verus!

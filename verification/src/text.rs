//! Small verified text utilities shared by the other modules: decimal
//! rendering of integers and substring search, with exact specifications.

use vstd::prelude::*;
use vstd::string::*;

verus! {

/// The decimal digit character for a value below ten.
pub open spec fn digit_char(d: nat) -> char {
    if d == 0 {
        '0'
    } else if d == 1 {
        '1'
    } else if d == 2 {
        '2'
    } else if d == 3 {
        '3'
    } else if d == 4 {
        '4'
    } else if d == 5 {
        '5'
    } else if d == 6 {
        '6'
    } else if d == 7 {
        '7'
    } else if d == 8 {
        '8'
    } else {
        '9'
    }
}

/// The usual decimal rendering of a natural number, most significant digit
/// first, with no leading zeros (except for zero itself).
pub open spec fn dec_digits(n: nat) -> Seq<char>
    decreases n,
{
    if n < 10 {
        seq![digit_char(n)]
    } else {
        dec_digits(n / 10).push(digit_char(n % 10))
    }
}

/// The decimal rendering of an integer: a minus sign, if negative, then the
/// digits of the magnitude.
pub open spec fn int_digits(i: int) -> Seq<char> {
    if i >= 0 {
        dec_digits(i as nat)
    } else {
        seq!['-'] + dec_digits((-i) as nat)
    }
}

fn digit_str(d: u64) -> (r: &'static str)
    requires
        d < 10,
    ensures
        r@ == seq![digit_char(d as nat)],
{
    let r: &'static str = if d == 0 {
        "0"
    } else if d == 1 {
        "1"
    } else if d == 2 {
        "2"
    } else if d == 3 {
        "3"
    } else if d == 4 {
        "4"
    } else if d == 5 {
        "5"
    } else if d == 6 {
        "6"
    } else if d == 7 {
        "7"
    } else if d == 8 {
        "8"
    } else {
        "9"
    };
    proof {
        reveal_strlit("0");
        reveal_strlit("1");
        reveal_strlit("2");
        reveal_strlit("3");
        reveal_strlit("4");
        reveal_strlit("5");
        reveal_strlit("6");
        reveal_strlit("7");
        reveal_strlit("8");
        reveal_strlit("9");
        assert(r@ =~= seq![digit_char(d as nat)]);
    }
    r
}

/// Renders an unsigned integer in decimal.
pub fn u64_to_string(n: u64) -> (r: String)
    ensures
        r@ == dec_digits(n as nat),
    decreases n,
{
    if n < 10 {
        digit_str(n).to_owned()
    } else {
        let mut s = u64_to_string(n / 10);
        s.append(digit_str(n % 10));
        proof {
            assert(s@ =~= dec_digits(n as nat));
        }
        s
    }
}

/// Renders a signed integer in decimal.
pub fn i64_to_string(n: i64) -> (r: String)
    ensures
        r@ == int_digits(n as int),
{
    if n >= 0 {
        let r = u64_to_string(n as u64);
        r
    } else {
        let magnitude: u64 = ((-(n + 1)) as u64) + 1;
        proof {
            assert(magnitude as int == -(n as int));
        }
        let mut s = "-".to_owned();
        let digits = u64_to_string(magnitude);
        s.append(digits.as_str());
        proof {
            reveal_strlit("-");
            assert(s@ =~= int_digits(n as int));
        }
        s
    }
}

/// True when `pat` occurs in `s` starting at position `at`.
pub open spec fn matches_at(s: Seq<char>, pat: Seq<char>, at: int) -> bool {
    0 <= at && at + pat.len() <= s.len() && s.subrange(at, at + pat.len()) == pat
}

/// True when `pat` occurs somewhere in `s`.
pub open spec fn contains_seq(s: Seq<char>, pat: Seq<char>) -> bool {
    exists|at: int| matches_at(s, pat, at)
}

/// Whether `pat` occurs in `s` starting exactly at `at`.
fn check_match(s: &str, pat: &str, at: usize) -> (r: bool)
    requires
        at + pat@.len() <= s@.len(),
    ensures
        r == matches_at(s@, pat@, at as int),
{
    let s_len = s.unicode_len();
    let pat_len = pat.unicode_len();
    let mut i: usize = 0;
    while i < pat_len
        invariant
            i <= pat_len,
            s_len == s@.len(),
            pat_len == pat@.len(),
            at + pat_len <= s_len,
            forall|j: int| 0 <= j < i ==> s@[at + j] == pat@[j],
        decreases pat_len - i,
    {
        if s.get_char(at + i) != pat.get_char(i) {
            assert(s@.subrange(at as int, at + pat@.len())[i as int] != pat@[i as int]);
            return false;
        }
        i = i + 1;
    }
    proof {
        assert(s@.subrange(at as int, at + pat@.len()) =~= pat@);
    }
    true
}

/// Character-wise string equality.
pub fn str_eq(a: &str, b: &str) -> (r: bool)
    ensures
        r == (a@ == b@),
{
    let a_len = a.unicode_len();
    let b_len = b.unicode_len();
    if a_len != b_len {
        return false;
    }
    let mut i: usize = 0;
    while i < a_len
        invariant
            i <= a_len,
            a_len == a@.len(),
            a_len == b@.len(),
            forall|j: int| 0 <= j < i ==> a@[j] == b@[j],
        decreases a_len - i,
    {
        if a.get_char(i) != b.get_char(i) {
            return false;
        }
        i = i + 1;
    }
    proof {
        assert(a@ =~= b@);
    }
    true
}

/// A string without its leading and trailing whitespace; the result depends
/// on the characters alone.
pub uninterp spec fn trimmed_of(s: Seq<char>) -> Seq<char>;

/// Relies on str::trim: the input without leading and trailing whitespace.
#[verifier::external_body]
pub(crate) fn trim_str(s: &str) -> (r: String)
    ensures
        r@ == trimmed_of(s@),
        s@.len() == 0 ==> r@.len() == 0,
{
    s.trim().to_owned()
}

/// Removes every occurrence of one character.
pub open spec fn without_char(s: Seq<char>, c: char) -> Seq<char>
    decreases s.len(),
{
    if s.len() == 0 {
        Seq::empty()
    } else if s.last() == c {
        without_char(s.drop_last(), c)
    } else {
        without_char(s.drop_last(), c).push(s.last())
    }
}

/// Copies a string, dropping every occurrence of one character.
pub fn remove_char(s: &str, c: char) -> (r: String)
    ensures
        r@ == without_char(s@, c),
{
    let len = s.unicode_len();
    let mut out = String::new();
    let mut i: usize = 0;
    proof {
        assert(without_char(s@.take(0), c) =~= Seq::<char>::empty());
    }
    while i < len
        invariant
            i <= len,
            len == s@.len(),
            out@ == without_char(s@.take(i as int), c),
        decreases len - i,
    {
        let ch = s.get_char(i);
        if ch != c {
            out.append(s.substring_char(i, i + 1));
            proof {
                assert(s@.subrange(i as int, i as int + 1) =~= seq![s@[i as int]]);
                assert(out@ =~= without_char(s@.take(i as int), c).push(s@[i as int]));
            }
        }
        proof {
            assert(s@.take(i as int + 1).drop_last() =~= s@.take(i as int));
            assert(s@.take(i as int + 1).last() == s@[i as int]);
        }
        i = i + 1;
    }
    proof {
        assert(s@.take(len as int) =~= s@);
    }
    out
}

/// Whether `prefix` is a prefix of `s`.
pub fn str_starts_with(s: &str, prefix: &str) -> (r: bool)
    ensures
        r == (s@.len() >= prefix@.len() && s@.take(prefix@.len() as int) == prefix@),
{
    let s_len = s.unicode_len();
    let p_len = prefix.unicode_len();
    if p_len > s_len {
        return false;
    }
    let r = check_match(s, prefix, 0);
    proof {
        assert(s@.subrange(0, prefix@.len() as int) =~= s@.take(prefix@.len() as int));
    }
    r
}

/// Substring search: whether `pat` occurs anywhere in `s`.
pub fn str_contains(s: &str, pat: &str) -> (r: bool)
    ensures
        r == contains_seq(s@, pat@),
{
    let s_len = s.unicode_len();
    let pat_len = pat.unicode_len();
    if pat_len > s_len {
        proof {
            assert(forall|at: int| !matches_at(s@, pat@, at));
        }
        return false;
    }
    if pat_len == 0 {
        proof {
            assert(s@.subrange(0, 0) =~= pat@);
            assert(matches_at(s@, pat@, 0));
        }
        return true;
    }
    let mut at: usize = 0;
    while at <= s_len - pat_len
        invariant
            0 < pat_len <= s_len,
            s_len == s@.len(),
            pat_len == pat@.len(),
            at <= s_len - pat_len + 1,
            forall|j: int| 0 <= j < at ==> !matches_at(s@, pat@, j),
        decreases s_len - at,
    {
        if check_match(s, pat, at) {
            return true;
        }
        at = at + 1;
    }
    proof {
        assert(forall|j: int| 0 <= j ==> j < at ==> !matches_at(s@, pat@, j));
        assert(forall|j: int| !matches_at(s@, pat@, j));
    }
    false
}

/// The index of the first newline in a text, or its length when it has
/// none.
pub open spec fn first_nl(s: Seq<char>) -> int
    decreases s.len(),
{
    if s.len() == 0 {
        0
    } else if s[0] == '\n' {
        0
    } else {
        1 + first_nl(s.skip(1))
    }
}

/// The first newline's index is in range, nothing before it is a newline,
/// and it lands on a newline unless the text has none.
pub proof fn lemma_first_nl(s: Seq<char>)
    ensures
        0 <= first_nl(s) <= s.len(),
        forall|i: int| 0 <= i < first_nl(s) ==> s[i] != '\n',
        first_nl(s) < s.len() ==> s[first_nl(s)] == '\n',
    decreases s.len(),
{
    if s.len() > 0 && s[0] != '\n' {
        lemma_first_nl(s.skip(1));
        assert forall|i: int| 0 <= i < first_nl(s) implies s[i] != '\n' by {
            if i > 0 {
                assert(s.skip(1)[i - 1] == s[i]);
            }
        }
    }
}

/// A scan that finds no newline before `k`, and a newline (or the end) at
/// `k`, has found the first newline.
pub proof fn lemma_first_nl_at(s: Seq<char>, k: int)
    requires
        0 <= k <= s.len(),
        forall|i: int| 0 <= i < k ==> s[i] != '\n',
        k < s.len() ==> s[k] == '\n',
    ensures
        first_nl(s) == k,
    decreases s.len(),
{
    if s.len() > 0 && s[0] != '\n' {
        assert forall|i: int| 0 <= i < k - 1 implies s.skip(1)[i] != '\n' by {
            assert(s.skip(1)[i] == s[i + 1]);
        }
        lemma_first_nl_at(s.skip(1), k - 1);
    }
}

/// A line as the final strip step leaves it: without one carriage return
/// that stood directly before the newline.
pub open spec fn strip_cr(s: Seq<char>) -> Seq<char> {
    if s.len() > 0 && s.last() == '\r' {
        s.drop_last()
    } else {
        s
    }
}

/// The lines of a text: split at each newline, one carriage return stripped
/// directly before a newline, no final empty line for a trailing newline,
/// and a line without a terminator kept as it stands.
pub open spec fn lines_of(s: Seq<char>) -> Seq<Seq<char>>
    decreases s.len(),
    via lines_of_decreases
{
    if s.len() == 0 {
        Seq::empty()
    } else {
        let k = first_nl(s);
        if k == s.len() {
            seq![s]
        } else {
            seq![strip_cr(s.take(k))] + lines_of(s.skip(k + 1))
        }
    }
}

#[via_fn]
proof fn lines_of_decreases(s: Seq<char>) {
    lemma_first_nl(s);
}

/// There are never more lines than characters.
pub proof fn lemma_lines_of_len(s: Seq<char>)
    ensures
        lines_of(s).len() <= s.len(),
    decreases s.len(),
{
    lemma_first_nl(s);
    if s.len() > 0 && first_nl(s) < s.len() {
        lemma_lines_of_len(s.skip(first_nl(s) + 1));
    }
}

/// The first newline at or after a position, or the length when there is
/// none from that position on.
fn find_nl(s: &str, from: usize) -> (r: usize)
    requires
        from <= s@.len(),
    ensures
        from <= r <= s@.len(),
        forall|i: int| from <= i < r ==> s@[i] != '\n',
        r < s@.len() ==> s@[r as int] == '\n',
{
    let len = s.unicode_len();
    let mut k = from;
    while k < len
        invariant
            from <= k <= len,
            len == s@.len(),
            forall|i: int| from <= i < k ==> s@[i] != '\n',
        decreases len - k,
    {
        if s.get_char(k) == '\n' {
            return k;
        }
        k = k + 1;
    }
    k
}

/// Splits a text into its lines, as `lines_of` describes them.
pub fn split_lines(s: &str) -> (r: Vec<String>)
    ensures
        r@.map_values(|l: String| l@) == lines_of(s@),
{
    let len = s.unicode_len();
    let mut out: Vec<String> = Vec::new();
    let mut pos: usize = 0;
    proof {
        assert(out@.map_values(|l: String| l@) =~= Seq::<Seq<char>>::empty());
        assert(s@.skip(0) =~= s@);
    }
    while pos < len
        invariant
            pos <= len,
            len == s@.len(),
            out@.map_values(|l: String| l@) + lines_of(s@.skip(pos as int)) == lines_of(s@),
        decreases len - pos,
    {
        let ghost t = s@.skip(pos as int);
        let k = find_nl(s, pos);
        proof {
            assert forall|i: int| 0 <= i < k - pos implies t[i] != '\n' by {
                assert(t[i] == s@[pos + i]);
            }
            if (k as int) - (pos as int) < t.len() {
                assert(t[k - pos] == s@[k as int]);
            }
            lemma_first_nl_at(t, k as int - pos as int);
        }
        if k == len {
            let seg = s.substring_char(pos, k).to_owned();
            out.push(seg);
            proof {
                assert(s@.subrange(pos as int, k as int) =~= t);
                assert(lines_of(t) =~= seq![t]);
                assert(out@.map_values(|l: String| l@) + lines_of(s@.skip(len as int))
                    =~= lines_of(s@));
            }
            pos = len;
        } else {
            let strip = k > pos && s.get_char(k - 1) == '\r';
            let seg_end = if strip {
                k - 1
            } else {
                k
            };
            let seg = s.substring_char(pos, seg_end).to_owned();
            out.push(seg);
            proof {
                assert(t.take(k - pos) =~= s@.subrange(pos as int, k as int));
                if strip {
                    assert(t.take(k - pos).last() == '\r');
                    assert(strip_cr(t.take(k - pos)) =~= s@.subrange(
                        pos as int,
                        seg_end as int,
                    ));
                } else {
                    if k > pos {
                        assert(t.take(k - pos).last() == s@[k - 1]);
                    }
                    assert(strip_cr(t.take(k - pos)) =~= s@.subrange(
                        pos as int,
                        seg_end as int,
                    ));
                }
                assert(t.skip(k - pos + 1) =~= s@.skip(k as int + 1));
                assert(lines_of(t) == seq![strip_cr(t.take(k - pos))] + lines_of(
                    s@.skip(k as int + 1),
                ));
                assert(out@.map_values(|l: String| l@) + lines_of(s@.skip(k as int + 1))
                    =~= lines_of(s@));
            }
            pos = k + 1;
        }
    }
    proof {
        assert(lines_of(s@.skip(pos as int)) =~= Seq::<Seq<char>>::empty());
        assert(out@.map_values(|l: String| l@) =~= lines_of(s@));
    }
    out
}

/// The text that joins these lines with single newlines.
pub open spec fn join_lines(ls: Seq<Seq<char>>) -> Seq<char>
    decreases ls.len(),
{
    if ls.len() == 0 {
        Seq::empty()
    } else if ls.len() == 1 {
        ls[0]
    } else {
        join_lines(ls.drop_last()) + seq!['\n'] + ls.last()
    }
}

/// Joins the first `n` of these lines with single newlines.
pub fn join_first_lines(lines: &Vec<String>, n: usize) -> (r: String)
    requires
        n <= lines@.len(),
    ensures
        r@ == join_lines(lines@.map_values(|l: String| l@).take(n as int)),
{
    let ghost views = lines@.map_values(|l: String| l@);
    let mut out = String::new();
    if n == 0 {
        proof {
            assert(join_lines(views.take(0)) =~= Seq::<char>::empty());
        }
        return out;
    }
    out.append(lines[0].as_str());
    let mut i: usize = 1;
    proof {
        assert(out@ == join_lines(views.take(1)));
    }
    while i < n
        invariant
            1 <= i <= n,
            n <= views.len(),
            views.len() == lines@.len(),
            views == lines@.map_values(|l: String| l@),
            out@ == join_lines(views.take(i as int)),
        decreases n - i,
    {
        out.append("\n");
        out.append(lines[i].as_str());
        proof {
            reveal_strlit("\n");
            assert(views.take(i as int + 1).drop_last() =~= views.take(i as int));
            assert(views.take(i as int + 1).last() == views[i as int]);
            assert("\n"@ =~= seq!['\n']);
            assert(out@ =~= join_lines(views.take(i as int + 1)));
        }
        i = i + 1;
    }
    out
}

} // verus!

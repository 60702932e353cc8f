//! Text helpers: comparing names and writing lengths as decimal millimetres.
use vstd::prelude::*;

verus! {

/// The number of a character, with an ASCII capital taken to its small letter.
pub open spec fn ascii_lower(c: char) -> int {
    if 'A' <= c <= 'Z' {
        c as int + 32
    } else {
        c as int
    }
}

/// Two texts that differ at most in the case of their ASCII letters.
pub open spec fn same_ignoring_ascii_case(a: Seq<char>, b: Seq<char>) -> bool {
    &&& a.len() == b.len()
    &&& forall|i: int| 0 <= i < a.len() ==> ascii_lower(#[trigger] a[i]) == ascii_lower(b[i])
}

fn lower(c: char) -> (r: u32)
    ensures
        r == ascii_lower(c),
{
    if 'A' <= c && c <= 'Z' {
        c as u32 + 32
    } else {
        c as u32
    }
}

/// Whether `a` and `b` are the same text but for the case of ASCII letters.
pub fn eq_ignore_ascii_case(a: &str, b: &str) -> (r: bool)
    ensures
        r == same_ignoring_ascii_case(a@, b@),
{
    let n = a.unicode_len();
    if n != b.unicode_len() {
        return false;
    }
    let mut i: usize = 0;
    while i < n
        invariant
            n == a@.len(),
            n == b@.len(),
            i <= n,
            forall|j: int| 0 <= j < i ==> ascii_lower(#[trigger] a@[j]) == ascii_lower(b@[j]),
        decreases n - i,
    {
        if lower(a.get_char(i)) != lower(b.get_char(i)) {
            return false;
        }
        i += 1;
    }
    true
}

/// Whether `a` and `b` are the same text.
pub fn same_text(a: &str, b: &str) -> (r: bool)
    ensures
        r == (a@ == b@),
{
    let n = a.unicode_len();
    if n != b.unicode_len() {
        return false;
    }
    let mut i: usize = 0;
    while i < n
        invariant
            n == a@.len(),
            n == b@.len(),
            i <= n,
            forall|j: int| 0 <= j < i ==> #[trigger] a@[j] == b@[j],
        decreases n - i,
    {
        if a.get_char(i) != b.get_char(i) {
            return false;
        }
        i += 1;
    }
    assert(a@ =~= b@);
    true
}

/// `s` with every `c` at its end taken off.
pub open spec fn without_trailing(s: Seq<char>, c: char) -> Seq<char>
    decreases s.len(),
{
    if s.len() > 0 && s.last() == c {
        without_trailing(s.drop_last(), c)
    } else {
        s
    }
}

/// A number written with decimals, with its trailing zeros and then a point
/// left bare taken off: `10.00` is `10`, `3.40` is `3.4`.
pub open spec fn trimmed(s: Seq<char>) -> Seq<char> {
    without_trailing(without_trailing(s, '0'), '.')
}

/// The length of `s` once every `c` at its end is taken off.
fn kept_length(s: &str, c: char) -> (n: usize)
    ensures
        n <= s@.len(),
        s@.take(n as int) == without_trailing(s@, c),
{
    let mut n = s.unicode_len();
    assert(s@.take(n as int) =~= s@);
    while n > 0 && s.get_char(n - 1) == c
        invariant
            n <= s@.len(),
            without_trailing(s@.take(n as int), c) == without_trailing(s@, c),
        decreases n,
    {
        assert(s@.take(n as int).drop_last() =~= s@.take(n - 1));
        n -= 1;
    }
    assert(without_trailing(s@.take(n as int), c) == s@.take(n as int));
    n
}

/// `s` with its trailing zeros, and then a point left bare, taken off.
pub fn trim_zeros(s: &str) -> (r: String)
    ensures
        r@ == trimmed(s@),
{
    let n = kept_length(s, '0');
    let digits = s.substring_char(0, n);
    assert(digits@ =~= s@.take(n as int));
    let m = kept_length(digits, '.');
    let number = digits.substring_char(0, m);
    assert(number@ =~= digits@.take(m as int));
    String::from_str(number)
}

/// Taking every `c` off the end of `s` leaves a beginning of `s` that does
/// not end in `c`, and what it takes off is all `c`.
pub proof fn lemma_without_trailing(s: Seq<char>, c: char)
    ensures
        without_trailing(s, c).len() <= s.len(),
        without_trailing(s, c) == s.take(without_trailing(s, c).len() as int),
        without_trailing(s, c).len() > 0 ==> without_trailing(s, c).last() != c,
        forall|i: int| without_trailing(s, c).len() <= i < s.len() ==> #[trigger] s[i] == c,
    decreases s.len(),
{
    if s.len() > 0 && s.last() == c {
        lemma_without_trailing(s.drop_last(), c);
        let w = without_trailing(s.drop_last(), c);
        assert(w == s.take(w.len() as int)) by {
            assert(s.drop_last().take(w.len() as int) =~= s.take(w.len() as int));
        }
        assert forall|i: int| w.len() <= i < s.len() implies #[trigger] s[i] == c by {
            if i < s.len() - 1 {
                assert(s.drop_last()[i] == s[i]);
            }
        }
    } else {
        assert(s.take(s.len() as int) =~= s);
    }
}

} // verus!

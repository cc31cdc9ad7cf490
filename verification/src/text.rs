//! Building status lines out of decimal numbers and fixed words.

use vstd::prelude::*;

verus! {

/// The decimal digit character for `d` in `0..10`.
pub open spec fn digit_char(d: nat) -> char {
    if d == 0 { '0' } else if d == 1 { '1' } else if d == 2 { '2' } else if d == 3 { '3' }
    else if d == 4 { '4' } else if d == 5 { '5' } else if d == 6 { '6' } else if d == 7 { '7' }
    else if d == 8 { '8' } else { '9' }
}

/// The decimal representation of `n`, without leading zeros ("0" for zero).
pub open spec fn decimal(n: nat) -> Seq<char>
    decreases n,
{
    if n < 10 {
        seq![digit_char(n)]
    } else {
        decimal(n / 10).push(digit_char(n % 10))
    }
}

/// Appends one character to a string.
#[verifier::external_body]
fn push_char(s: &mut String, c: char)
    ensures
        final(s)@ == old(s)@.push(c),
{
    s.push(c);
}

fn digit(d: u64) -> (c: char)
    requires
        d < 10,
    ensures
        c == digit_char(d as nat),
{
    if d == 0 { '0' } else if d == 1 { '1' } else if d == 2 { '2' } else if d == 3 { '3' }
    else if d == 4 { '4' } else if d == 5 { '5' } else if d == 6 { '6' } else if d == 7 { '7' }
    else if d == 8 { '8' } else { '9' }
}

/// Appends the decimal representation of `n`.
pub fn push_decimal(s: &mut String, n: u64)
    ensures
        final(s)@ == old(s)@ + decimal(n as nat),
    decreases n,
{
    if n < 10 {
        push_char(s, digit(n));
        assert(old(s)@.push(digit_char(n as nat)) =~= old(s)@ + seq![digit_char(n as nat)]);
    } else {
        push_decimal(s, n / 10);
        push_char(s, digit(n % 10));
        assert(old(s)@ + decimal((n / 10) as nat) + seq![digit_char((n % 10) as nat)]
            =~= old(s)@ + decimal(n as nat));
    }
}

/// Whether two strings hold the same characters.
pub fn str_equals(a: &str, b: &str) -> (r: bool)
    ensures
        r == (a@ == b@),
{
    let n = a.unicode_len();
    if n != b.unicode_len() {
        assert(a@.len() != b@.len());
        return false;
    }
    let mut i: usize = 0;
    while i < n
        invariant
            n == a@.len(),
            n == b@.len(),
            0 <= i <= n,
            forall|j: int| 0 <= j < i ==> a@[j] == b@[j],
        decreases n - i,
    {
        if a.get_char(i) != b.get_char(i) {
            assert(a@[i as int] != b@[i as int]);
            return false;
        }
        i = i + 1;
    }
    assert(a@ =~= b@);
    true
}


/// `pat` occurs in `s` starting at position `i`.
pub open spec fn occurs_at(s: Seq<char>, pat: Seq<char>, i: int) -> bool {
    0 <= i && i + pat.len() <= s.len() && s.subrange(i, i + pat.len()) == pat
}

/// `pat` occurs somewhere in `s` (the empty pattern occurs everywhere).
pub open spec fn contains_seq(s: Seq<char>, pat: Seq<char>) -> bool {
    exists|i: int| occurs_at(s, pat, i)
}

/// The first position at which `pat` occurs in `s`.
pub open spec fn first_occurrence(s: Seq<char>, pat: Seq<char>) -> int {
    choose|i: int| occurs_at(s, pat, i) && forall|j: int| 0 <= j < i ==> !occurs_at(s, pat, j)
}

/// `s` with the first occurrence of `from` replaced by `to`.
pub open spec fn replaced_once(s: Seq<char>, from: Seq<char>, to: Seq<char>) -> Seq<char> {
    let i = first_occurrence(s, from);
    s.subrange(0, i) + to + s.subrange(i + from.len(), s.len() as int)
}

fn occurs_here(s: &str, pat: &str, i: usize, n: usize, m: usize) -> (r: bool)
    requires
        n == s@.len(),
        m == pat@.len(),
        i <= n,
    ensures
        r == occurs_at(s@, pat@, i as int),
{
    if m > n - i {
        return false;
    }
    let mut k: usize = 0;
    while k < m
        invariant
            n == s@.len(),
            m == pat@.len(),
            i + m <= n,
            0 <= k <= m,
            forall|j: int| 0 <= j < k ==> s@[i + j] == pat@[j],
        decreases m - k,
    {
        if s.get_char(i + k) != pat.get_char(k) {
            assert(s@.subrange(i as int, (i + m) as int)[k as int] != pat@[k as int]);
            return false;
        }
        k = k + 1;
    }
    assert(s@.subrange(i as int, (i + m) as int) =~= pat@);
    true
}

/// The first position at which `pat` occurs in `s`, if any.
pub fn find_first(s: &str, pat: &str) -> (r: Option<usize>)
    ensures
        r is None <==> !contains_seq(s@, pat@),
        r matches Some(i) ==> occurs_at(s@, pat@, i as int) && i == first_occurrence(s@, pat@),
{
    let n = s.unicode_len();
    let m = pat.unicode_len();
    if m > n {
        assert forall|j: int| !occurs_at(s@, pat@, j) by {}
        return None;
    }
    if m == 0 {
        assert(s@.subrange(0, 0) =~= pat@);
        assert(occurs_at(s@, pat@, 0));
        assert(first_occurrence(s@, pat@) == 0) by {
            let c = first_occurrence(s@, pat@);
            assert(occurs_at(s@, pat@, 0) && forall|j: int| 0 <= j < 0 ==> !occurs_at(s@, pat@, j));
            assert(occurs_at(s@, pat@, c) && forall|j: int| 0 <= j < c ==> !occurs_at(s@, pat@, j));
            if c > 0 {
                assert(!occurs_at(s@, pat@, 0));
            }
        }
        return Some(0);
    }
    let mut i: usize = 0;
    while i <= n - m
        invariant
            n == s@.len(),
            m == pat@.len(),
            1 <= m <= n,
            0 <= i <= n - m + 1,
            forall|j: int| 0 <= j < i ==> !occurs_at(s@, pat@, j),
        decreases n - m + 1 - i,
    {
        if occurs_here(s, pat, i, n, m) {
            proof {
                let c = first_occurrence(s@, pat@);
                assert(occurs_at(s@, pat@, i as int) && forall|j: int| 0 <= j < i ==> !occurs_at(s@, pat@, j));
                assert(occurs_at(s@, pat@, c) && forall|j: int| 0 <= j < c ==> !occurs_at(s@, pat@, j));
                if c < i {
                    assert(!occurs_at(s@, pat@, c));
                } else if c > i {
                    assert(!occurs_at(s@, pat@, i as int));
                }
            }
            return Some(i);
        }
        i = i + 1;
    }
    proof {
        assert forall|j: int| !occurs_at(s@, pat@, j) by {
            if 0 <= j < i {
            } else if j >= i {
                assert(j + m > n);
            }
        }
    }
    None
}

proof fn lemma_first_occurrence(s: Seq<char>, pat: Seq<char>, k: int)
    requires
        occurs_at(s, pat, k),
    ensures
        occurs_at(s, pat, first_occurrence(s, pat)),
        forall|j: int| 0 <= j < first_occurrence(s, pat) ==> !occurs_at(s, pat, j),
        first_occurrence(s, pat) <= k,
    decreases k,
{
    if exists|j: int| 0 <= j < k && occurs_at(s, pat, j) {
        let j = choose|j: int| 0 <= j < k && occurs_at(s, pat, j);
        lemma_first_occurrence(s, pat, j);
    } else {
        let c = first_occurrence(s, pat);
        assert(occurs_at(s, pat, k) && forall|j: int| 0 <= j < k ==> !occurs_at(s, pat, j));
        assert(occurs_at(s, pat, c) && forall|j: int| 0 <= j < c ==> !occurs_at(s, pat, j));
        if c > k {
            assert(!occurs_at(s, pat, k));
        }
    }
}

/// Whether `pat` occurs in `s`.
pub fn contains_str(s: &str, pat: &str) -> (r: bool)
    ensures
        r == contains_seq(s@, pat@),
{
    find_first(s, pat).is_some()
}

/// Replaces the first occurrence of `from` in `src` by `to`, unless `to`
/// already occurs in it (then `src` is left as it is). One of the two must
/// occur.
pub fn replace_once(src: &mut String, from: &str, to: &str)
    requires
        contains_seq(old(src)@, to@) || contains_seq(old(src)@, from@),
    ensures
        final(src)@ == (if contains_seq(old(src)@, to@) {
            old(src)@
        } else {
            replaced_once(old(src)@, from@, to@)
        }),
{
    if contains_str(src.as_str(), to) {
        return;
    }
    let found = find_first(src.as_str(), from);
    match found {
        Some(i) => {
            let n = src.as_str().unicode_len();
            let m = from.unicode_len();
            let mut out = String::from_str(src.as_str().substring_char(0, i));
            out.append(to);
            out.append(src.as_str().substring_char(i + m, n));
            *src = out;
        },
        None => {},
    }
}

/// Replacing once makes the replacement text occur, so that by the contract
/// of `replace_once` a second call with the same arguments changes nothing.
pub proof fn law_replacement_occurs(s: Seq<char>, from: Seq<char>, to: Seq<char>)
    requires
        contains_seq(s, from),
        !contains_seq(s, to),
    ensures
        contains_seq(replaced_once(s, from, to), to),
{
    let k = choose|k: int| occurs_at(s, from, k);
    lemma_first_occurrence(s, from, k);
    let i = first_occurrence(s, from);
    let r = replaced_once(s, from, to);
    assert(r.subrange(i, i + to.len()) =~= to);
    assert(occurs_at(r, to, i));
}

} // verus!

//! Text utilities over character sequences: search, split and building.

use vstd::prelude::*;

verus! {

/// `pat` occurs in `hay` starting at character index `i`.
pub open spec fn occurs_at(hay: Seq<char>, pat: Seq<char>, i: int) -> bool {
    &&& 0 <= i
    &&& i + pat.len() <= hay.len()
    &&& hay.subrange(i, i + pat.len()) == pat
}

/// The first index at or after `start` where `pat` occurs in `hay`.
pub open spec fn first_match_from(hay: Seq<char>, pat: Seq<char>, start: int) -> Option<int>
    decreases hay.len() + 1 - start,
{
    if start < 0 || start + pat.len() > hay.len() {
        None
    } else if occurs_at(hay, pat, start) {
        Some(start)
    } else {
        first_match_from(hay, pat, start + 1)
    }
}

/// The first index where `pat` occurs in `hay`.
pub open spec fn first_match(hay: Seq<char>, pat: Seq<char>) -> Option<int> {
    first_match_from(hay, pat, 0)
}

/// What `str::split_once` gives: the text before and after the first occurrence of `pat`.
pub open spec fn split_once_spec(s: Seq<char>, pat: Seq<char>) -> Option<(Seq<char>, Seq<char>)> {
    match first_match(s, pat) {
        Some(i) => Some((s.subrange(0, i), s.subrange(i + pat.len(), s.len() as int))),
        None => None,
    }
}

/// `first_match_from` finds the least occurrence at or after `start`.
pub proof fn lemma_first_match_from(hay: Seq<char>, pat: Seq<char>, start: int)
    requires
        0 <= start,
    ensures
        match first_match_from(hay, pat, start) {
            Some(i) => start <= i && occurs_at(hay, pat, i) && forall|j: int|
                start <= j < i ==> !occurs_at(hay, pat, j),
            None => forall|j: int| start <= j ==> !occurs_at(hay, pat, j),
        },
    decreases hay.len() + 1 - start,
{
    if start + pat.len() > hay.len() {
    } else if occurs_at(hay, pat, start) {
    } else {
        lemma_first_match_from(hay, pat, start + 1);
    }
}

/// An occurrence with none before it is the first match.
pub proof fn lemma_first_match_is(hay: Seq<char>, pat: Seq<char>, k: int)
    requires
        occurs_at(hay, pat, k),
        forall|j: int| 0 <= j < k ==> !occurs_at(hay, pat, j),
    ensures
        first_match(hay, pat) == Some(k),
{
    lemma_first_match_from(hay, pat, 0);
}

/// The characters of `s`, in order.
pub fn chars_of(s: &str) -> (v: Vec<char>)
    ensures
        v@ == s@,
{
    broadcast use vstd::string::group_string_axioms;

    let mut v: Vec<char> = Vec::new();
    for c in it: s.chars()
        invariant
            v@ == it.seq().take(it.index()),
    {
        v.push(c);
    }
    v
}

/// Whether `pat` occurs in `hay` at index `i`.
fn matches_at(hay: &Vec<char>, pat: &Vec<char>, i: usize) -> (b: bool)
    requires
        i + pat@.len() <= hay@.len(),
    ensures
        b == occurs_at(hay@, pat@, i as int),
{
    let hay_len = hay.len();
    let mut k: usize = 0;
    while k < pat.len()
        invariant
            i + pat@.len() <= hay@.len(),
            hay@.len() == hay_len,
            k <= pat@.len(),
            forall|j: int| 0 <= j < k ==> hay@[i + j] == pat@[j],
        decreases pat@.len() - k,
    {
        if hay[i + k] != pat[k] {
            assert(hay@.subrange(i as int, i + pat@.len())[k as int] != pat@[k as int]);
            return false;
        }
        k = k + 1;
    }
    assert(hay@.subrange(i as int, i + pat@.len()) =~= pat@);
    true
}

/// The first index where `pat` occurs in `hay`.
pub fn find_chars(hay: &Vec<char>, pat: &Vec<char>) -> (r: Option<usize>)
    ensures
        r matches Some(i) ==> first_match(hay@, pat@) == Some(i as int),
        r is None ==> first_match(hay@, pat@) is None,
{
    if pat.len() > hay.len() {
        return None;
    }
    let last = hay.len() - pat.len();
    let mut i: usize = 0;
    loop
        invariant
            last + pat@.len() == hay@.len(),
            i <= last,
            first_match(hay@, pat@) == first_match_from(hay@, pat@, i as int),
        decreases last - i,
    {
        if matches_at(hay, pat, i) {
            return Some(i);
        }
        if i == last {
            assert(first_match_from(hay@, pat@, i + 1) is None);
            return None;
        }
        i = i + 1;
    }
}

/// `s` split at the first occurrence of `pat`, as `str::split_once` does.
pub fn split_once(s: &str, pat: &str) -> (r: Option<(String, String)>)
    ensures
        match split_once_spec(s@, pat@) {
            Some((a, b)) => r matches Some((x, y)) && x@ == a && y@ == b,
            None => r is None,
        },
{
    let hay = chars_of(s);
    let p = chars_of(pat);
    let hay_len = hay.len();
    match find_chars(&hay, &p) {
        Some(i) => {
            proof {
                lemma_first_match_from(s@, pat@, 0);
                assert(occurs_at(s@, pat@, i as int));
            }
            let before = s.substring_char(0, i);
            let after = s.substring_char(i + p.len(), hay_len);
            Some((String::from_str(before), String::from_str(after)))
        },
        None => None,
    }
}

/// Whether `pat` occurs in `s`, as `str::contains` answers.
pub fn contains(s: &str, pat: &str) -> (b: bool)
    ensures
        b == first_match(s@, pat@) is Some,
{
    let hay = chars_of(s);
    let p = chars_of(pat);
    find_chars(&hay, &p).is_some()
}

/// Whether `s` begins with the character `c`.
pub fn starts_with_char(s: &str, c: char) -> (b: bool)
    ensures
        b == (s@.len() > 0 && s@[0] == c),
{
    s.unicode_len() > 0 && s.get_char(0) == c
}

/// Whether two strings hold the same characters.
pub fn str_eq(a: &str, b: &str) -> (r: bool)
    ensures
        r == (a@ == b@),
{
    let x = String::from_str(a);
    let y = String::from_str(b);
    x == y
}

/// A fresh string holding `a` followed by `b`.
pub fn concat2(a: &str, b: &str) -> (r: String)
    ensures
        r@ == a@ + b@,
{
    let mut r = String::from_str(a);
    r.append(b);
    r
}

/// A fresh string holding `a`, `b` and `c` in turn.
pub fn concat3(a: &str, b: &str, c: &str) -> (r: String)
    ensures
        r@ == a@ + b@ + c@,
{
    let mut r = String::from_str(a);
    r.append(b);
    r.append(c);
    r
}

/// The decimal digit character for `d`.
pub open spec fn digit_char(d: nat) -> char {
    if d == 0 { '0' }
    else if d == 1 { '1' }
    else if d == 2 { '2' }
    else if d == 3 { '3' }
    else if d == 4 { '4' }
    else if d == 5 { '5' }
    else if d == 6 { '6' }
    else if d == 7 { '7' }
    else if d == 8 { '8' }
    else { '9' }
}

/// The decimal notation of `n`, without leading zeros, as `Display` writes it.
pub open spec fn decimal(n: nat) -> Seq<char>
    decreases n,
{
    if n < 10 {
        seq![digit_char(n)]
    } else {
        decimal(n / 10).push(digit_char(n % 10))
    }
}

/// The one-character string of the decimal digit `d`.
fn digit_str(d: u64) -> (r: &'static str)
    requires
        d < 10,
    ensures
        r@ == seq![digit_char(d as nat)],
{
    proof {
        reveal_strlit("0");
        reveal_strlit("1");
        reveal_strlit("2");
        reveal_strlit("3");
        reveal_strlit("4");
        reveal_strlit("5");
        reveal_strlit("6");
        reveal_strlit("7");
        reveal_strlit("8");
        reveal_strlit("9");
    }
    if d == 0 { "0" }
    else if d == 1 { "1" }
    else if d == 2 { "2" }
    else if d == 3 { "3" }
    else if d == 4 { "4" }
    else if d == 5 { "5" }
    else if d == 6 { "6" }
    else if d == 7 { "7" }
    else if d == 8 { "8" }
    else { "9" }
}

/// Appends the decimal notation of `n` to `out`.
pub fn push_decimal(out: &mut String, n: u64)
    ensures
        final(out)@ == old(out)@ + decimal(n as nat),
    decreases n,
{
    if n >= 10 {
        push_decimal(out, n / 10);
    }
    out.append(digit_str(n % 10));
    proof {
        if n >= 10 {
            assert(old(out)@ + decimal(n as nat) =~= old(out)@ + decimal((n / 10) as nat) + seq![digit_char((n % 10) as nat)]);
        }
    }
}

} // verus!

//! Plain text helpers over character sequences: substring search, the
//! decimal rendering of a number and the filling of the `&i` name marker.
use vstd::prelude::*;

verus! {

/// `p` occurs in `s` starting at character `i`.
pub open spec fn occurs_at(s: Seq<char>, p: Seq<char>, i: int) -> bool {
    0 <= i && i + p.len() <= s.len() && s.subrange(i, i + p.len()) == p
}

/// `p` occurs somewhere in `s` (the empty pattern occurs in every text).
pub open spec fn contains_seq(s: Seq<char>, p: Seq<char>) -> bool {
    exists|i: int| occurs_at(s, p, i)
}

/// The two characters that a name template uses as its number marker.
pub open spec fn marker() -> Seq<char> {
    seq!['&', 'i']
}

/// `s` with every occurrence of the marker, read from left to right, replaced
/// by `num`.
pub open spec fn fill_marker(s: Seq<char>, num: Seq<char>) -> Seq<char>
    decreases s.len(),
{
    if s.len() == 0 {
        s
    } else if s.len() >= 2 && s[0] == '&' && s[1] == 'i' {
        num + fill_marker(s.subrange(2, s.len() as int), num)
    } else {
        seq![s[0]] + fill_marker(s.subrange(1, s.len() as int), num)
    }
}

/// The character of a decimal digit.
pub open spec fn digit_char(d: nat) -> char {
    seq!['0', '1', '2', '3', '4', '5', '6', '7', '8', '9'][d as int]
}

/// The decimal rendering of `n`, without sign or leading zeros.
pub open spec fn decimal(n: nat) -> Seq<char>
    decreases n,
{
    if n < 10 {
        seq![digit_char(n)]
    } else {
        decimal(n / 10) + seq![digit_char(n % 10)]
    }
}

/// Whether two texts are equal.
pub fn same_text(a: &str, b: &str) -> (r: bool)
    ensures
        r == (a@ == b@),
{
    String::from_str(a) == String::from_str(b)
}

/// Whether `pat` occurs at character `i` of `s`.
fn matches_at(s: &str, pat: &str, i: usize) -> (r: bool)
    requires
        i + pat@.len() <= s@.len(),
        s@.len() <= usize::MAX,
    ensures
        r == occurs_at(s@, pat@, i as int),
{
    let m = pat.unicode_len();
    let mut j: usize = 0;
    while j < m
        invariant
            m == pat@.len(),
            i + m <= s@.len(),
            s@.len() <= usize::MAX,
            j <= m,
            forall|k: int| 0 <= k < j ==> s@[i + k] == pat@[k],
        decreases m - j,
    {
        if s.get_char(i + j) != pat.get_char(j) {
            assert(s@.subrange(i as int, i + m)[j as int] != pat@[j as int]);
            return false;
        }
        j = j + 1;
    }
    assert(s@.subrange(i as int, i + m) =~= pat@);
    true
}

/// Whether `pat` occurs in `s`.
pub fn contains(s: &str, pat: &str) -> (r: bool)
    ensures
        r == contains_seq(s@, pat@),
{
    let n = s.unicode_len();
    let m = pat.unicode_len();
    if m > n {
        assert(!contains_seq(s@, pat@));
        return false;
    }
    let mut i: usize = 0;
    loop
        invariant
            n == s@.len(),
            m == pat@.len(),
            m <= n,
            i <= n - m,
            forall|k: int| 0 <= k < i ==> !occurs_at(s@, pat@, k),
        ensures
            i == n - m,
            forall|k: int| 0 <= k <= i ==> !occurs_at(s@, pat@, k),
        decreases n - m - i,
    {
        if matches_at(s, pat, i) {
            return true;
        }
        if i == n - m {
            break;
        }
        i = i + 1;
    }
    assert forall|k: int| !occurs_at(s@, pat@, k) by {
        if 0 <= k <= i {
        } else {
            assert(!(0 <= k && k + m <= n));
        }
    }
    false
}

/// The one-character text of the decimal digit `d`.
fn digit_text(d: u128) -> (r: &'static str)
    requires
        d < 10,
    ensures
        r@ == seq![digit_char(d as nat)],
{
    let digits = "0123456789";
    proof {
        reveal_strlit("0123456789");
    }
    let du = d as usize;
    let r = digits.substring_char(du, du + 1);
    assert(r@ =~= seq![digit_char(d as nat)]);
    r
}

/// The decimal rendering of `n`.
pub fn decimal_string(n: u128) -> (r: String)
    ensures
        r@ == decimal(n as nat),
    decreases n,
{
    if n < 10 {
        String::from_str(digit_text(n))
    } else {
        let mut r = decimal_string(n / 10);
        r.append(digit_text(n % 10));
        r
    }
}

proof fn lemma_fill_step(s: Seq<char>, num: Seq<char>, i: int)
    requires
        0 <= i < s.len(),
    ensures
        i + 2 <= s.len() && s[i] == '&' && s[i + 1] == 'i' ==> fill_marker(s.subrange(i, s.len() as int), num)
            == num + fill_marker(s.subrange(i + 2, s.len() as int), num),
        !(i + 2 <= s.len() && s[i] == '&' && s[i + 1] == 'i') ==> fill_marker(
            s.subrange(i, s.len() as int),
            num,
        ) == seq![s[i]] + fill_marker(s.subrange(i + 1, s.len() as int), num),
{
    let t = s.subrange(i, s.len() as int);
    assert(t.subrange(2, t.len() as int) =~= s.subrange(i + 2, s.len() as int) || t.len() < 2);
    assert(t.subrange(1, t.len() as int) =~= s.subrange(i + 1, s.len() as int));
}

/// `template` with every `&i` marker replaced by `num`.
pub fn fill_template(template: &str, num: &str) -> (r: String)
    ensures
        r@ == fill_marker(template@, num@),
{
    let n = template.unicode_len();
    let mut out = String::new();
    let mut i: usize = 0;
    assert(template@.subrange(0, n as int) =~= template@);
    while i < n
        invariant
            n == template@.len(),
            i <= n,
            fill_marker(template@, num@) == out@ + fill_marker(
                template@.subrange(i as int, n as int),
                num@,
            ),
        decreases n - i,
    {
        proof {
            lemma_fill_step(template@, num@, i as int);
        }
        if i + 1 < n && template.get_char(i) == '&' && template.get_char(i + 1) == 'i' {
            let ghost before = out@;
            out.append(num);
            assert(before + (num@ + fill_marker(template@.subrange(i + 2, n as int), num@))
                =~= out@ + fill_marker(template@.subrange(i + 2, n as int), num@));
            i = i + 2;
        } else {
            let ghost before = out@;
            out.append(template.substring_char(i, i + 1));
            assert(template@.subrange(i as int, i + 1) =~= seq![template@[i as int]]);
            assert(before + (seq![template@[i as int]] + fill_marker(
                template@.subrange(i + 1, n as int),
                num@,
            )) =~= out@ + fill_marker(template@.subrange(i + 1, n as int), num@));
            i = i + 1;
        }
    }
    assert(template@.subrange(n as int, n as int) =~= Seq::<char>::empty());
    assert(out@ + Seq::<char>::empty() =~= out@);
    out
}

} // verus!

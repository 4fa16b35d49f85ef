//! Verified text utilities: character-exact string comparison, search,
//! decimal formatting and padding, used by the report renderers.

use vstd::prelude::*;

verus! {

use vstd::string::StrSliceExecFns;

/// True when `p` occurs in `s` starting at position `i`.
pub open spec fn matches_at(s: Seq<char>, p: Seq<char>, i: int) -> bool {
    0 <= i && i + p.len() <= s.len() && p =~= s.subrange(i, i + p.len() as int)
}

/// True when `p` occurs somewhere in `s`.
pub open spec fn contains_seq(s: Seq<char>, p: Seq<char>) -> bool {
    exists|i: int| matches_at(s, p, i)
}

/// Character-for-character equality of two string slices.
pub fn str_eq(a: &str, b: &str) -> (r: bool)
    ensures
        r == (a@ == b@),
{
    let alen = a.unicode_len();
    let blen = b.unicode_len();
    if alen != blen {
        return false;
    }
    let mut i: usize = 0;
    while i < alen
        invariant
            alen == a@.len(),
            alen == b@.len(),
            i <= alen,
            forall|j: int| 0 <= j < i ==> a@[j] == b@[j],
        decreases alen - i,
    {
        if a.get_char(i) != b.get_char(i) {
            return false;
        }
        i += 1;
    }
    proof {
        assert(a@ =~= b@);
    }
    true
}

/// True when the characters of `p` are an initial segment of `s`.
pub fn starts_with(s: &str, p: &str) -> (r: bool)
    ensures
        r == p@.is_prefix_of(s@),
{
    let plen = p.unicode_len();
    let slen = s.unicode_len();
    if plen > slen {
        return false;
    }
    let mut i: usize = 0;
    while i < plen
        invariant
            plen == p@.len(),
            slen == s@.len(),
            plen <= slen,
            i <= plen,
            forall|j: int| 0 <= j < i ==> s@[j] == p@[j],
        decreases plen - i,
    {
        if s.get_char(i) != p.get_char(i) {
            proof {
                assert(s@.subrange(0, p@.len() as int)[i as int] == s@[i as int]);
            }
            return false;
        }
        i += 1;
    }
    proof {
        assert(p@ =~= s@.subrange(0, p@.len() as int));
    }
    true
}

/// True when `p` occurs in `s` starting at position `i`.
fn match_at(s: &str, p: &str, i: usize) -> (r: bool)
    requires
        i + p@.len() <= s@.len(),
    ensures
        r == matches_at(s@, p@, i as int),
{
    let plen = p.unicode_len();
    let slen = s.unicode_len();
    let mut k: usize = 0;
    while k < plen
        invariant
            plen == p@.len(),
            slen == s@.len(),
            i + plen <= slen,
            k <= plen,
            forall|j: int| 0 <= j < k ==> p@[j] == s@[i + j],
        decreases plen - k,
    {
        if s.get_char(i + k) != p.get_char(k) {
            proof {
                assert(s@.subrange(i as int, i + p@.len() as int)[k as int] == s@[i + k]);
            }
            return false;
        }
        k += 1;
    }
    proof {
        assert(p@ =~= s@.subrange(i as int, i + p@.len() as int));
    }
    true
}

/// True when the characters of `p` occur contiguously anywhere in `s`.
pub fn contains_sub(s: &str, p: &str) -> (r: bool)
    ensures
        r == contains_seq(s@, p@),
{
    let plen = p.unicode_len();
    let slen = s.unicode_len();
    if plen > slen {
        proof {
            assert(forall|j: int| !matches_at(s@, p@, j));
        }
        return false;
    }
    let bound = slen - plen;
    let mut i: usize = 0;
    while i <= bound
        invariant
            plen == p@.len(),
            slen == s@.len(),
            plen <= slen,
            bound == slen - plen,
            i <= bound + 1,
            forall|j: int| 0 <= j < i ==> !matches_at(s@, p@, j),
        decreases bound - i + 1,
    {
        if match_at(s, p, i) {
            return true;
        }
        i += 1;
    }
    proof {
        assert(forall|j: int| !matches_at(s@, p@, j));
    }
    false
}

/// The decimal digit `d` (at most 9) as a character.
pub open spec fn digit_char(d: nat) -> char {
    if d == 0 {
        '0'
    } else if d == 1 {
        '1'
    } else if d == 2 {
        '2'
    } else if d == 3 {
        '3'
    } else if d == 4 {
        '4'
    } else if d == 5 {
        '5'
    } else if d == 6 {
        '6'
    } else if d == 7 {
        '7'
    } else if d == 8 {
        '8'
    } else {
        '9'
    }
}

/// The usual decimal rendering of `n`, most significant digit first,
/// without leading zeroes (except for `n == 0` itself).
pub open spec fn dec_view(n: nat) -> Seq<char>
    decreases n,
{
    if n < 10 {
        seq![digit_char(n)]
    } else {
        dec_view(n / 10).push(digit_char(n % 10))
    }
}

fn digit_str(d: u64) -> (r: &'static str)
    requires
        d < 10,
    ensures
        r@ == seq![digit_char(d as nat)],
{
    proof {
        reveal_strlit("0");
        reveal_strlit("1");
        reveal_strlit("2");
        reveal_strlit("3");
        reveal_strlit("4");
        reveal_strlit("5");
        reveal_strlit("6");
        reveal_strlit("7");
        reveal_strlit("8");
        reveal_strlit("9");
    }
    let r = if d == 0 {
        "0"
    } else if d == 1 {
        "1"
    } else if d == 2 {
        "2"
    } else if d == 3 {
        "3"
    } else if d == 4 {
        "4"
    } else if d == 5 {
        "5"
    } else if d == 6 {
        "6"
    } else if d == 7 {
        "7"
    } else if d == 8 {
        "8"
    } else {
        "9"
    };
    proof {
        assert(r@ =~= seq![digit_char(d as nat)]);
    }
    r
}

/// The digits held in `v`, read back to front, as characters.
spec fn chars_of_rev(v: Seq<u64>) -> Seq<char>
    decreases v.len(),
{
    if v.len() == 0 {
        Seq::empty()
    } else {
        seq![digit_char(v.last() as nat)] + chars_of_rev(v.drop_last())
    }
}

proof fn lemma_chars_of_rev_step(v: Seq<u64>, i: int)
    requires
        0 <= i < v.len(),
    ensures
        chars_of_rev(v.subrange(0, i + 1)) == seq![digit_char(v[i] as nat)] + chars_of_rev(
            v.subrange(0, i),
        ),
{
    let w = v.subrange(0, i + 1);
    assert(w.last() == v[i]);
    assert(w.drop_last() =~= v.subrange(0, i));
}

/// Renders `n` in decimal.
pub fn u64_to_string(n: u64) -> (r: String)
    ensures
        r@ == dec_view(n as nat),
{
    let mut digits: Vec<u64> = Vec::new();
    let mut m: u64 = n;
    proof {
        assert(dec_view(n as nat) =~= dec_view(m as nat) + chars_of_rev(digits@));
    }
    while m >= 10
        invariant
            dec_view(n as nat) == dec_view(m as nat) + chars_of_rev(digits@),
            forall|j: int| 0 <= j < digits@.len() ==> digits@[j] < 10,
        decreases m,
    {
        let ghost before = digits@;
        let d = m % 10;
        digits.push(d);
        proof {
            assert(digits@.drop_last() =~= before);
            assert(chars_of_rev(digits@) == seq![digit_char(d as nat)] + chars_of_rev(before));
            assert(dec_view(m as nat) =~= dec_view((m / 10) as nat) + seq![
                digit_char((m % 10) as nat),
            ]);
            assert((dec_view((m / 10) as nat) + seq![digit_char(d as nat)]) + chars_of_rev(before)
                =~= dec_view((m / 10) as nat) + (seq![digit_char(d as nat)] + chars_of_rev(
                before,
            )));
        }
        m = m / 10;
    }
    let ghost before = digits@;
    digits.push(m);
    proof {
        assert(digits@.drop_last() =~= before);
        assert(chars_of_rev(digits@) == seq![digit_char(m as nat)] + chars_of_rev(before));
        assert(dec_view(m as nat) =~= seq![digit_char(m as nat)]);
        assert((seq![digit_char(m as nat)]) + chars_of_rev(before) =~= dec_view(m as nat)
            + chars_of_rev(before));
        assert(dec_view(n as nat) == chars_of_rev(digits@));
    }
    let ghost all = digits@;
    let mut r = String::new();
    let mut i: usize = digits.len();
    proof {
        assert(all.subrange(0, i as int) =~= all);
        assert(r@ + chars_of_rev(all.subrange(0, i as int)) =~= chars_of_rev(all));
    }
    while i > 0
        invariant
            digits@ == all,
            i <= all.len(),
            r@ + chars_of_rev(all.subrange(0, i as int)) =~= chars_of_rev(all),
            forall|j: int| 0 <= j < all.len() ==> all[j] < 10,
        decreases i,
    {
        i -= 1;
        let d = digits[i];
        r.append(digit_str(d));
        proof {
            lemma_chars_of_rev_step(all, i as int);
        }
    }
    proof {
        assert(all.subrange(0, 0) =~= Seq::<u64>::empty());
        assert(chars_of_rev(all.subrange(0, 0)) =~= Seq::<char>::empty());
        assert(r@ =~= chars_of_rev(all));
    }
    r
}

/// `k` copies of the character `c`.
pub open spec fn repeat_char(c: char, k: nat) -> Seq<char>
    decreases k,
{
    if k == 0 {
        Seq::empty()
    } else {
        repeat_char(c, (k - 1) as nat).push(c)
    }
}

/// A string of `k` spaces.
pub fn spaces(k: usize) -> (r: String)
    ensures
        r@ == repeat_char(' ', k as nat),
{
    let mut r = String::new();
    let mut i: usize = 0;
    while i < k
        invariant
            i <= k,
            r@ =~= repeat_char(' ', i as nat),
        decreases k - i,
    {
        r.append(" ");
        proof {
            reveal_strlit(" ");
            assert(" "@ =~= seq![' ']);
            assert(r@ =~= repeat_char(' ', (i + 1) as nat));
        }
        i += 1;
    }
    proof {
        assert(r@ =~= repeat_char(' ', k as nat));
    }
    r
}

/// `s`, padded on the left with spaces up to width `w`.
pub open spec fn right_align_view(s: Seq<char>, w: nat) -> Seq<char> {
    if s.len() >= w {
        s
    } else {
        repeat_char(' ', (w - s.len()) as nat) + s
    }
}

/// Right-aligns `s` in a field of `w` characters.
pub fn right_align(s: &str, w: usize) -> (r: String)
    ensures
        r@ == right_align_view(s@, w as nat),
{
    let len = s.unicode_len();
    if len >= w {
        s.to_owned()
    } else {
        let mut r = spaces(w - len);
        r.append(s);
        r
    }
}

/// `s`, centered in a field of `w` space-padded characters, any excess
/// padding falling to the right.
pub open spec fn center_view(s: Seq<char>, w: nat) -> Seq<char> {
    if s.len() >= w {
        s
    } else {
        let pad = (w - s.len()) as nat;
        let left = pad / 2;
        repeat_char(' ', left) + s + repeat_char(' ', (pad - left) as nat)
    }
}

/// Centers `s` in a field of `w` characters.
pub fn center(s: &str, w: usize) -> (r: String)
    ensures
        r@ == center_view(s@, w as nat),
{
    let len = s.unicode_len();
    if len >= w {
        s.to_owned()
    } else {
        let pad = w - len;
        let left = pad / 2;
        let mut r = spaces(left);
        r.append(s);
        let right = spaces(pad - left);
        let r = r.concat(right.as_str());
        proof {
            assert(r@ =~= center_view(s@, w as nat));
        }
        r
    }
}

} // verus!

//! Character-level helpers: substring search, type-name simplification,
//! address shortening and decimal rendering.

use vstd::prelude::*;

verus! {

/// `pat` occurs in `s` starting at position `i`.
pub open spec fn occurs_at(s: Seq<char>, pat: Seq<char>, i: int) -> bool {
    0 <= i && i + pat.len() <= s.len() && s.subrange(i, i + pat.len()) == pat
}

/// `pat` occurs somewhere in `s`.
pub open spec fn contains(s: Seq<char>, pat: Seq<char>) -> bool {
    exists|i: int| #[trigger] occurs_at(s, pat, i)
}

/// Relies on `String::push`: appends one character at the end.
pub assume_specification[ String::push ](s: &mut String, ch: char)
    ensures
        final(s)@ == old(s)@.push(ch),
;

/// Collects characters into a string.
pub fn string_of(v: &Vec<char>) -> (r: String)
    ensures
        r@ == v@,
{
    let mut r = String::new();
    let mut i: usize = 0;
    while i < v.len()
        invariant
            i <= v.len(),
            r@ == v@.subrange(0, i as int),
        decreases v.len() - i,
    {
        r.push(v[i]);
        i += 1;
        assert(r@ =~= v@.subrange(0, i as int));
    }
    assert(r@ =~= v@);
    r
}

/// Copies the characters of a string slice into a vector.
pub fn chars_of(s: &str) -> (r: Vec<char>)
    ensures
        r@ == s@,
{
    let n = s.unicode_len();
    let mut v: Vec<char> = Vec::new();
    let mut i: usize = 0;
    while i < n
        invariant
            n == s@.len(),
            i <= n,
            v@ == s@.subrange(0, i as int),
        decreases n - i,
    {
        v.push(s.get_char(i));
        i += 1;
        assert(v@ =~= s@.subrange(0, i as int));
    }
    assert(v@ =~= s@);
    v
}

/// Whether `pat` occurs in `s` at position `i`.
pub fn occurs_at_exec(s: &Vec<char>, pat: &Vec<char>, i: usize) -> (r: bool)
    ensures
        r == occurs_at(s@, pat@, i as int),
{
    if i > s.len() || pat.len() > s.len() - i {
        return false;
    }
    let mut j: usize = 0;
    while j < pat.len()
        invariant
            i + pat.len() <= s.len(),
            j <= pat.len(),
            forall|k: int| 0 <= k < j ==> s@[i + k] == pat@[k],
        decreases pat.len() - j,
    {
        if s[i + j] != pat[j] {
            assert(s@.subrange(i as int, i + pat.len())[j as int] != pat@[j as int]);
            return false;
        }
        j += 1;
    }
    assert(s@.subrange(i as int, i + pat.len()) =~= pat@);
    true
}

/// Whether `pat` occurs anywhere in `s`.
pub fn contains_exec(s: &Vec<char>, pat: &Vec<char>) -> (r: bool)
    ensures
        r == contains(s@, pat@),
{
    if pat.len() == 0 {
        assert(s@.subrange(0, 0) =~= pat@);
        assert(occurs_at(s@, pat@, 0));
        return true;
    }
    let mut i: usize = 0;
    while i < s.len()
        invariant
            pat@.len() > 0,
            forall|k: int| 0 <= k < i ==> !occurs_at(s@, pat@, k),
        decreases s.len() - i,
    {
        if occurs_at_exec(s, pat, i) {
            return true;
        }
        i += 1;
    }
    assert forall|k: int| !occurs_at(s@, pat@, k) by {
        if 0 <= k && k >= i {
            assert(k + pat@.len() > s@.len());
        }
    }
    false
}

/// Separator between the segments of a type path.
pub open spec fn sep() -> Seq<char> {
    "::"@
}

/// Position of the last separator that starts before `k`, or -1 if none does.
pub open spec fn last_sep_before(s: Seq<char>, k: int) -> int
    decreases k,
{
    if k <= 0 {
        -1
    } else if occurs_at(s, sep(), k - 1) {
        k - 1
    } else {
        last_sep_before(s, k - 1)
    }
}

/// What follows the last separator of a type path, or the whole path if it
/// has none.
pub open spec fn last_segment(s: Seq<char>) -> Seq<char> {
    let i = last_sep_before(s, s.len() as int);
    if i < 0 {
        s
    } else {
        s.subrange(i + 2, s.len() as int)
    }
}

/// Path fragment that marks the native coin.
pub open spec fn native_coin_marker() -> Seq<char> {
    "0x2::sui::SUI"@
}

/// Path fragment that marks a coin of any kind.
pub open spec fn coin_marker() -> Seq<char> {
    "::coin::Coin"@
}

/// Path fragment that marks an NFT module.
pub open spec fn nft_marker() -> Seq<char> {
    "::nft::"@
}

/// Label of the native coin.
pub open spec fn native_coin_label() -> Seq<char> {
    "SUI Coin"@
}

/// Label of any other coin.
pub open spec fn coin_label() -> Seq<char> {
    "Coin"@
}

/// Label of an NFT.
pub open spec fn nft_label() -> Seq<char> {
    "NFT"@
}

/// Readable name of a type path: a fixed label for the native coin, other
/// coins and NFTs; otherwise the last path segment.
pub open spec fn simple_type(s: Seq<char>) -> Seq<char> {
    if contains(s, native_coin_marker()) {
        native_coin_label()
    } else if contains(s, coin_marker()) {
        coin_label()
    } else if contains(s, nft_marker()) {
        nft_label()
    } else {
        last_segment(s)
    }
}

/// The part of a type path after its last `::`.
pub fn last_segment_exec(s: &Vec<char>) -> (r: Vec<char>)
    ensures
        r@ == last_segment(s@),
{
    let sep_v = chars_of("::");
    let n = s.len();
    let mut k: usize = n;
    while k > 0
        invariant
            k <= n == s@.len(),
            sep_v@ == sep(),
            last_sep_before(s@, n as int) == last_sep_before(s@, k as int),
        decreases k,
    {
        if occurs_at_exec(s, &sep_v, k - 1) {
            proof {
                reveal_strlit("::");
            }
            let mut r: Vec<char> = Vec::new();
            let mut j: usize = k + 1;
            while j < n
                invariant
                    k + 1 <= j <= n == s@.len(),
                    r@ == s@.subrange(k + 1, j as int),
                decreases n - j,
            {
                r.push(s[j]);
                j += 1;
                assert(r@ =~= s@.subrange(k + 1, j as int));
            }
            return r;
        }
        k -= 1;
    }
    s.clone()
}

/// Simplifies a fully qualified type path to a readable name
/// (`0x2::coin::Coin<0x2::sui::SUI>` becomes `SUI Coin`).
pub fn simplify_type(type_str: &str) -> (r: String)
    ensures
        r@ == simple_type(type_str@),
{
    let s = chars_of(type_str);
    if contains_exec(&s, &chars_of("0x2::sui::SUI")) {
        return String::from_str("SUI Coin");
    }
    if contains_exec(&s, &chars_of("::coin::Coin")) {
        return String::from_str("Coin");
    }
    if contains_exec(&s, &chars_of("::nft::")) {
        return String::from_str("NFT");
    }
    string_of(&last_segment_exec(&s))
}

/// Shortened form of an address: the first six and last four characters
/// around an ellipsis, for addresses longer than ten characters.
pub open spec fn short_address(a: Seq<char>) -> Seq<char> {
    if a.len() > 10 {
        a.subrange(0, 6) + seq!['.', '.', '.'] + a.subrange(a.len() - 4, a.len() as int)
    } else {
        a
    }
}

/// Shortens an address for display (`0x1234...cdef`); short ones are kept.
pub fn shorten_address(address: &str) -> (r: String)
    ensures
        r@ == short_address(address@),
{
    let n = address.unicode_len();
    if n > 10 {
        let mut r = String::from_str(address.substring_char(0, 6));
        r.append("...");
        r.append(address.substring_char(n - 4, n));
        proof {
            reveal_strlit("...");
        }
        assert(r@ =~= short_address(address@));
        r
    } else {
        String::from_str(address)
    }
}

} // verus!

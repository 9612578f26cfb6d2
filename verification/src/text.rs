//! Cutting a string at the first occurrence of a character.

use vstd::prelude::*;
use vstd::string::*;

verus! {

/// `i` is where `c` first occurs in `s`.
pub open spec fn first_at(s: Seq<char>, c: char, i: int) -> bool {
    &&& 0 <= i < s.len()
    &&& s[i] == c
    &&& forall|j: int| 0 <= j < i ==> s[j] != c
}

/// Where `c` first occurs in `s`; meaningful only if it occurs at all.
pub open spec fn first_index(s: Seq<char>, c: char) -> int {
    choose|i: int| first_at(s, c, i)
}

/// What stands before the first `c`; all of `s` where there is none.
pub open spec fn before(s: Seq<char>, c: char) -> Seq<char> {
    if s.contains(c) {
        s.take(first_index(s, c))
    } else {
        s
    }
}

/// What stands behind the first `c`.
pub open spec fn after(s: Seq<char>, c: char) -> Seq<char> {
    s.skip(first_index(s, c) + 1)
}

/// A character occurs first at one place only.
pub proof fn lemma_first_at_unique(s: Seq<char>, c: char, i: int)
    requires
        first_at(s, c, i),
    ensures
        s.contains(c),
        first_index(s, c) == i,
{
    let k = first_index(s, c);
    assert(first_at(s, c, k));
    if k < i {
        assert(s[k] != c);
    }
    if i < k {
        assert(s[i] != c);
    }
}

/// A string in which `c` occurs falls into the part before the first `c`,
/// that `c`, and the part behind it; the part before holds no `c`.
pub proof fn lemma_cut(s: Seq<char>, c: char)
    requires
        s.contains(c),
    ensures
        first_at(s, c, first_index(s, c)),
        s == before(s, c) + seq![c] + after(s, c),
        !before(s, c).contains(c),
{
    lemma_first_occurrence(s, c, s.len() as int);
    let k = first_index(s, c);
    assert(s =~= before(s, c) + seq![c] + after(s, c));
    if before(s, c).contains(c) {
        let j = choose|j: int| 0 <= j < before(s, c).len() && before(s, c)[j] == c;
        assert(s[j] == c);
    }
}

/// If `c` occurs among the first `n` characters, it occurs first somewhere.
proof fn lemma_first_occurrence(s: Seq<char>, c: char, n: int)
    requires
        0 <= n <= s.len(),
        exists|i: int| 0 <= i < n && s[i] == c,
    ensures
        exists|i: int| first_at(s, c, i),
        first_at(s, c, first_index(s, c)),
    decreases n,
{
    if exists|i: int| 0 <= i < n - 1 && s[i] == c {
        lemma_first_occurrence(s, c, n - 1);
    } else {
        assert(s[n - 1] == c);
        assert(first_at(s, c, n - 1));
    }
}

/// Where `c` first occurs in `s`, counted in characters.
pub fn find_char(s: &str, c: char) -> (r: Option<usize>)
    ensures
        match r {
            Some(i) => first_at(s@, c, i as int),
            None => !s@.contains(c),
        },
{
    let n = s.unicode_len();
    let mut i: usize = 0;
    for x in it: s.chars()
        invariant
            i == it.index(),
            it.seq() == s@,
            n == s@.len(),
            forall|j: int| 0 <= j < i ==> s@[j] != c,
    {
        if x == c {
            return Some(i);
        }
        i = i + 1;
    }
    None
}

/// Cuts `s` at the first `c`, which goes to neither part.
pub fn split_once(s: &str, c: char) -> (r: Option<(String, String)>)
    ensures
        match r {
            Some((head, tail)) => s@.contains(c) && head@ == before(s@, c) && tail@ == after(s@, c),
            None => !s@.contains(c),
        },
{
    match find_char(s, c) {
        Some(i) => {
            proof {
                lemma_first_at_unique(s@, c, i as int);
            }
            let n = s.unicode_len();
            let head = s.substring_char(0, i).to_owned();
            let tail = s.substring_char(i + 1, n).to_owned();
            Some((head, tail))
        },
        None => None,
    }
}

/// `s` up to its first `c`, or all of it.
pub fn truncate_at(s: &str, c: char) -> (r: String)
    ensures
        r@ == before(s@, c),
{
    match find_char(s, c) {
        Some(i) => {
            proof {
                lemma_first_at_unique(s@, c, i as int);
            }
            s.substring_char(0, i).to_owned()
        },
        None => s.to_owned(),
    }
}

/// Whether two strings hold the same characters.
pub fn same_text(a: &str, b: &str) -> (r: bool)
    ensures
        r == (a@ == b@),
{
    let x = a.as_bytes();
    let y = b.as_bytes();
    if x.len() != y.len() {
        return false;
    }
    let mut i: usize = 0;
    while i < x.len()
        invariant
            i <= x.len(),
            x.len() == y.len(),
            x@ == a.spec_bytes(),
            y@ == b.spec_bytes(),
            forall|j: int| 0 <= j < i ==> x@[j] == y@[j],
        decreases x.len() - i,
    {
        if x[i] != y[i] {
            return false;
        }
        i = i + 1;
    }
    proof {
        assert(x@ =~= y@);
        vstd::utf8::encode_utf8_decode_utf8(a@);
        vstd::utf8::encode_utf8_decode_utf8(b@);
    }
    true
}

} // verus!

//! Character-level helpers on strings.

use vstd::prelude::*;

verus! {

/// The characters of `s`, in order.
pub fn chars_of(s: &str) -> (r: Vec<char>)
    ensures
        r@ == s@,
{
    let mut r: Vec<char> = Vec::new();
    for c in it: s.chars()
        invariant
            r@ == it.seq().take(it.index() as int),
            it.seq() == s@,
    {
        r.push(c);
    }
    r
}

} // verus!

verus! {

/// `needle` stands in `hay` starting at position `i`.
pub open spec fn occurs_at(hay: Seq<char>, needle: Seq<char>, i: int) -> bool {
    &&& 0 <= i
    &&& i + needle.len() <= hay.len()
    &&& hay.subrange(i, i + needle.len()) == needle
}

/// `needle` is a contiguous part of `hay` (the empty sequence is part of every one).
pub open spec fn contains_seq(hay: Seq<char>, needle: Seq<char>) -> bool {
    exists|i: int| #[trigger] occurs_at(hay, needle, i)
}

/// Whether `needle` stands in `hay` at position `i`.
fn occurs_at_exec(hay: &Vec<char>, needle: &Vec<char>, i: usize) -> (b: bool)
    requires
        i + needle.len() <= hay.len(),
    ensures
        b == occurs_at(hay@, needle@, i as int),
{
    let n = needle.len();
    let mut j: usize = 0;
    while j < n
        invariant
            n == needle.len(),
            i + n <= hay.len(),
            j <= n,
            forall|k: int| 0 <= k < j ==> hay@[i + k] == needle@[k],
        decreases n - j,
    {
        if hay[i + j] != needle[j] {
            assert(hay@.subrange(i as int, i + n)[j as int] != needle@[j as int]);
            return false;
        }
        j = j + 1;
    }
    assert(hay@.subrange(i as int, i + n) =~= needle@);
    true
}

/// Whether `needle` is a contiguous part of `hay`, compared character by
/// character (case-sensitive).
pub fn str_contains(hay: &str, needle: &str) -> (b: bool)
    ensures
        b == contains_seq(hay@, needle@),
{
    let h = chars_of(hay);
    let n = chars_of(needle);
    if n.len() > h.len() {
        assert forall|i: int| !occurs_at(hay@, needle@, i) by {}
        return false;
    }
    let last = h.len() - n.len();
    let mut i: usize = 0;
    while i < last
        invariant
            h@ == hay@,
            n@ == needle@,
            last == h.len() - n.len(),
            n.len() <= h.len(),
            i <= last,
            forall|k: int| 0 <= k < i ==> !occurs_at(hay@, needle@, k),
        decreases last - i,
    {
        if occurs_at_exec(&h, &n, i) {
            assert(occurs_at(hay@, needle@, i as int));
            return true;
        }
        i = i + 1;
    }
    if occurs_at_exec(&h, &n, last) {
        assert(occurs_at(hay@, needle@, last as int));
        return true;
    }
    assert forall|k: int| !occurs_at(hay@, needle@, k) by {
        if 0 <= k < last {
        }
    }
    false
}

} // verus!

verus! {

/// Appends `c` to `s`.
///
/// Calls `String::push`, which std documents as appending the given `char`
/// to the end of the string; the contract claims exactly that of the
/// string's characters.
#[verifier::external_body]
pub(crate) fn push_char(s: &mut String, c: char)
    ensures
        final(s)@ == old(s)@.push(c),
{
    s.push(c);
}

} // verus!

verus! {

/// A text contains a part exactly when it splits into something before, the
/// part itself, and something after — whatever the lengths involved.
pub proof fn law_contains_iff_split(hay: Seq<char>, needle: Seq<char>)
    ensures
        contains_seq(hay, needle) <==> exists|a: Seq<char>, b: Seq<char>|
            #[trigger] (a + needle + b) == hay,
{
    if contains_seq(hay, needle) {
        let k = choose|k: int| occurs_at(hay, needle, k);
        let a = hay.take(k);
        let b = hay.skip(k + needle.len());
        assert(a + needle + b =~= hay);
    }
    if exists|a: Seq<char>, b: Seq<char>| #[trigger] (a + needle + b) == hay {
        let (a, b) = choose|a: Seq<char>, b: Seq<char>| #[trigger] (a + needle + b) == hay;
        assert(hay.subrange(a.len() as int, (a.len() + needle.len()) as int) =~= needle);
        assert(occurs_at(hay, needle, a.len() as int));
    }
}

/// Any text is contained in every text built around it.
pub proof fn law_contains_part_of_whole(a: Seq<char>, needle: Seq<char>, b: Seq<char>)
    ensures
        contains_seq(a + needle + b, needle),
{
    law_contains_iff_split(a + needle + b, needle);
}

} // verus!

//! Endpoint identifiers as the wide strings that WASAPI takes: UTF-16 code
//! units ending in a zero unit.

use vstd::prelude::*;
use crate::text::chars_of;

verus! {

/// The UTF-16 code units of the character `c`: one unit below `0x10000`,
/// else a high and a low surrogate.
pub open spec fn utf16_of_char(c: char) -> Seq<u16> {
    let v = (c as u32) as int;
    if v < 0x10000 {
        seq![v as u16]
    } else {
        seq![(0xD800 + (v - 0x10000) / 0x400) as u16, (0xDC00 + (v - 0x10000) % 0x400) as u16]
    }
}

/// The UTF-16 code units of `s`, character after character.
pub open spec fn utf16_of(s: Seq<char>) -> Seq<u16>
    decreases s.len(),
{
    if s.len() == 0 {
        Seq::empty()
    } else {
        utf16_of(s.drop_last()) + utf16_of_char(s.last())
    }
}

/// The zero-terminated UTF-16 form of `id`, as WASAPI's device lookup takes it.
pub fn wide_null(id: &str) -> (w: Vec<u16>)
    ensures
        w@ == utf16_of(id@).push(0u16),
        w@.last() == 0u16,
        (forall|i: int| 0 <= i < id@.len() ==> (#[trigger] id@[i] as u32) < 0x10000) ==> {
            &&& w@.len() == id@.len() + 1
            &&& forall|i: int| 0 <= i < id@.len() ==> #[trigger] w@[i] == (id@[i] as u32) as u16
        },
{
    let cs = chars_of(id);
    let mut w: Vec<u16> = Vec::new();
    let mut i: usize = 0;
    while i < cs.len()
        invariant
            cs@ == id@,
            i <= cs.len(),
            w@ == utf16_of(cs@.take(i as int)),
        decreases cs.len() - i,
    {
        let c = cs[i];
        proof {
            vstd::utf8::char_is_scalar(c);
        }
        let v: u32 = c as u32;
        assert(cs@.take(i + 1).drop_last() =~= cs@.take(i as int));
        if v < 0x10000 {
            w.push(v as u16);
        } else {
            let u: u32 = v - 0x10000;
            w.push((0xD800 + u / 0x400) as u16);
            w.push((0xDC00 + u % 0x400) as u16);
        }
        assert(w@ =~= utf16_of(cs@.take(i + 1)));
        i = i + 1;
    }
    assert(cs@.take(cs.len() as int) =~= cs@);
    w.push(0u16);
    proof {
        if forall|i: int| 0 <= i < id@.len() ==> (#[trigger] id@[i] as u32) < 0x10000 {
            law_utf16_of_bmp(id@);
        }
    }
    w
}

/// Encoding a text is encoding its parts one after the other.
pub proof fn law_utf16_of_concat(a: Seq<char>, b: Seq<char>)
    ensures
        utf16_of(a + b) == utf16_of(a) + utf16_of(b),
    decreases b.len(),
{
    if b.len() == 0 {
        assert(a + b =~= a);
        assert(utf16_of(a) + utf16_of(b) =~= utf16_of(a));
    } else {
        law_utf16_of_concat(a, b.drop_last());
        assert((a + b).drop_last() =~= a + b.drop_last());
        assert((a + b).last() == b.last());
        assert(utf16_of(a) + utf16_of(b) =~= utf16_of(a) + utf16_of(b.drop_last()) + utf16_of_char(
            b.last(),
        ));
    }
}

/// A text of characters below `0x10000` encodes to one unit per character,
/// each unit the character's own code: every character is kept, none added,
/// none changed.
pub proof fn law_utf16_of_bmp(s: Seq<char>)
    requires
        forall|i: int| 0 <= i < s.len() ==> (#[trigger] s[i] as u32) < 0x10000,
    ensures
        utf16_of(s).len() == s.len(),
        forall|i: int| 0 <= i < s.len() ==> #[trigger] utf16_of(s)[i] == (s[i] as u32) as u16,
    decreases s.len(),
{
    if s.len() > 0 {
        let init = s.drop_last();
        assert forall|i: int| 0 <= i < init.len() implies (#[trigger] init[i] as u32) < 0x10000 by {
            assert(init[i] == s[i]);
        }
        law_utf16_of_bmp(init);
        assert(s.last() == s[s.len() - 1]);
        assert forall|i: int| 0 <= i < s.len() implies #[trigger] utf16_of(s)[i] == (s[i] as u32) as u16 by {
            if i < s.len() - 1 {
                assert(init[i] == s[i]);
            }
        }
    }
}

/// A character from `0x10000` on encodes to a high surrogate followed by a
/// low surrogate, which together give the character back.
pub proof fn law_utf16_of_supplementary(c: char)
    requires
        (c as u32) >= 0x10000,
    ensures
        utf16_of(seq![c]).len() == 2,
        0xD800 <= utf16_of(seq![c])[0] < 0xDC00,
        0xDC00 <= utf16_of(seq![c])[1] < 0xE000,
        (utf16_of(seq![c])[0] - 0xD800) * 0x400 + (utf16_of(seq![c])[1] - 0xDC00) + 0x10000 == c
            as u32,
{
    vstd::utf8::char_is_scalar(c);
    let s = seq![c];
    assert(s.drop_last() =~= Seq::<char>::empty());
    assert(utf16_of(Seq::<char>::empty()) =~= Seq::<u16>::empty());
    assert(utf16_of(s) =~= utf16_of_char(c));
    let v = (c as u32) as int;
    assert(((v - 0x10000) / 0x400) * 0x400 + (v - 0x10000) % 0x400 == v - 0x10000) by (nonlinear_arith);
}

} // verus!

//! Codepoint offsets against the offsets of the UTF-16 and UTF-8 encodings.
//!
//! The text field counts codepoints; input methods count UTF-16 units and
//! text shaping counts UTF-8 bytes.

use vstd::prelude::*;

verus! {

/// The number of UTF-16 units that encode `c`.
pub open spec fn utf16_units(c: char) -> int {
    if (c as u32) < 0x10000 {
        1
    } else {
        2
    }
}

/// The number of UTF-8 bytes that encode `c`.
pub open spec fn utf8_units(c: char) -> int {
    if (c as u32) < 0x80 {
        1
    } else if (c as u32) < 0x800 {
        2
    } else if (c as u32) < 0x10000 {
        3
    } else {
        4
    }
}

/// The number of UTF-16 units that encode `s`.
pub open spec fn utf16_len(s: Seq<char>) -> int
    decreases s.len(),
{
    if s.len() == 0 {
        0
    } else {
        utf16_len(s.drop_last()) + utf16_units(s.last())
    }
}

/// The number of UTF-8 bytes that encode `s`.
pub open spec fn utf8_len(s: Seq<char>) -> int
    decreases s.len(),
{
    if s.len() == 0 {
        0
    } else {
        utf8_len(s.drop_last()) + utf8_units(s.last())
    }
}

/// `offset` is the codepoint offset that the UTF-16 offset `units` stands
/// for in `s`: the first one with at least `units` units before it, or the
/// end of `s` when there is none.
pub open spec fn is_offset_of_utf16(s: Seq<char>, units: int, offset: int) -> bool {
    &&& 0 <= offset <= s.len()
    &&& offset < s.len() ==> utf16_len(s.take(offset)) >= units
    &&& forall|j: int| 0 <= j < offset ==> #[trigger] utf16_len(s.take(j)) < units
}

/// A longer prefix takes more units.
pub proof fn lemma_utf16_len_grows(s: Seq<char>, j: int, k: int)
    requires
        0 <= j < k <= s.len(),
    ensures
        0 <= utf16_len(s.take(j)) < utf16_len(s.take(k)) <= 2 * k,
    decreases k,
{
    assert(s.take(k).drop_last() =~= s.take(k - 1));
    if j < k - 1 {
        lemma_utf16_len_grows(s, j, k - 1);
    } else if j > 0 {
        lemma_utf16_len_grows(s, j - 1, j);
    }
}

/// A longer prefix takes more bytes.
pub proof fn lemma_utf8_len_grows(s: Seq<char>, j: int, k: int)
    requires
        0 <= j < k <= s.len(),
    ensures
        0 <= utf8_len(s.take(j)) < utf8_len(s.take(k)) <= 4 * k,
    decreases k,
{
    assert(s.take(k).drop_last() =~= s.take(k - 1));
    if j < k - 1 {
        lemma_utf8_len_grows(s, j, k - 1);
    } else if j > 0 {
        lemma_utf8_len_grows(s, j - 1, j);
    }
}

/// Going from a codepoint offset to UTF-16 and back gives the offset.
pub proof fn lemma_utf16_round_trip(s: Seq<char>, offset: int)
    requires
        0 <= offset <= s.len(),
    ensures
        is_offset_of_utf16(s, utf16_len(s.take(offset)), offset),
{
    assert forall|j: int| 0 <= j < offset implies #[trigger] utf16_len(s.take(j)) < utf16_len(
        s.take(offset),
    ) by {
        lemma_utf16_len_grows(s, j, offset);
    }
}

/// The number of UTF-16 units of one codepoint.
pub fn len_utf16(c: char) -> (n: usize)
    ensures
        n == utf16_units(c),
{
    if (c as u32) < 0x10000 {
        1
    } else {
        2
    }
}

/// The number of UTF-8 bytes of one codepoint.
pub fn len_utf8(c: char) -> (n: usize)
    ensures
        n == utf8_units(c),
{
    let code: u32 = c as u32;
    if code < 0x80 {
        1
    } else if code < 0x800 {
        2
    } else if code < 0x10000 {
        3
    } else {
        4
    }
}

/// The UTF-16 offset of the codepoint offset `offset`, which is taken as
/// the end of `content` when it lies beyond it.
pub fn offset_to_utf16(content: &[char], offset: usize) -> (units: usize)
    requires
        content@.len() <= usize::MAX / 2,
    ensures
        units == utf16_len(content@.take(if offset < content@.len() { offset as int } else { content@.len() as int })),
{
    let n: usize = if offset < content.len() { offset } else { content.len() };
    let mut units: usize = 0;
    let mut i: usize = 0;
    while i < n
        invariant
            0 <= i <= n <= content@.len(),
            content@.len() <= usize::MAX / 2,
            units == utf16_len(content@.take(i as int)),
            units <= 2 * i,
        decreases n - i,
    {
        proof {
            assert(content@.take(i + 1).drop_last() =~= content@.take(i as int));
        }
        units = units + len_utf16(content[i]);
        i = i + 1;
    }
    units
}

/// The codepoint offset that the UTF-16 offset `units` stands for: the
/// first one with at least `units` units before it, or the end of
/// `content`. An offset inside a codepoint counts as the next codepoint.
pub fn offset_from_utf16(content: &[char], units: usize) -> (offset: usize)
    requires
        content@.len() <= usize::MAX / 2,
    ensures
        is_offset_of_utf16(content@, units as int, offset as int),
{
    let n: usize = content.len();
    let mut seen: usize = 0;
    let mut i: usize = 0;
    while i < n
        invariant
            0 <= i <= n,
            n == content@.len(),
            n <= usize::MAX / 2,
            seen == utf16_len(content@.take(i as int)),
            seen <= 2 * i,
            forall|j: int| 0 <= j < i ==> #[trigger] utf16_len(content@.take(j)) < units,
        decreases n - i,
    {
        if seen >= units {
            return i;
        }
        proof {
            assert(content@.take(i + 1).drop_last() =~= content@.take(i as int));
        }
        seen = seen + len_utf16(content[i]);
        i = i + 1;
    }
    n
}

/// The UTF-8 offset of the codepoint offset `offset`, which is taken as
/// the end of `content` when it lies beyond it.
pub fn offset_to_utf8(content: &[char], offset: usize) -> (bytes: usize)
    requires
        content@.len() <= usize::MAX / 4,
    ensures
        bytes == utf8_len(content@.take(if offset < content@.len() { offset as int } else { content@.len() as int })),
{
    let n: usize = if offset < content.len() { offset } else { content.len() };
    let mut bytes: usize = 0;
    let mut i: usize = 0;
    while i < n
        invariant
            0 <= i <= n <= content@.len(),
            content@.len() <= usize::MAX / 4,
            bytes == utf8_len(content@.take(i as int)),
            bytes <= 4 * i,
        decreases n - i,
    {
        proof {
            assert(content@.take(i + 1).drop_last() =~= content@.take(i as int));
        }
        bytes = bytes + len_utf8(content[i]);
        i = i + 1;
    }
    bytes
}

} // verus!

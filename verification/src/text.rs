//! Texts as sequences of codepoints.

use vstd::prelude::*;
use vstd::std_specs::iter::IteratorSpec;

verus! {

/// The codepoints of `s`, in order.
pub fn chars_of(s: &str) -> (out: Vec<char>)
    ensures
        out@ == s@,
{
    broadcast use vstd::string::group_string_axioms;

    let mut out: Vec<char> = Vec::new();
    let mut it = s.chars();
    loop
        invariant
            out@ + it.remaining() == s@,
            it.decrease() is Some,
        decreases it.decrease()->0,
    {
        match it.next() {
            Some(c) => {
                out.push(c);
                assert(out@ + it.remaining() =~= s@);
            },
            None => {
                assert(out@ + it.remaining() =~= out@);
                return out;
            },
        }
    }
}

/// Appends the codepoints of `s` to `out`.
pub fn push_str(out: &mut Vec<char>, s: &str)
    ensures
        final(out)@ == old(out)@ + s@,
{
    let mut tail: Vec<char> = chars_of(s);
    out.append(&mut tail);
}

/// Appends the codepoints `from..to` of `source` to `out`.
pub(crate) fn push_range(out: &mut Vec<char>, source: &[char], from: usize, to: usize)
    requires
        from <= to <= source@.len(),
    ensures
        final(out)@ == old(out)@ + source@.subrange(from as int, to as int),
{
    let mut i: usize = from;
    while i < to
        invariant
            from <= i <= to <= source@.len(),
            out@ == old(out)@ + source@.subrange(from as int, i as int),
        decreases to - i,
    {
        out.push(source[i]);
        i = i + 1;
        assert(out@ =~= old(out)@ + source@.subrange(from as int, i as int));
    }
    assert(out@ =~= old(out)@ + source@.subrange(from as int, to as int));
}

} // verus!

use vstd::prelude::*;

verus! {

/// A byte-range replacement: bytes `[start, old_end)` of the previous text
/// are replaced, and the replacement ends at `new_end` in the new text.
#[derive(Debug, Clone, Copy, PartialEq, Eq, Structural)]
pub struct DiffRange {
    pub start: i32,
    pub old_end: i32,
    pub new_end: i32,
}

/// The range names bytes of a text of `len` bytes, in order, and a
/// non-negative end in the new text.
pub open spec fn range_fits(range: DiffRange, len: int) -> bool {
    0 <= range.start <= range.old_end <= len && 0 <= range.new_end
}

/// `text` with bytes `[start, old_end)` replaced by `replacement`.
pub open spec fn spliced(text: Seq<u8>, start: int, old_end: int, replacement: Seq<u8>) -> Seq<
    u8,
> {
    text.subrange(0, start) + replacement + text.subrange(old_end, text.len() as int)
}

/// Whether `range` fits a text of `len` bytes.
pub fn fits(range: DiffRange, len: usize) -> (r: bool)
    ensures
        r == range_fits(range, len as int),
{
    0 <= range.start && range.start <= range.old_end && range.old_end as usize <= len && 0
        <= range.new_end
}

/// Replaces bytes `[start, old_end)` of `text` by `replacement`.
pub fn splice(text: &Vec<u8>, start: usize, old_end: usize, replacement: &[u8]) -> (r: Vec<u8>)
    requires
        start <= old_end <= text@.len(),
    ensures
        r@ == spliced(text@, start as int, old_end as int, replacement@),
{
    let mut r: Vec<u8> = Vec::new();
    let mut i: usize = 0;
    while i < start
        invariant
            start <= old_end <= text@.len(),
            i <= start,
            r@ == text@.subrange(0, i as int),
        decreases start - i,
    {
        r.push(text[i]);
        i = i + 1;
        assert(r@ =~= text@.subrange(0, i as int));
    }
    let mut j: usize = 0;
    while j < replacement.len()
        invariant
            j <= replacement@.len(),
            r@ == text@.subrange(0, start as int) + replacement@.subrange(0, j as int),
        decreases replacement@.len() - j,
    {
        r.push(replacement[j]);
        j = j + 1;
        assert(r@ =~= text@.subrange(0, start as int) + replacement@.subrange(0, j as int));
    }
    let mut m: usize = old_end;
    while m < text.len()
        invariant
            start <= old_end <= m <= text@.len(),
            r@ == text@.subrange(0, start as int) + replacement@ + text@.subrange(
                old_end as int,
                m as int,
            ),
        decreases text@.len() - m,
    {
        r.push(text[m]);
        m = m + 1;
        assert(r@ =~= text@.subrange(0, start as int) + replacement@ + text@.subrange(
            old_end as int,
            m as int,
        ));
    }
    assert(replacement@.subrange(0, replacement@.len() as int) =~= replacement@);
    r
}

/// A copy of a byte slice.
pub fn bytes_of(s: &[u8]) -> (r: Vec<u8>)
    ensures
        r@ == s@,
{
    let mut r: Vec<u8> = Vec::new();
    let mut i: usize = 0;
    while i < s.len()
        invariant
            i <= s@.len(),
            r@ == s@.subrange(0, i as int),
        decreases s@.len() - i,
    {
        r.push(s[i]);
        i = i + 1;
        assert(r@ =~= s@.subrange(0, i as int));
    }
    assert(r@ =~= s@);
    r
}

} // verus!

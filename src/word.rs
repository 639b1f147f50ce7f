use vstd::prelude::*;

verus! {

/// The little-endian 32-bit word stored at byte offset `off` of `m`.
pub open spec fn word_at(m: Seq<u8>, off: int) -> u32 {
    (m[off] as u32) | ((m[off + 1] as u32) << 8u32) | ((m[off + 2] as u32) << 16u32) | ((
    m[off + 3] as u32) << 24u32)
}

/// `m` with the little-endian encoding of `v` stored at byte offset `off`.
pub open spec fn put_word(m: Seq<u8>, off: int, v: u32) -> Seq<u8> {
    m.update(off, #[verifier::truncate] (v as u8)).update(
        off + 1,
        #[verifier::truncate] ((v >> 8u32) as u8),
    ).update(off + 2, #[verifier::truncate] ((v >> 16u32) as u8)).update(
        off + 3,
        #[verifier::truncate] ((v >> 24u32) as u8),
    )
}

/// A word written at an offset reads back unchanged there; words that do
/// not overlap it are unaffected.
pub proof fn lemma_put_word(m: Seq<u8>, off: int, v: u32, other: int)
    requires
        0 <= off,
        off + 4 <= m.len(),
    ensures
        put_word(m, off, v).len() == m.len(),
        word_at(put_word(m, off, v), off) == v,
        0 <= other && other + 4 <= m.len() && (other + 4 <= off || off + 4 <= other) ==> word_at(put_word(m, off, v), other) == word_at(
            m,
            other,
        ),
{
    let b0 = #[verifier::truncate] (v as u8);
    let b1 = #[verifier::truncate] ((v >> 8u32) as u8);
    let b2 = #[verifier::truncate] ((v >> 16u32) as u8);
    let b3 = #[verifier::truncate] ((v >> 24u32) as u8);
    assert((b0 as u32) | ((b1 as u32) << 8u32) | ((b2 as u32) << 16u32) | ((b3 as u32) << 24u32)
        == v) by (bit_vector)
        requires
            b0 == #[verifier::truncate] (v as u8),
            b1 == #[verifier::truncate] ((v >> 8u32) as u8),
            b2 == #[verifier::truncate] ((v >> 16u32) as u8),
            b3 == #[verifier::truncate] ((v >> 24u32) as u8),
    ;
}

/// `lemma_put_word` for every other word at once.
pub proof fn lemma_put_word_all(m: Seq<u8>, off: int, v: u32)
    requires
        0 <= off,
        off + 4 <= m.len(),
    ensures
        put_word(m, off, v).len() == m.len(),
        word_at(put_word(m, off, v), off) == v,
        forall|other: int|
            0 <= other && other + 4 <= m.len() && (other + 4 <= off || off + 4 <= other)
                ==> #[trigger] word_at(put_word(m, off, v), other) == word_at(m, other),
{
    lemma_put_word(m, off, v, off);
    assert forall|other: int|
        0 <= other && other + 4 <= m.len() && (other + 4 <= off || off + 4 <= other)
            implies #[trigger] word_at(put_word(m, off, v), other) == word_at(m, other) by {
        lemma_put_word(m, off, v, other);
    }
}

pub fn read_word(m: &Vec<u8>, off: usize) -> (r: u32)
    requires
        off + 4 <= m@.len(),
    ensures
        r == word_at(m@, off as int),
{
    let _len = m.len();
    (m[off] as u32) | ((m[off + 1] as u32) << 8u32) | ((m[off + 2] as u32) << 16u32) | ((m[off
        + 3] as u32) << 24u32)
}

pub fn write_word(m: &mut Vec<u8>, off: usize, v: u32)
    requires
        off + 4 <= old(m)@.len(),
    ensures
        final(m)@ == put_word(old(m)@, off as int, v),
        final(m)@.len() == old(m)@.len(),
{
    let _len = m.len();
    m.set(off, #[verifier::truncate] (v as u8));
    m.set(off + 1, #[verifier::truncate] ((v >> 8u32) as u8));
    m.set(off + 2, #[verifier::truncate] ((v >> 16u32) as u8));
    m.set(off + 3, #[verifier::truncate] ((v >> 24u32) as u8));
}

/// `m` with the bytes of `src` written from offset `off` on.
pub open spec fn write_bytes(m: Seq<u8>, off: int, src: Seq<u8>) -> Seq<u8> {
    Seq::new(m.len(), |i: int| if off <= i < off + src.len() { src[i - off] } else { m[i] })
}

pub fn copy_bytes(m: &mut Vec<u8>, off: usize, src: &Vec<u8>)
    requires
        off + src@.len() <= old(m)@.len(),
    ensures
        final(m)@ == write_bytes(old(m)@, off as int, src@),
{
    let ghost m0 = m@;
    let size = src.len();
    let _len = m.len();
    let mut i: usize = 0;
    assert(m@ =~= write_bytes(m0, off as int, src@.take(0)));
    while i < size
        invariant
            i <= size,
            size == src@.len(),
            off + size <= m@.len(),
            m@.len() == m0.len(),
            m0.len() <= usize::MAX,
            m@ == write_bytes(m0, off as int, src@.take(i as int)),
        decreases size - i,
    {
        m.set(off + i, src[i]);
        i = i + 1;
        assert(m@ =~= write_bytes(m0, off as int, src@.take(i as int)));
    }
    assert(src@.take(size as int) =~= src@);
}

} // verus!

//! Words and fills in byte buffers.

use vstd::prelude::*;

verus! {

/// The word whose little-endian bytes are the first four of `b`.
pub open spec fn le_word(b: Seq<u8>) -> u32 {
    (b[0] + b[1] * 0x100 + b[2] * 0x1_0000 + b[3] * 0x100_0000) as u32
}

/// The four little-endian bytes of a word.
pub open spec fn le_bytes(w: u32) -> Seq<u8> {
    seq![
        (w % 0x100) as u8,
        (w / 0x100 % 0x100) as u8,
        (w / 0x1_0000 % 0x100) as u8,
        (w / 0x100_0000) as u8,
    ]
}

/// A word can be read back from its bytes.
pub proof fn law_le_word_of_bytes(w: u32)
    ensures
        le_word(le_bytes(w)) == w,
{
}

/// The byte that comes first weighs least: each further byte weighs 256 times
/// as much as the one before.
pub proof fn law_first_byte_weighs_least(b: Seq<u8>, w: u32)
    ensures
        le_word(b) == b[0] + 256 * (b[1] + 256 * (b[2] + 256 * b[3])),
        le_bytes(w).len() == 4,
        le_bytes(w)[0] + 256 * (le_bytes(w)[1] + 256 * (le_bytes(w)[2] + 256 * le_bytes(w)[3]))
            == w,
{
}

/// Writes a word over the first four bytes.
pub fn put_le_word(data: &mut [u8], w: u32)
    requires
        old(data)@.len() >= 4,
    ensures
        final(data)@ == le_bytes(w) + old(data)@.skip(4),
{
    data[0] = (w % 0x100) as u8;
    data[1] = (w / 0x100 % 0x100) as u8;
    data[2] = (w / 0x1_0000 % 0x100) as u8;
    data[3] = (w / 0x100_0000) as u8;
    assert(data@ =~= le_bytes(w) + old(data)@.skip(4));
}

/// A buffer of zeros.
pub open spec fn zeros(len: nat) -> Seq<u8> {
    Seq::new(len, |i: int| 0u8)
}

/// Zeros are zeros, as many as asked for.
pub proof fn law_zeros(len: nat)
    ensures
        zeros(len).len() == len,
        forall|i: int| 0 <= i < len ==> #[trigger] zeros(len)[i] == 0,
{
}

/// Overwrites the bytes from `from` on with zeros.
pub fn fill_zero(data: &mut [u8], from: usize)
    requires
        from <= old(data)@.len(),
    ensures
        final(data)@ == old(data)@.take(from as int) + zeros((old(data)@.len() - from) as nat),
        from == 0 ==> final(data)@ == zeros(old(data)@.len()),
{
    let n: usize = data.len();
    let mut i: usize = from;
    while i < n
        invariant
            from <= i <= n,
            n == data@.len() == old(data)@.len(),
            forall|k: int| 0 <= k < from ==> data@[k] == old(data)@[k],
            forall|k: int| from <= k < i ==> data@[k] == 0,
        decreases n - i,
    {
        data[i] = 0;
        i = i + 1;
    }
    assert(data@ =~= old(data)@.take(from as int) + zeros((old(data)@.len() - from) as nat));
}

/// Copies the first `len` bytes of `src` over the first `len` of `dst`.
pub fn copy_prefix(dst: &mut [u8], src: &[u8], len: usize)
    requires
        len <= old(dst)@.len(),
        len <= src@.len(),
    ensures
        final(dst)@ == src@.take(len as int) + old(dst)@.skip(len as int),
{
    let mut i: usize = 0;
    while i < len
        invariant
            0 <= i <= len,
            len <= dst@.len(),
            len <= src@.len(),
            dst@.len() == old(dst)@.len(),
            forall|k: int| 0 <= k < i ==> dst@[k] == src@[k],
            forall|k: int| i <= k < dst@.len() ==> dst@[k] == old(dst)@[k],
        decreases len - i,
    {
        dst[i] = src[i];
        i = i + 1;
    }
    assert(dst@ =~= src@.take(len as int) + old(dst)@.skip(len as int));
}

} // verus!

//! The save file's byte-level scrambling.
use vstd::prelude::*;

verus! {

/// Length of the scrambling key.
pub const XOR_MASK_LEN: usize = 14;

/// The scrambling key, the bytes of `ILoveMinecraft`.
pub open spec fn mask_seq() -> Seq<u8> {
    seq![73u8, 76, 111, 118, 101, 77, 105, 110, 101, 99, 114, 97, 102, 116]
}

/// The scrambling key.
pub fn xor_mask() -> (r: [u8; XOR_MASK_LEN])
    ensures
        r@ == mask_seq(),
{
    let r: [u8; XOR_MASK_LEN] = [73, 76, 111, 118, 101, 77, 105, 110, 101, 99, 114, 97, 102, 116];
    assert(r@ =~= mask_seq());
    r
}

/// `data` with byte `i` xor-ed with key byte `i mod 14`.
pub open spec fn masked(data: Seq<u8>) -> Seq<u8> {
    Seq::new(data.len(), |i: int| data[i] ^ mask_seq()[i % (XOR_MASK_LEN as int)])
}

/// Xors every byte of `buffer` with the key, repeating the key as needed.
/// Scrambling and unscrambling are the same operation.
pub fn apply_xor_mask(buffer: &mut Vec<u8>)
    ensures
        final(buffer)@ == masked(old(buffer)@),
{
    let mask = xor_mask();
    let mut i: usize = 0;
    while i < buffer.len()
        invariant
            0 <= i <= buffer@.len(),
            buffer@.len() == old(buffer)@.len(),
            mask@ == mask_seq(),
            forall|j: int| 0 <= j < i ==> buffer@[j] == old(buffer)@[j] ^ mask_seq()[j % (XOR_MASK_LEN as int)],
            forall|j: int| i <= j < buffer@.len() ==> buffer@[j] == old(buffer)@[j],
        decreases buffer@.len() - i,
    {
        let bytemask = mask[i % XOR_MASK_LEN];
        let b = buffer[i] ^ bytemask;
        buffer.set(i, b);
        i += 1;
    }
    assert(buffer@ =~= masked(old(buffer)@));
}

/// Scrambling twice gives back the bytes that were scrambled.
pub proof fn law_unmask_restores(data: Seq<u8>)
    ensures
        masked(masked(data)) == data,
{
    assert forall|i: int| 0 <= i < data.len() implies #[trigger] masked(masked(data))[i] == data[i] by {
        let b = data[i];
        let m = mask_seq()[i % (XOR_MASK_LEN as int)];
        assert((b ^ m) ^ m == b) by (bit_vector);
    }
    assert(masked(masked(data)) =~= data);
}

} // verus!

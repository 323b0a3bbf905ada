//! Turning random bytes into a number.

use vstd::prelude::*;

verus! {

/// The sum of the bytes.
pub open spec fn byte_sum(s: Seq<u8>) -> nat
    decreases s.len(),
{
    if s.len() == 0 {
        0
    } else {
        byte_sum(s.drop_last()) + s.last() as nat
    }
}

proof fn lemma_byte_sum_bound(s: Seq<u8>)
    ensures
        byte_sum(s) <= 255 * s.len(),
    decreases s.len(),
{
    if s.len() > 0 {
        lemma_byte_sum_bound(s.drop_last());
    }
}

/// The number drawn from eight random bytes: their sum.
pub fn random_number_from_bytes(buffer: [u8; 8]) -> (r: u64)
    ensures
        r == byte_sum(buffer@),
{
    let mut final_spit: u64 = 0;
    let mut i: usize = 0;
    while i < 8
        invariant
            i <= 8,
            buffer@.len() == 8,
            final_spit == byte_sum(buffer@.subrange(0, i as int)),
        decreases 8 - i,
    {
        proof {
            lemma_byte_sum_bound(buffer@.subrange(0, i as int));
        }
        assert(buffer@.subrange(0, i + 1).drop_last() =~= buffer@.subrange(0, i as int));
        final_spit = final_spit + buffer[i] as u64;
        i = i + 1;
    }
    assert(buffer@.subrange(0, 8) =~= buffer@);
    final_spit
}

} // verus!

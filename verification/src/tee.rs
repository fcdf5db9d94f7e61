//! Handing one stream on to two places.

use crate::save_readable::{bytes_of, joined, Capture};
use vstd::prelude::*;

verus! {

/// Hands a stream that comes in the given pieces on to `output_1` and to
/// `output_2`: both receive the same bytes in the same order, namely the
/// pieces in their order up to the first empty one.
pub fn tee(pieces: &Vec<Vec<u8>>, output_1: &mut Vec<u8>, output_2: &mut Vec<u8>)
    ensures
        final(output_1)@ == old(output_1)@ + joined(bytes_of(pieces@), 0),
        final(output_2)@ == old(output_2)@ + joined(bytes_of(pieces@), 0),
{
    let ghost all = bytes_of(pieces@);
    let ghost start_1 = output_1@;
    let ghost start_2 = output_2@;
    let mut capture = Capture::new();
    let mut k: usize = 0;
    while k < pieces.len()
        invariant
            k <= pieces@.len(),
            all == bytes_of(pieces@),
            capture@ + joined(all, k as int) == joined(all, 0),
            start_1 == old(output_1)@,
            start_2 == old(output_2)@,
            output_1@ == start_1 + capture@,
            output_2@ == start_2 + capture@,
        decreases pieces@.len() - k,
    {
        let ghost before = capture@;
        if !capture.take(pieces[k].as_slice()) {
            assert(capture@ =~= before);
            assert(capture@ =~= capture@ + joined(all, k as int));
            return ;
        }
        output_1.extend_from_slice(pieces[k].as_slice());
        output_2.extend_from_slice(pieces[k].as_slice());
        assert(capture@ + joined(all, k + 1) =~= before + joined(all, k as int));
        assert(output_1@ =~= start_1 + capture@);
        assert(output_2@ =~= start_2 + capture@);
        k = k + 1;
    }
    assert(capture@ =~= capture@ + joined(all, k as int));
}

} // verus!

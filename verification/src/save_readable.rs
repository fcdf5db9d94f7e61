//! Keeping what the wrapped tool writes to its standard error.
//!
//! The stream is read piece by piece while the tool runs. Each piece is handed
//! on at once, so that nothing is held back until the tool exits, and a copy
//! of it is kept. A read that yields nothing marks the end of the stream.

use vstd::prelude::*;

verus! {

/// What has been read from a stream so far.
pub struct Capture {
    saved: Vec<u8>,
}

impl View for Capture {
    type V = Seq<u8>;

    closed spec fn view(&self) -> Seq<u8> {
        self.saved@
    }
}

/// The bytes of each piece.
pub open spec fn bytes_of(pieces: Seq<Vec<u8>>) -> Seq<Seq<u8>> {
    Seq::new(pieces.len(), |i: int| pieces[i]@)
}

/// The pieces from place `from` on, one after the other, up to the first that
/// is empty.
pub open spec fn joined(pieces: Seq<Seq<u8>>, from: int) -> Seq<u8>
    decreases pieces.len() - from,
{
    if from < 0 || from >= pieces.len() || pieces[from].len() == 0 {
        Seq::empty()
    } else {
        pieces[from] + joined(pieces, from + 1)
    }
}

impl Capture {
    /// Nothing read yet.
    pub fn new() -> (capture: Capture)
        ensures
            capture@ == Seq::<u8>::empty(),
    {
        Capture { saved: Vec::new() }
    }

    /// Takes in one read. An empty `piece` marks the end of the stream: then
    /// nothing changes and the result is `false`. Any other piece is kept
    /// behind what was read before, the result is `true`, and the piece is to
    /// be handed on as it is.
    pub fn take(&mut self, piece: &[u8]) -> (more: bool)
        ensures
            more == (piece@.len() > 0),
            final(self)@ == old(self)@ + piece@,
    {
        if piece.len() == 0 {
            assert(self@ =~= self@ + piece@);
            false
        } else {
            self.saved.extend_from_slice(piece);
            assert(self@ =~= old(self)@ + piece@);
            true
        }
    }

    /// All that was read, in the order in which it was read.
    pub fn into_bytes(self) -> (bytes: Vec<u8>)
        ensures
            bytes@ == self@,
    {
        self.saved
    }
}

/// Hands a stream that comes in the given pieces on to `output_1`, and gives
/// back all of it: what is handed on and what is given back are the pieces in
/// their order, up to the first empty one.
pub fn save_readable(pieces: &Vec<Vec<u8>>, output_1: &mut Vec<u8>) -> (saved: Vec<u8>)
    ensures
        saved@ == joined(bytes_of(pieces@), 0),
        final(output_1)@ == old(output_1)@ + joined(bytes_of(pieces@), 0),
{
    let ghost all = bytes_of(pieces@);
    let ghost start = output_1@;
    let mut capture = Capture::new();
    let mut k: usize = 0;
    while k < pieces.len()
        invariant
            k <= pieces@.len(),
            all == bytes_of(pieces@),
            capture@ + joined(all, k as int) == joined(all, 0),
            start == old(output_1)@,
            output_1@ == start + capture@,
        decreases pieces@.len() - k,
    {
        let ghost before = capture@;
        if !capture.take(pieces[k].as_slice()) {
            assert(capture@ =~= before);
            assert(capture@ =~= capture@ + joined(all, k as int));
            return capture.into_bytes();
        }
        output_1.extend_from_slice(pieces[k].as_slice());
        assert(capture@ + joined(all, k + 1) =~= before + joined(all, k as int));
        assert(output_1@ =~= start + capture@);
        k = k + 1;
    }
    assert(capture@ =~= capture@ + joined(all, k as int));
    capture.into_bytes()
}

} // verus!

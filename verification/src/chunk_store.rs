use vstd::prelude::*;
use crate::chunk::{Chunk, ChunkWindow};
use crate::error::Error;
use crate::resolution::Resolution;

verus! {

/// The bytes of a run of chunks as the chunk buffer holds them: chunk after
/// chunk, each row by row, one byte per tile.
pub open spec fn spec_chunk_bytes(chunks: Seq<Chunk>) -> Seq<u8> {
    Seq::new(256 * chunks.len(), |i: int| chunks[i / 256]@[(i % 256) / 16]@[i % 16])
}

/// A chunk of nothing but the code zero, which is `Void`, is 256 zero bytes.
pub proof fn lemma_void_chunk_is_zero_bytes(chunk: Chunk)
    requires
        forall|r: int, c: int| 0 <= r < 16 && 0 <= c < 16 ==> #[trigger] chunk@[r]@[c] == 0,
    ensures
        spec_chunk_bytes(seq![chunk]).len() == 256,
        forall|i: int| 0 <= i < 256 ==> #[trigger] spec_chunk_bytes(seq![chunk])[i] == 0,
{
    assert forall|i: int| 0 <= i < 256 implies #[trigger] spec_chunk_bytes(seq![chunk])[i]
        == 0 by {
        assert(chunk@[(i % 256) / 16]@[i % 16] == 0);
    }
}

/// Reads a run of chunks as plain bytes with `bytemuck::cast_slice`, and
/// copies them. A chunk is 256 bytes of alignment one, so the cast cannot
/// fail, and the bytes come out in memory order: chunk after chunk, row
/// after row.
#[verifier::external_body]
fn chunk_bytes(chunks: &[Chunk]) -> (bytes: Vec<u8>)
    ensures
        bytes@ == spec_chunk_bytes(chunks@),
{
    bytemuck::cast_slice::<Chunk, u8>(chunks).to_vec()
}

/// The chunk window of a viewport together with the bytes that were last
/// written to it.
#[derive(Debug)]
pub struct ChunkStore {
    window: ChunkWindow,
    data: Vec<u8>,
}

/// The mathematical content of a `ChunkStore`.
pub struct ChunkStoreView {
    pub window: ChunkWindow,
    pub data: Seq<u8>,
}

impl View for ChunkStore {
    type V = ChunkStoreView;

    closed spec fn view(&self) -> ChunkStoreView {
        ChunkStoreView { window: self.window, data: self.data@ }
    }
}

impl ChunkStore {
    /// The window is one that a viewport can have, and what was written
    /// fits in its buffer.
    pub open spec fn wf(&self) -> bool {
        &&& self@.window.wf()
        &&& self@.data.len() <= self@.window.spec_byte_size()
    }

    /// An empty store for a viewport.
    pub fn new(resolution: Resolution) -> (store: ChunkStore)
        ensures
            store.wf(),
            store@.window == ChunkWindow::spec_for(resolution),
            store@.data == Seq::<u8>::empty(),
    {
        ChunkStore { window: ChunkWindow::for_resolution(resolution), data: Vec::new() }
    }

    pub fn window(&self) -> (window: ChunkWindow)
        ensures
            window == self@.window,
    {
        self.window
    }

    /// The bytes to copy to the start of the chunk buffer.
    pub fn data(&self) -> (data: &Vec<u8>)
        ensures
            data@ == self@.data,
    {
        &self.data
    }

    /// Replaces what the store holds by the given chunks. A run of chunks
    /// that is longer than the window's capacity is rejected, and the store
    /// stays as it was.
    pub fn write_chunks(&mut self, chunks: &[Chunk]) -> (res: Result<(), Error>)
        requires
            old(self).wf(),
        ensures
            final(self).wf(),
            final(self)@.window == old(self)@.window,
            res is Ok <==> chunks@.len() <= old(self)@.window.spec_capacity(),
            res is Ok ==> final(self)@.data == spec_chunk_bytes(chunks@),
            res matches Err(e) ==> {
                &&& *final(self) == *old(self)
                &&& e == (Error::ChunkOverflow {
                    chunks: chunks.len(),
                    capacity: old(self)@.window.spec_capacity() as u64,
                })
            },
    {
        let capacity: u64 = self.window.capacity();
        let count: usize = chunks.len();
        if count as u64 > capacity {
            return Err(Error::ChunkOverflow { chunks: count, capacity });
        }
        let bytes: Vec<u8> = chunk_bytes(chunks);
        assert(bytes@.len() == 256 * chunks@.len());
        assert(256 * chunks@.len() <= 256 * self@.window.spec_capacity()) by (nonlinear_arith)
            requires
                chunks@.len() <= self@.window.spec_capacity(),
        ;
        self.data = bytes;
        Ok(())
    }
}

} // verus!

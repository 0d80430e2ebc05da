use vstd::prelude::*;
use crate::resolution::Resolution;

verus! {

/// The number of tiles along each side of a chunk.
pub const CHUNK_SIZE: u32 = 16;

/// The number of pixels along each side of a chunk: `CHUNK_SIZE` tiles of
/// `TILE_SIZE` pixels.
pub const CHUNK_PIXELS: u32 = 256;

/// The number of bytes that one chunk takes in the chunk buffer: one byte
/// per tile.
pub const CHUNK_BYTES: u64 = 256;

/// A square of tile codes, row by row.
pub type Chunk = [[u8; 16]; 16];

/// The number of chunks needed to cover `extent` pixels along one axis, and
/// one more: the extent divided by the pixels of a chunk, rounded up, plus
/// one.
pub open spec fn spec_chunks_along(extent: nat) -> nat {
    (extent + 255) / 256 + 1
}

/// The number of chunks that the buffer holds for a window of `per_row` by
/// `per_column` chunks: the window with a border of one chunk on every side.
pub open spec fn spec_window_chunks(per_row: nat, per_column: nat) -> nat {
    (per_row + 2) * (per_column + 2)
}

/// A wider extent never needs fewer chunks.
pub proof fn lemma_chunks_along_monotonic(narrow: nat, wide: nat)
    requires
        narrow <= wide,
    ensures
        spec_chunks_along(narrow) <= spec_chunks_along(wide),
{
}

/// Doubling an extent never lowers the number of chunks along it.
pub proof fn lemma_chunks_along_doubling(extent: nat)
    ensures
        spec_chunks_along(extent) <= spec_chunks_along(2 * extent),
{
    lemma_chunks_along_monotonic(extent, 2 * extent);
}

/// A window that is larger along both axes never holds fewer chunks.
pub proof fn lemma_window_chunks_monotonic(a: Resolution, b: Resolution)
    requires
        a.width <= b.width,
        a.height <= b.height,
    ensures
        ChunkWindow::spec_for(a).spec_capacity() <= ChunkWindow::spec_for(b).spec_capacity(),
{
    let ar = spec_chunks_along(a.width as nat) + 2;
    let ac = spec_chunks_along(a.height as nat) + 2;
    let br = spec_chunks_along(b.width as nat) + 2;
    let bc = spec_chunks_along(b.height as nat) + 2;
    assert(ar * ac <= br * bc) by (nonlinear_arith)
        requires
            0 <= ar <= br,
            0 <= ac <= bc,
    ;
}

/// The number of chunks kept resident for a viewport.
#[derive(Clone, Copy, Debug, PartialEq, Eq, Structural)]
pub struct ChunkWindow {
    pub per_row: u64,
    pub per_column: u64,
}

impl ChunkWindow {
    /// The window of a viewport.
    pub open spec fn spec_for(resolution: Resolution) -> ChunkWindow {
        ChunkWindow {
            per_row: spec_chunks_along(resolution.width as nat) as u64,
            per_column: spec_chunks_along(resolution.height as nat) as u64,
        }
    }

    /// A window that some viewport can have: neither side is more than the
    /// widest viewport needs.
    pub open spec fn wf(&self) -> bool {
        &&& self.per_row <= 16777217
        &&& self.per_column <= 16777217
    }

    /// The number of chunks that the buffer holds, border included.
    pub open spec fn spec_capacity(&self) -> nat {
        spec_window_chunks(self.per_row as nat, self.per_column as nat)
    }

    /// The size of the chunk buffer in bytes.
    pub open spec fn spec_byte_size(&self) -> nat {
        256 * self.spec_capacity()
    }

    /// The number of chunks along one axis for an extent in pixels.
    pub fn chunks_along(extent: u32) -> (count: u64)
        ensures
            count == spec_chunks_along(extent as nat),
            2 <= count + 1,
            count <= 16777217,
    {
        let whole: u32 = extent / CHUNK_PIXELS;
        let rest: u32 = extent % CHUNK_PIXELS;
        if rest == 0 {
            whole as u64 + 1
        } else {
            whole as u64 + 2
        }
    }

    /// The window of a viewport.
    pub fn for_resolution(resolution: Resolution) -> (window: ChunkWindow)
        ensures
            window == ChunkWindow::spec_for(resolution),
            window.wf(),
    {
        ChunkWindow {
            per_row: ChunkWindow::chunks_along(resolution.width),
            per_column: ChunkWindow::chunks_along(resolution.height),
        }
    }

    /// The number of chunks that the buffer holds, border included.
    pub fn capacity(&self) -> (chunks: u64)
        requires
            self.wf(),
        ensures
            chunks == self.spec_capacity(),
            chunks <= 281475077373961,
    {
        let rows: u64 = self.per_row + 2;
        let columns: u64 = self.per_column + 2;
        assert(rows * columns <= 16777219 * 16777219) by (nonlinear_arith)
            requires
                0 <= rows <= 16777219,
                0 <= columns <= 16777219,
        ;
        rows * columns
    }

    /// The size of the chunk buffer in bytes.
    pub fn byte_size(&self) -> (bytes: u64)
        requires
            self.wf(),
        ensures
            bytes == self.spec_byte_size(),
    {
        CHUNK_BYTES * self.capacity()
    }
}

} // verus!

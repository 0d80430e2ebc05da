use vstd::prelude::*;

verus! {

/// What can go wrong in the compositor.
#[derive(Debug, PartialEq, Eq)]
pub enum Error {
    /// No graphics adapter fits the surface.
    NoSuitableGraphicsAdapter,
    /// The adapter gave no device.
    NoSuitableGraphicsDevice,
    /// The surface has no format that the adapter can present.
    IncompatibleSurface,
    /// The surface was lost and has to be made again.
    SurfaceLost,
    /// The device has no memory left for the frame.
    OutOfMemory,
    /// A bundled image could not be decoded; the text is the decoder's own.
    ImageError(String),
    MeshWithoutNormals,
    MeshWithoutTexCoords,
    /// More chunks were written than the chunk window holds.
    ChunkOverflow { chunks: usize, capacity: u64 },
    /// More instances were written than the instance buffer holds.
    InstanceOverflow { instances: usize, slots: u32 },
    /// The pixels of an atlas are not four bytes for each of its cells, or
    /// a row of it is longer than a copy can address.
    AtlasMismatch { bytes: usize, width: u32, height: u32 },
}

impl Error {
    /// Whether rendering has to stop on this error.
    pub open spec fn spec_is_fatal(&self) -> bool {
        !(self is ChunkOverflow || self is InstanceOverflow)
    }

    /// Whether rendering has to stop on this error. A write that was
    /// rejected for its size leaves the compositor as it was, so rendering
    /// may go on; every other error ends it.
    pub fn is_fatal(&self) -> (fatal: bool)
        ensures
            fatal == self.spec_is_fatal(),
    {
        match self {
            Error::ChunkOverflow { .. } => false,
            Error::InstanceOverflow { .. } => false,
            _ => true,
        }
    }

    /// A short fixed text for the error's kind.
    pub open spec fn spec_summary(&self) -> Seq<char> {
        match self {
            Error::NoSuitableGraphicsAdapter => "No suitable graphics adapter"@,
            Error::NoSuitableGraphicsDevice => "No suitable graphics device"@,
            Error::IncompatibleSurface => "Incompatible surface"@,
            Error::SurfaceLost => "Surface lost"@,
            Error::OutOfMemory => "Out of memory"@,
            Error::ImageError(_) => "Image could not be decoded"@,
            Error::MeshWithoutNormals => "Attempted to load a mesh without normals"@,
            Error::MeshWithoutTexCoords => "Attempted to load a mesh without tex_coords"@,
            Error::ChunkOverflow { .. } => "More chunks than the chunk window holds"@,
            Error::InstanceOverflow { .. } => "More instances than the buffer holds"@,
            Error::AtlasMismatch { .. } => "Atlas pixels do not fit its size"@,
        }
    }

    /// A short fixed text for the error's kind.
    pub fn summary(&self) -> (text: &'static str)
        ensures
            text@ == self.spec_summary(),
    {
        match self {
            Error::NoSuitableGraphicsAdapter => "No suitable graphics adapter",
            Error::NoSuitableGraphicsDevice => "No suitable graphics device",
            Error::IncompatibleSurface => "Incompatible surface",
            Error::SurfaceLost => "Surface lost",
            Error::OutOfMemory => "Out of memory",
            Error::ImageError(_) => "Image could not be decoded",
            Error::MeshWithoutNormals => "Attempted to load a mesh without normals",
            Error::MeshWithoutTexCoords => "Attempted to load a mesh without tex_coords",
            Error::ChunkOverflow { .. } => "More chunks than the chunk window holds",
            Error::InstanceOverflow { .. } => "More instances than the buffer holds",
            Error::AtlasMismatch { .. } => "Atlas pixels do not fit its size",
        }
    }
}

} // verus!

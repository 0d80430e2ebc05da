use vstd::prelude::*;
use crate::error::Error;

verus! {

/// The error type of the `image` crate.
#[verifier::external_type_specification]
#[verifier::external_body]
pub struct ExImageError(image::error::ImageError);

/// The bytes of one pixel of an atlas: red, green, blue and alpha.
pub const BYTES_PER_PIXEL: u32 = 4;

/// The widest atlas whose rows a texture copy can address: the bytes of a
/// row have to fit in 32 bits.
pub const MAX_ATLAS_WIDTH: u32 = 1073741823;

/// The size that the header of a GIF file gives for its image, as the
/// `image` crate reads it; `None` for bytes that it does not take for the
/// start of a GIF file.
pub uninterp spec fn gif_size(bytes: Seq<u8>) -> Option<(u32, u32)>;

/// Opens the bytes with `image::codecs::gif::GifDecoder::new` and asks the
/// decoder for `dimensions`. The contract claims that the outcome depends on
/// the bytes alone, and that each side fits in sixteen bits, which is how
/// wide the decoder reads them from the file.
#[verifier::external_body]
fn gif_dimensions(bytes: &[u8]) -> (res: Result<(u32, u32), image::error::ImageError>)
    ensures
        match res {
            Ok(size) => gif_size(bytes@) == Some(size) && size.0 <= 65535 && size.1 <= 65535,
            Err(_) => gif_size(bytes@) is None,
        },
{
    match image::codecs::gif::GifDecoder::new(bytes) {
        Ok(decoder) => Ok(image::ImageDecoder::dimensions(&decoder)),
        Err(e) => Err(e),
    }
}

/// The text of an error of the `image` crate, as its `Display` writes it.
/// Nothing is claimed of the text.
#[verifier::external_body]
fn image_error_text(error: &image::error::ImageError) -> (text: String) {
    format!("{}", error)
}

/// The size of an atlas in pixels.
#[derive(Clone, Copy, Debug, PartialEq, Eq, Structural)]
pub struct AtlasSize {
    pub width: u32,
    pub height: u32,
}

impl AtlasSize {
    /// The bytes of the pixels of an atlas of this size.
    pub open spec fn spec_byte_len(self) -> nat {
        (self.width * self.height * 4) as nat
    }

    /// The bytes of one row of pixels.
    pub open spec fn spec_bytes_per_row(self) -> nat {
        (self.width * 4) as nat
    }

    /// The bytes of the pixels of an atlas of this size.
    pub fn byte_len(self) -> (len: u64)
        requires
            self.width <= MAX_ATLAS_WIDTH,
        ensures
            len == self.spec_byte_len(),
    {
        let row: u64 = self.width as u64 * 4;
        assert(row * self.height <= 4294967292 * 4294967295) by (nonlinear_arith)
            requires
                0 <= row <= 4294967292,
                0 <= self.height <= 4294967295,
        ;
        assert(self.width * self.height * 4 == row * self.height) by (nonlinear_arith)
            requires
                row == self.width * 4,
        ;
        row * self.height as u64
    }

    /// The bytes of one row of pixels, as a texture copy wants them.
    pub fn bytes_per_row(self) -> (bytes: u32)
        requires
            self.width <= MAX_ATLAS_WIDTH,
        ensures
            bytes == self.spec_bytes_per_row(),
    {
        self.width * BYTES_PER_PIXEL
    }
}

/// Turns what opening a GIF file gave into the size of the atlas, or into
/// the library's error with the decoder's text.
pub fn size_from(opened: Result<(u32, u32), image::error::ImageError>) -> (res: Result<
    AtlasSize,
    Error,
>)
    ensures
        match opened {
            Ok(size) => res == Ok::<AtlasSize, Error>(
                (AtlasSize { width: size.0, height: size.1 }),
            ),
            Err(_) => res matches Err(Error::ImageError(_)),
        },
{
    match opened {
        Ok(size) => Ok(AtlasSize { width: size.0, height: size.1 }),
        Err(e) => Err(Error::ImageError(image_error_text(&e))),
    }
}

/// Reads the size of the image from a GIF file's bytes, without decoding
/// its pixels. Fails exactly on bytes that the decoder does not open.
pub fn probe(bytes: &[u8]) -> (res: Result<AtlasSize, Error>)
    ensures
        match gif_size(bytes@) {
            Some(size) => res == Ok::<AtlasSize, Error>(
                (AtlasSize { width: size.0, height: size.1 }),
            ) && size.0 <= 65535 && size.1 <= 65535,
            None => res matches Err(Error::ImageError(_)),
        },
{
    size_from(gif_dimensions(bytes))
}

/// A decoded sheet of tiles or sprites: its pixels row by row, four bytes
/// each, and its size.
#[derive(Debug)]
pub struct Atlas {
    data: Vec<u8>,
    size: AtlasSize,
}

/// The mathematical content of an `Atlas`.
pub struct AtlasView {
    pub data: Seq<u8>,
    pub size: AtlasSize,
}

impl View for Atlas {
    type V = AtlasView;

    closed spec fn view(&self) -> AtlasView {
        AtlasView { data: self.data@, size: self.size }
    }
}

impl Atlas {
    /// The rows can be addressed, and there are four bytes for each pixel.
    pub open spec fn wf(&self) -> bool {
        &&& self@.size.width <= MAX_ATLAS_WIDTH
        &&& self@.data.len() == self@.size.spec_byte_len()
    }

    /// Whether pixels of this length make an atlas of this size.
    pub open spec fn spec_fits(len: nat, size: AtlasSize) -> bool {
        size.width <= MAX_ATLAS_WIDTH && len == size.spec_byte_len()
    }

    /// Makes an atlas from decoded pixels. Succeeds exactly where the rows
    /// can be addressed and the pixels are four bytes for each cell of the
    /// size; the atlas then holds the pixels as they were given.
    pub fn new(data: Vec<u8>, size: AtlasSize) -> (res: Result<Atlas, Error>)
        ensures
            res is Ok <==> Atlas::spec_fits(data@.len(), size),
            res matches Ok(atlas) ==> atlas.wf() && atlas@.data == data@ && atlas@.size == size,
            res matches Err(e) ==> e == (Error::AtlasMismatch {
                bytes: data.len(),
                width: size.width,
                height: size.height,
            }),
    {
        if size.width > MAX_ATLAS_WIDTH {
            return Err(
                Error::AtlasMismatch {
                    bytes: data.len(),
                    width: size.width,
                    height: size.height,
                },
            );
        }
        if data.len() as u64 != size.byte_len() {
            return Err(
                Error::AtlasMismatch {
                    bytes: data.len(),
                    width: size.width,
                    height: size.height,
                },
            );
        }
        Ok(Atlas { data, size })
    }

    pub fn size(&self) -> (size: AtlasSize)
        ensures
            size == self@.size,
    {
        self.size
    }

    /// The pixels to copy into the texture.
    pub fn data(&self) -> (data: &Vec<u8>)
        ensures
            data@ == self@.data,
    {
        &self.data
    }

    /// The number of tiles along the top of the atlas.
    pub fn tiles_across(&self) -> (tiles: u32)
        ensures
            tiles == self@.size.width / 16,
    {
        self.size.width / 16
    }
}

} // verus!

use vstd::prelude::*;
use crate::layout::{le_bytes, push_word};
use crate::material::Material;

verus! {

/// The edge of one tile, in pixels.
pub const TILE_SIZE: u32 = 16;

/// The number of tile codes, and so the length of the catalog table.
pub const TILE_CODES: usize = 256;

/// The terrain of one grid cell.
#[derive(Copy, Clone, Debug, PartialEq, Eq, Structural)]
pub enum Tile {
    Void,
    Wall,
    Planks,
}

/// What the renderer needs to know to draw a tile: the layer of its material
/// and its two colours, each as red, green, blue and alpha.
#[derive(Copy, Clone, Debug)]
pub struct TileData {
    material: u32,
    primary_color: [u8; 4],
    secondary_color: [u8; 4],
}

/// The mathematical content of a `TileData`.
pub struct TileRecord {
    pub material: u32,
    pub primary_color: Seq<u8>,
    pub secondary_color: Seq<u8>,
}

impl View for TileData {
    type V = TileRecord;

    closed spec fn view(&self) -> TileRecord {
        TileRecord {
            material: self.material,
            primary_color: self.primary_color@,
            secondary_color: self.secondary_color@,
        }
    }
}

impl TileRecord {
    /// The record as it lies in the catalog buffer: the material as a word,
    /// least significant byte first, then the two colours.
    pub open spec fn bytes(self) -> Seq<u8> {
        le_bytes(self.material) + self.primary_color + self.secondary_color
    }
}

impl TileData {
    /// Packs the entry into the twelve bytes that the chunk shader reads.
    pub fn to_bytes(&self) -> (bytes: Vec<u8>)
        ensures
            bytes@ == self@.bytes(),
            bytes@.len() == 12,
    {
        let mut bytes: Vec<u8> = Vec::new();
        push_word(&mut bytes, self.material);
        let ghost word = bytes@;
        bytes.push(self.primary_color[0]);
        bytes.push(self.primary_color[1]);
        bytes.push(self.primary_color[2]);
        bytes.push(self.primary_color[3]);
        bytes.push(self.secondary_color[0]);
        bytes.push(self.secondary_color[1]);
        bytes.push(self.secondary_color[2]);
        bytes.push(self.secondary_color[3]);
        assert(bytes@ =~= self@.bytes());
        bytes
    }

    pub fn material(&self) -> (m: u32)
        ensures
            m == self@.material,
    {
        self.material
    }

    pub fn primary_color(&self) -> (c: [u8; 4])
        ensures
            c@ == self@.primary_color,
    {
        self.primary_color
    }

    pub fn secondary_color(&self) -> (c: [u8; 4])
        ensures
            c@ == self@.secondary_color,
    {
        self.secondary_color
    }
}

impl Tile {
    /// The tile that a code stands for. Codes that name no tile stand for
    /// `Void`, so the function is total over all 256 codes.
    pub open spec fn spec_from_code(code: u8) -> Tile {
        if code == 1 {
            Tile::Wall
        } else if code == 2 {
            Tile::Planks
        } else {
            Tile::Void
        }
    }

    pub open spec fn spec_code(self) -> u8 {
        match self {
            Tile::Void => 0,
            Tile::Wall => 1,
            Tile::Planks => 2,
        }
    }

    pub open spec fn spec_material(self) -> Material {
        match self {
            Tile::Void => Material::Void,
            Tile::Wall => Material::Wall,
            Tile::Planks => Material::OrderlyTwist,
        }
    }

    pub open spec fn spec_primary_color(self) -> Seq<u8> {
        match self {
            Tile::Void => seq![0u8, 0u8, 0u8, 0u8],
            Tile::Wall => seq![255u8, 255u8, 255u8, 255u8],
            Tile::Planks => seq![255u8, 255u8, 255u8, 255u8],
        }
    }

    pub open spec fn spec_secondary_color(self) -> Seq<u8> {
        match self {
            Tile::Void => seq![0u8, 0u8, 0u8, 0u8],
            Tile::Wall => seq![0u8, 0u8, 255u8, 255u8],
            Tile::Planks => seq![220u8, 220u8, 220u8, 255u8],
        }
    }

    /// The catalog entry of a tile.
    pub open spec fn spec_record(self) -> TileRecord {
        TileRecord {
            material: self.spec_material().spec_index(),
            primary_color: self.spec_primary_color(),
            secondary_color: self.spec_secondary_color(),
        }
    }

    /// The code under which a tile is stored in a chunk.
    pub fn code(self) -> (code: u8)
        ensures
            code == self.spec_code(),
            Tile::spec_from_code(code) == self,
    {
        match self {
            Tile::Void => 0,
            Tile::Wall => 1,
            Tile::Planks => 2,
        }
    }

    /// Reads a stored code. Never fails: a code that names no tile is `Void`.
    pub fn from_code(code: u8) -> (tile: Tile)
        ensures
            tile == Tile::spec_from_code(code),
            code > 2 ==> tile == Tile::Void,
    {
        if code == 1 {
            Tile::Wall
        } else if code == 2 {
            Tile::Planks
        } else {
            Tile::Void
        }
    }

    /// Get the material of a specific tile
    pub fn material(self) -> (m: Material)
        ensures
            m == self.spec_material(),
    {
        match self {
            Tile::Void => Material::Void,
            Tile::Wall => Material::Wall,
            Tile::Planks => Material::OrderlyTwist,
        }
    }

    /// Get the primary color of a specific tile
    pub fn primary_color(self) -> (c: [u8; 4])
        ensures
            c@ == self.spec_primary_color(),
    {
        let c: [u8; 4] = match self {
            Tile::Void => [0, 0, 0, 0],
            Tile::Wall => [255, 255, 255, 255],
            Tile::Planks => [255, 255, 255, 255],
        };
        assert(c@ =~= self.spec_primary_color());
        c
    }

    /// Get the secondary color of a specific tile
    pub fn secondary_color(self) -> (c: [u8; 4])
        ensures
            c@ == self.spec_secondary_color(),
    {
        let c: [u8; 4] = match self {
            Tile::Wall => [0, 0, 255, 255],
            Tile::Planks => [220, 220, 220, 255],
            _ => [0, 0, 0, 0],
        };
        assert(c@ =~= self.spec_secondary_color());
        c
    }

    /// The catalog entry of a tile.
    pub fn data(self) -> (data: TileData)
        ensures
            data@ == self.spec_record(),
    {
        TileData {
            material: self.material().index(),
            primary_color: self.primary_color(),
            secondary_color: self.secondary_color(),
        }
    }

    /// Looks a raw code up in the catalog. Defined for every code; the codes
    /// above the last tile give the entry of `Void`.
    pub fn lookup(code: u8) -> (data: TileData)
        ensures
            data@ == Tile::spec_from_code(code).spec_record(),
            code > 2 ==> data@ == Tile::Void.spec_record(),
    {
        Tile::from_code(code).data()
    }

    /// The bytes of the whole catalog: the packed entry of every code, in
    /// code order.
    pub open spec fn spec_table_bytes() -> Seq<u8> {
        Seq::new(
            3072,
            |i: int| Tile::spec_from_code((i / 12) as u8).spec_record().bytes()[i % 12],
        )
    }

    /// Packs the whole catalog for the buffer that the chunk shader indexes
    /// by the raw tile byte.
    pub fn table_bytes() -> (bytes: Vec<u8>)
        ensures
            bytes@ == Tile::spec_table_bytes(),
            bytes@.len() == 3072,
    {
        let mut bytes: Vec<u8> = Vec::new();
        let mut code: usize = 0;
        while code < TILE_CODES
            invariant
                code <= TILE_CODES,
                bytes@.len() == 12 * code,
                forall|k: int|
                    0 <= k < 12 * code ==> #[trigger] bytes@[k] == Tile::spec_from_code(
                        (k / 12) as u8,
                    ).spec_record().bytes()[k % 12],
            decreases TILE_CODES - code,
        {
            let mut entry: Vec<u8> = Tile::lookup(code as u8).to_bytes();
            let ghost before = bytes@;
            bytes.append(&mut entry);
            assert forall|k: int| 0 <= k < 12 * (code + 1) implies #[trigger] bytes@[k]
                == Tile::spec_from_code((k / 12) as u8).spec_record().bytes()[k % 12] by {
                if k < 12 * code {
                    assert(bytes@[k] == before[k]);
                } else {
                    assert(k / 12 == code);
                    assert(k % 12 == k - 12 * code);
                }
            }
            code = code + 1;
        }
        assert(bytes@ =~= Tile::spec_table_bytes());
        bytes
    }

    /// The whole catalog as a dense table with one entry per code, in code
    /// order, so that a shader can index it by the raw tile byte.
    pub fn tile_data() -> (atlas: Vec<TileData>)
        ensures
            atlas@.len() == TILE_CODES,
            forall|i: int|
                0 <= i < TILE_CODES ==> (#[trigger] atlas@[i])@ == Tile::spec_from_code(
                    i as u8,
                ).spec_record(),
    {
        let mut atlas: Vec<TileData> = Vec::new();
        let mut i: usize = 0;
        while i < TILE_CODES
            invariant
                i <= TILE_CODES,
                atlas@.len() == i,
                forall|k: int|
                    0 <= k < i ==> (#[trigger] atlas@[k])@ == Tile::spec_from_code(
                        k as u8,
                    ).spec_record(),
            decreases TILE_CODES - i,
        {
            atlas.push(Tile::lookup(i as u8));
            i = i + 1;
        }
        atlas
    }
}

} // verus!

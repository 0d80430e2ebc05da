use vstd::prelude::*;
use crate::layout::zeros;
use crate::light::Light;
use crate::tile::Tile;

verus! {

/// The codes of one row of tiles.
pub open spec fn spec_row_codes(row: Seq<Tile>) -> Seq<u8> {
    Seq::new(row.len(), |i: int| row[i].spec_code())
}

/// The codes of all rows, one row after the other.
pub open spec fn spec_codes<const COUNT: usize>(rows: Seq<[Tile; COUNT]>) -> Seq<u8>
    decreases rows.len(),
{
    if rows.len() == 0 {
        Seq::empty()
    } else {
        spec_codes(rows.drop_last()) + spec_row_codes(rows.last()@)
    }
}

/// The fewest zero bytes that bring a length to a multiple of four.
pub open spec fn spec_padding(len: nat) -> nat {
    ((4 - len % 4) % 4) as nat
}

/// The codes followed by zeros up to a multiple of four bytes.
pub open spec fn spec_padded(codes: Seq<u8>) -> Seq<u8> {
    codes + zeros(spec_padding(codes.len()) as int)
}

/// The codes of all rows have one byte for each tile.
pub proof fn lemma_codes_len<const COUNT: usize>(rows: Seq<[Tile; COUNT]>)
    ensures
        spec_codes(rows).len() == rows.len() * COUNT,
    decreases rows.len(),
{
    if rows.len() > 0 {
        lemma_codes_len(rows.drop_last());
        assert(rows.drop_last().len() * COUNT + COUNT == rows.len() * COUNT)
            by (nonlinear_arith)
            requires
                rows.drop_last().len() + 1 == rows.len(),
        ;
    }
}

/// A map as one flat run of tile codes, with its lights.
#[derive(Debug)]
pub struct TileMap {
    layout: Vec<u8>,
    pub width: u32,
    pub height: u32,
    pub lights: Vec<Light>,
}

/// The mathematical content of a `TileMap`.
pub struct TileMapView {
    pub layout: Seq<u8>,
    pub width: u32,
    pub height: u32,
    pub lights: Seq<Light>,
}

impl View for TileMap {
    type V = TileMapView;

    closed spec fn view(&self) -> TileMapView {
        TileMapView {
            layout: self.layout@,
            width: self.width,
            height: self.height,
            lights: self.lights@,
        }
    }
}

impl TileMap {
    /// Makes a map from rows of `COUNT` tiles. The layout is the codes of
    /// the rows in order, filled with zeros to a multiple of four bytes; the
    /// width is `COUNT`, and the height is the length of the layout.
    pub fn new<const COUNT: usize>(layout: Vec<[Tile; COUNT]>, lights: Vec<Light>) -> (map: TileMap)
        requires
            layout@.len() * COUNT + 3 <= u32::MAX,
            COUNT <= u32::MAX,
        ensures
            map@.layout == spec_padded(spec_codes(layout@)),
            map@.layout.len() % 4 == 0,
            map@.width == COUNT,
            map@.height == map@.layout.len(),
            map@.lights == lights@,
    {
        let rows: usize = layout.len();
        let mut codes: Vec<u8> = Vec::new();
        let mut r: usize = 0;
        assert(layout@.subrange(0, 0) =~= Seq::<[Tile; COUNT]>::empty());
        while r < rows
            invariant
                r <= rows,
                rows == layout@.len(),
                codes@ == spec_codes(layout@.subrange(0, r as int)),
            decreases rows - r,
        {
            let ghost before = codes@;
            let mut c: usize = 0;
            while c < COUNT
                invariant
                    c <= COUNT,
                    r < rows,
                    rows == layout@.len(),
                    codes@.len() == before.len() + c,
                    forall|k: int| 0 <= k < before.len() ==> codes@[k] == before[k],
                    forall|k: int|
                        before.len() <= k < before.len() + c ==> #[trigger] codes@[k]
                            == layout@[r as int]@[k - before.len()].spec_code(),
                decreases COUNT - c,
            {
                codes.push(layout[r][c].code());
                c = c + 1;
            }
            proof {
                let done = layout@.subrange(0, r as int + 1);
                assert(done.drop_last() =~= layout@.subrange(0, r as int));
                assert(done.last() == layout@[r as int]);
                assert(codes@ =~= before + spec_row_codes(layout@[r as int]@));
            }
            r = r + 1;
        }
        proof {
            assert(layout@.subrange(0, rows as int) =~= layout@);
            lemma_codes_len(layout@);
        }
        let ghost flat = codes@;
        while codes.len() % 4 != 0
            invariant
                flat.len() + 3 <= u32::MAX,
                flat.len() <= codes@.len() <= flat.len() + spec_padding(flat.len()),
                (codes@.len() - flat.len()) + spec_padding(codes@.len()) == spec_padding(
                    flat.len(),
                ),
                codes@ == flat + zeros(codes@.len() - flat.len()),
            decreases spec_padding(codes@.len()),
        {
            codes.push(0);
            assert(codes@ =~= flat + zeros(codes@.len() - flat.len()));
        }
        assert(codes@ =~= spec_padded(flat)) by {
            assert(spec_padding(codes@.len()) == 0);
        }
        let width: u32 = COUNT as u32;
        let height: u32 = codes.len() as u32;
        TileMap { layout: codes, width, height, lights }
    }

    /// The tile codes of the map, padded to a multiple of four bytes.
    pub fn layout(&self) -> (layout: &[u8])
        ensures
            layout@ == self@.layout,
    {
        self.layout.as_slice()
    }

    pub fn width(&self) -> (width: u32)
        ensures
            width == self@.width,
    {
        self.width
    }

    pub fn height(&self) -> (height: u32)
        ensures
            height == self@.height,
    {
        self.height
    }

    pub fn lights(&self) -> (lights: &Vec<Light>)
        ensures
            lights@ == self@.lights,
    {
        &self.lights
    }

    /// The number of rows that the layout fills at the map's width, or zero
    /// for a map of no width.
    pub fn rows(&self) -> (rows: u32)
        ensures
            rows == if self@.width == 0 {
                0
            } else {
                (self@.layout.len() as u32) / self@.width
            },
    {
        if self.width == 0 {
            0
        } else {
            (self.layout.len() as u32) / self.width
        }
    }
}

impl Default for TileMap {
    /// The map of no tiles and no lights.
    fn default() -> (map: TileMap)
        ensures
            map@.layout == Seq::<u8>::empty(),
            map@.width == 0,
            map@.height == 0,
            map@.lights == Seq::<Light>::empty(),
    {
        TileMap { layout: Vec::new(), width: 0, height: 0, lights: Vec::new() }
    }
}

} // verus!

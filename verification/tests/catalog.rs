use tile_compositor::color::Color;
use tile_compositor::material::{Material, MATERIAL_COUNT};
use tile_compositor::tile::{Tile, TILE_CODES};

#[test]
fn every_code_has_a_record() {
    let table = Tile::tile_data();
    assert_eq!(table.len(), TILE_CODES);
    for code in 0..=255u8 {
        let data = Tile::lookup(code);
        let row = &table[code as usize];
        assert_eq!(row.material(), data.material());
        assert_eq!(row.primary_color(), data.primary_color());
        assert_eq!(row.secondary_color(), data.secondary_color());
    }
}

#[test]
fn unknown_codes_are_void() {
    let void = Tile::Void.data();
    for code in 3..=255u8 {
        assert_eq!(Tile::from_code(code), Tile::Void);
        let data = Tile::lookup(code);
        assert_eq!(data.material(), void.material());
        assert_eq!(data.primary_color(), [0, 0, 0, 0]);
        assert_eq!(data.secondary_color(), [0, 0, 0, 0]);
    }
}

#[test]
fn known_tiles_have_their_records() {
    assert_eq!(Tile::from_code(0), Tile::Void);
    assert_eq!(Tile::from_code(1), Tile::Wall);
    assert_eq!(Tile::from_code(2), Tile::Planks);
    assert_eq!(Tile::Wall.code(), 1);
    assert_eq!(Tile::Planks.code(), 2);
    assert_eq!(Tile::Void.material(), Material::Void);
    assert_eq!(Tile::Wall.material(), Material::Wall);
    assert_eq!(Tile::Planks.material(), Material::OrderlyTwist);
    assert_eq!(Tile::Wall.primary_color(), [255, 255, 255, 255]);
    assert_eq!(Tile::Wall.secondary_color(), [0, 0, 255, 255]);
    assert_eq!(Tile::Planks.secondary_color(), [220, 220, 220, 255]);
    assert_eq!(Tile::lookup(1).material(), 2);
    assert_eq!(Tile::lookup(2).material(), 3);
    assert_eq!(Tile::lookup(0).material(), 0);
}

#[test]
fn materials_are_numbered_in_order() {
    let all = Material::all();
    assert_eq!(all.len() as u32, MATERIAL_COUNT);
    for (i, material) in all.iter().enumerate() {
        assert_eq!(material.index(), i as u32);
        assert_eq!(Material::from_index(i as u32), Some(*material));
    }
    assert_eq!(Material::from_index(5), None);
    assert_eq!(Material::Void.texture_path(), "void");
    assert_eq!(Material::Solid.texture_path(), "solid");
    assert_eq!(Material::Wall.texture_path(), "wall");
    assert_eq!(Material::OrderlyTwist.texture_path(), "orderly_twist");
    assert_eq!(Material::UncutTile.texture_path(), "uncut_tile");
}

#[test]
fn a_new_color_is_opaque() {
    let color = Color::new(1, 2, 3);
    assert_eq!(color.to_bytes(), [1, 2, 3, 255]);
    assert_eq!((color.r, color.g, color.b, color.pad()), (1, 2, 3, 255));
    assert_eq!(Color::zeroed().to_bytes(), [0, 0, 0, 0]);
}

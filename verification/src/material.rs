use vstd::prelude::*;

verus! {

/// The surface texture a tile is drawn with.
#[derive(Copy, Clone, Debug, PartialEq, Eq, Structural)]
pub enum Material {
    Void,
    Solid,
    Wall,
    OrderlyTwist,
    UncutTile,
}

/// How many materials exist; also the number of layers in the material
/// texture array.
pub const MATERIAL_COUNT: u32 = 5;

impl Material {
    /// The position of a material in declaration order, which is the layer
    /// of the material texture array that holds it.
    pub open spec fn spec_index(self) -> u32 {
        match self {
            Material::Void => 0,
            Material::Solid => 1,
            Material::Wall => 2,
            Material::OrderlyTwist => 3,
            Material::UncutTile => 4,
        }
    }

    /// The material at a position in declaration order, if there is one.
    pub open spec fn spec_from_index(index: u32) -> Option<Material> {
        if index == 0 {
            Some(Material::Void)
        } else if index == 1 {
            Some(Material::Solid)
        } else if index == 2 {
            Some(Material::Wall)
        } else if index == 3 {
            Some(Material::OrderlyTwist)
        } else if index == 4 {
            Some(Material::UncutTile)
        } else {
            None
        }
    }

    /// The name of each material's texture, as a sequence of characters.
    pub open spec fn spec_texture_path(self) -> Seq<char> {
        match self {
            Material::Void => "void"@,
            Material::Solid => "solid"@,
            Material::Wall => "wall"@,
            Material::OrderlyTwist => "orderly_twist"@,
            Material::UncutTile => "uncut_tile"@,
        }
    }

    pub fn index(self) -> (i: u32)
        ensures
            i == self.spec_index(),
            i < MATERIAL_COUNT,
            Material::spec_from_index(i) == Some(self),
    {
        match self {
            Material::Void => 0,
            Material::Solid => 1,
            Material::Wall => 2,
            Material::OrderlyTwist => 3,
            Material::UncutTile => 4,
        }
    }

    /// Succeeds exactly on the indices below `MATERIAL_COUNT`.
    pub fn from_index(index: u32) -> (m: Option<Material>)
        ensures
            m == Material::spec_from_index(index),
            m is Some <==> index < MATERIAL_COUNT,
            m matches Some(found) ==> found.spec_index() == index,
    {
        if index == 0 {
            Some(Material::Void)
        } else if index == 1 {
            Some(Material::Solid)
        } else if index == 2 {
            Some(Material::Wall)
        } else if index == 3 {
            Some(Material::OrderlyTwist)
        } else if index == 4 {
            Some(Material::UncutTile)
        } else {
            None
        }
    }

    /// The file stem under which the material's texture is stored.
    pub fn texture_path(self) -> (path: &'static str)
        ensures
            path@ == self.spec_texture_path(),
    {
        match self {
            Material::Void => "void",
            Material::Solid => "solid",
            Material::Wall => "wall",
            Material::OrderlyTwist => "orderly_twist",
            Material::UncutTile => "uncut_tile",
        }
    }

    /// Every material, in declaration order.
    pub fn all() -> (materials: Vec<Material>)
        ensures
            materials@.len() == MATERIAL_COUNT,
            forall|i: int|
                0 <= i < materials@.len() ==> (#[trigger] materials@[i]).spec_index() == i,
    {
        let mut materials: Vec<Material> = Vec::new();
        materials.push(Material::Void);
        materials.push(Material::Solid);
        materials.push(Material::Wall);
        materials.push(Material::OrderlyTwist);
        materials.push(Material::UncutTile);
        materials
    }
}

} // verus!

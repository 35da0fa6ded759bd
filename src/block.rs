use vstd::prelude::*;

verus! {

/// The closed set of block kinds a diorama can hold.
#[derive(Clone, Copy, Debug, PartialEq, Eq, Hash, Structural)]
pub enum BlockType {
    Terracotta,
    RedWool,
    WhiteGlass,
    Grass,
    ConcretePowder,
    OakWood,
    GreenWool,
    Leaves,
    MangroveWood,
}

/// The block kind that a layout character stands for, if any.
pub open spec fn block_of_char(c: char) -> Option<BlockType> {
    if c == 'T' {
        Some(BlockType::Terracotta)
    } else if c == 'R' {
        Some(BlockType::RedWool)
    } else if c == 'W' {
        Some(BlockType::WhiteGlass)
    } else if c == 'G' {
        Some(BlockType::Grass)
    } else if c == 'C' {
        Some(BlockType::ConcretePowder)
    } else if c == 'O' {
        Some(BlockType::OakWood)
    } else if c == 'V' {
        Some(BlockType::GreenWool)
    } else if c == 'L' {
        Some(BlockType::Leaves)
    } else if c == 'M' {
        Some(BlockType::MangroveWood)
    } else {
        None
    }
}

/// An 8-bit-per-channel color with alpha.
#[derive(Clone, Copy, Debug, PartialEq, Eq, Hash, Structural)]
pub struct Rgba {
    pub r: u8,
    pub g: u8,
    pub b: u8,
    pub a: u8,
}

/// The flat color a block kind is drawn with when it has no texture.
pub open spec fn base_color_of(t: BlockType) -> Rgba {
    match t {
        BlockType::Terracotta => Rgba { r: 160, g: 83, b: 65, a: 255 },
        BlockType::RedWool => Rgba { r: 176, g: 46, b: 38, a: 255 },
        BlockType::WhiteGlass => Rgba { r: 255, g: 255, b: 255, a: 180 },
        BlockType::Grass => Rgba { r: 91, g: 164, b: 81, a: 255 },
        BlockType::ConcretePowder => Rgba { r: 169, g: 168, b: 159, a: 255 },
        BlockType::OakWood => Rgba { r: 162, g: 130, b: 78, a: 255 },
        BlockType::GreenWool => Rgba { r: 94, g: 124, b: 22, a: 255 },
        BlockType::Leaves => Rgba { r: 68, g: 119, b: 68, a: 255 },
        BlockType::MangroveWood => Rgba { r: 117, g: 86, b: 71, a: 255 },
    }
}

/// The brighter color used for fallback cubes and reflections.
pub open spec fn enhanced_color_of(t: BlockType) -> Rgba {
    match t {
        BlockType::Terracotta => Rgba { r: 200, g: 100, b: 80, a: 255 },
        BlockType::RedWool => Rgba { r: 220, g: 60, b: 50, a: 255 },
        BlockType::WhiteGlass => Rgba { r: 255, g: 255, b: 255, a: 200 },
        BlockType::Grass => Rgba { r: 120, g: 200, b: 100, a: 255 },
        BlockType::ConcretePowder => Rgba { r: 200, g: 200, b: 190, a: 255 },
        BlockType::OakWood => Rgba { r: 200, g: 160, b: 100, a: 255 },
        BlockType::GreenWool => Rgba { r: 120, g: 160, b: 40, a: 255 },
        BlockType::Leaves => Rgba { r: 90, g: 160, b: 90, a: 255 },
        BlockType::MangroveWood => Rgba { r: 150, g: 110, b: 90, a: 255 },
    }
}

/// The relative path of a block kind's texture image.
pub open spec fn texture_path_of(t: BlockType) -> Seq<char> {
    match t {
        BlockType::Terracotta => "textures/Red Terracotta.png"@,
        BlockType::RedWool => "textures/Red Wool.png"@,
        BlockType::WhiteGlass => "textures/White Glass.png"@,
        BlockType::Grass => "textures/Grass.png"@,
        BlockType::ConcretePowder => "textures/Concrete Powder.png"@,
        BlockType::OakWood => "textures/Oak Wood.png"@,
        BlockType::GreenWool => "textures/Green Wool.png"@,
        BlockType::Leaves => "textures/Leaves.png"@,
        BlockType::MangroveWood => "textures/Mangrove Wood.png"@,
    }
}

impl BlockType {
    /// Maps a layout character to its block kind; every other character is empty space.
    pub fn from_char(c: char) -> (r: Option<BlockType>)
        ensures
            r == block_of_char(c),
    {
        match c {
            'T' => Some(BlockType::Terracotta),
            'R' => Some(BlockType::RedWool),
            'W' => Some(BlockType::WhiteGlass),
            'G' => Some(BlockType::Grass),
            'C' => Some(BlockType::ConcretePowder),
            'O' => Some(BlockType::OakWood),
            'V' => Some(BlockType::GreenWool),
            'L' => Some(BlockType::Leaves),
            'M' => Some(BlockType::MangroveWood),
            _ => None,
        }
    }

    /// The flat color of this block kind.
    pub fn get_color(&self) -> (r: Rgba)
        ensures
            r == base_color_of(*self),
    {
        match self {
            BlockType::Terracotta => Rgba { r: 160, g: 83, b: 65, a: 255 },
            BlockType::RedWool => Rgba { r: 176, g: 46, b: 38, a: 255 },
            BlockType::WhiteGlass => Rgba { r: 255, g: 255, b: 255, a: 180 },
            BlockType::Grass => Rgba { r: 91, g: 164, b: 81, a: 255 },
            BlockType::ConcretePowder => Rgba { r: 169, g: 168, b: 159, a: 255 },
            BlockType::OakWood => Rgba { r: 162, g: 130, b: 78, a: 255 },
            BlockType::GreenWool => Rgba { r: 94, g: 124, b: 22, a: 255 },
            BlockType::Leaves => Rgba { r: 68, g: 119, b: 68, a: 255 },
            BlockType::MangroveWood => Rgba { r: 117, g: 86, b: 71, a: 255 },
        }
    }

    /// Where the texture of this block kind is expected on disk.
    pub fn get_texture_path(&self) -> (r: &'static str)
        ensures
            r@ == texture_path_of(*self),
    {
        match self {
            BlockType::Terracotta => "textures/Red Terracotta.png",
            BlockType::RedWool => "textures/Red Wool.png",
            BlockType::WhiteGlass => "textures/White Glass.png",
            BlockType::Grass => "textures/Grass.png",
            BlockType::ConcretePowder => "textures/Concrete Powder.png",
            BlockType::OakWood => "textures/Oak Wood.png",
            BlockType::GreenWool => "textures/Green Wool.png",
            BlockType::Leaves => "textures/Leaves.png",
            BlockType::MangroveWood => "textures/Mangrove Wood.png",
        }
    }

    /// The brighter color of this block kind.
    pub fn get_enhanced_color(&self) -> (r: Rgba)
        ensures
            r == enhanced_color_of(*self),
    {
        match self {
            BlockType::Terracotta => Rgba { r: 200, g: 100, b: 80, a: 255 },
            BlockType::RedWool => Rgba { r: 220, g: 60, b: 50, a: 255 },
            BlockType::WhiteGlass => Rgba { r: 255, g: 255, b: 255, a: 200 },
            BlockType::Grass => Rgba { r: 120, g: 200, b: 100, a: 255 },
            BlockType::ConcretePowder => Rgba { r: 200, g: 200, b: 190, a: 255 },
            BlockType::OakWood => Rgba { r: 200, g: 160, b: 100, a: 255 },
            BlockType::GreenWool => Rgba { r: 120, g: 160, b: 40, a: 255 },
            BlockType::Leaves => Rgba { r: 90, g: 160, b: 90, a: 255 },
            BlockType::MangroveWood => Rgba { r: 150, g: 110, b: 90, a: 255 },
        }
    }
}

} // verus!

//! Visualization registration for produce: the sprite catalogue and the
//! marker for the tilemap layer that draws it. Pure data — the host engine
//! does the rendering.
use vstd::prelude::*;

verus! {

/// Width in pixels of one produce tile sprite.
pub open const PRODUCE_TILE_WIDTH: u32 = 48;

/// Height in pixels of one produce tile sprite.
pub open const PRODUCE_TILE_HEIGHT: u32 = 54;

/// Draw-order depth of the produce layer, above organisms and terrain.
pub open const PRODUCE_MAP_Z: u32 = 2;

/// Enumerates produce sprites.
#[derive(Clone, Copy, Debug, Hash, PartialEq, Eq, Structural)]
pub enum ProduceSprite {
    /// Sprite representing food.
    Food,
}

impl ProduceSprite {
    /// Directory under the asset root that holds the produce sprites.
    pub fn root_path() -> (r: &'static str)
        ensures
            r@ == "produce"@,
    {
        "produce"
    }

    /// File name of this sprite's image under [`ProduceSprite::root_path`].
    pub fn leaf_path(&self) -> (r: &'static str)
        ensures
            r@ == "tile-food-balls.png"@,
    {
        match self {
            ProduceSprite::Food => "tile-food-balls.png",
        }
    }

    /// Every produce sprite, for iterating the enum.
    pub fn variants() -> (v: Vec<ProduceSprite>)
        ensures
            v@ == seq![ProduceSprite::Food],
    {
        let mut v: Vec<ProduceSprite> = Vec::new();
        v.push(ProduceSprite::Food);
        proof {
            assert(v@ =~= seq![ProduceSprite::Food]);
        }
        v
    }
}

/// Marker component for the entity that manages visualization of produce.
/// Its layer lies above the organisms layer, which lies above the terrain
/// layer.
#[derive(Clone, Copy, Debug)]
pub struct ProduceTilemap;

impl ProduceTilemap {
    /// Pixel size of one tile of the produce layer: width, then height.
    pub fn tile_size() -> (wh: (u32, u32))
        ensures
            wh.0 == PRODUCE_TILE_WIDTH,
            wh.1 == PRODUCE_TILE_HEIGHT,
    {
        (PRODUCE_TILE_WIDTH, PRODUCE_TILE_HEIGHT)
    }

    /// Draw-order depth of the produce layer.
    pub fn map_z() -> (z: u32)
        ensures
            z == PRODUCE_MAP_Z,
    {
        PRODUCE_MAP_Z
    }
}

} // verus!

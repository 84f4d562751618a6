//! Tests for the produce visualization catalogue.
use emergence_lib::produce::ProduceSprite;
use emergence_lib::produce::ProduceTilemap;
use emergence_lib::produce::PRODUCE_MAP_Z;
use emergence_lib::produce::PRODUCE_TILE_HEIGHT;
use emergence_lib::produce::PRODUCE_TILE_WIDTH;

#[test]
fn food_sprite_paths() {
    assert_eq!(ProduceSprite::root_path(), "produce");
    assert_eq!(ProduceSprite::Food.leaf_path(), "tile-food-balls.png");
}

#[test]
fn sprite_variants_enumerate_the_catalogue() {
    assert_eq!(ProduceSprite::variants(), vec![ProduceSprite::Food]);
}

#[test]
fn produce_layer_geometry() {
    assert_eq!(ProduceTilemap::tile_size(), (PRODUCE_TILE_WIDTH, PRODUCE_TILE_HEIGHT));
    assert_eq!(ProduceTilemap::tile_size(), (48, 54));
    assert_eq!(ProduceTilemap::map_z(), PRODUCE_MAP_Z);
    assert_eq!(ProduceTilemap::map_z(), 2);
}

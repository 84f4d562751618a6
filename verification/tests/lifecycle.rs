//! Lifecycle tests: growth, upkeep, despawn and whole ticks over concrete
//! fixed-point values (thousandths of a unit).
use emergence_lib::mass::apply_growth;
use emergence_lib::mass::apply_upkeep;
use emergence_lib::structures::Composition;
use emergence_lib::structures::FungiBundle;
use emergence_lib::structures::Plant;
use emergence_lib::structures::PlantBundle;
use emergence_lib::structures::Structure;
use emergence_lib::structures::StructureBundle;
use emergence_lib::structures::StructureEntity;
use emergence_lib::structures::StructuresPlugin;
use emergence_lib::structures::cleanup;
use emergence_lib::structures::photosynthesize;
use emergence_lib::structures::upkeep;
use emergence_lib::structures::STRUCTURE_DESPAWN_MASS;
use emergence_lib::structures::STRUCTURE_STARTING_MASS;
use emergence_lib::structures::STRUCTURE_UPKEEP_RATE;
use emergence_lib::pathfinding::TilePos;

fn entity(id: u64, mass: i64, upkeep_rate: i64, despawn_mass: i64, rate: Option<i64>) -> StructureEntity {
    StructureEntity {
        id,
        structure: Structure { upkeep_rate, despawn_mass },
        composition: Composition { mass },
        plant: rate.map(|photosynthesis_rate| Plant { photosynthesis_rate }),
    }
}

#[test]
fn growth_scenario() {
    // mass 10.0, rate 0.1, dt 1.0: new mass = 10 + 0.1 * 10^(2/3) ~ 10.464
    assert_eq!(apply_growth(10_000, 100, 1_000), 10_464);
}

#[test]
fn growth_monotonic_concrete() {
    for &(mass, rate, dt) in &[(1i64, 1i64, 1i64), (500, 100, 1_000), (10_000, 0, 1_000), (1_000_000, 250, 500)] {
        let grown = apply_growth(mass, rate, dt);
        assert!(grown >= mass);
    }
}

#[test]
fn growth_zero_rate_is_noop() {
    assert_eq!(apply_growth(10_000, 0, 1_000), 10_000);
    assert_eq!(apply_growth(10_000, 100, 0), 10_000);
}

#[test]
fn growth_nonpositive_mass_is_noop() {
    assert_eq!(apply_growth(0, 100, 1_000), 0);
    assert_eq!(apply_growth(-5_000, 100, 1_000), -5_000);
}

#[test]
fn upkeep_scenario() {
    // mass 10.0, rate 0.05, dt 1.0: new mass = 10 - 0.05 * 10 = 9.5
    assert_eq!(apply_upkeep(10_000, 50, 1_000), 9_500);
}

#[test]
fn upkeep_never_gains_nonnegative_mass() {
    for &(mass, rate, dt) in &[(0i64, 100i64, 1_000i64), (1, 1, 1), (10_000, 50, 1_000), (1_000_000, 999, 999)] {
        assert!(apply_upkeep(mass, rate, dt) <= mass);
    }
}

#[test]
fn upkeep_can_drive_mass_negative() {
    // decay fraction 1000.0: far past zero in one step
    assert_eq!(apply_upkeep(10_000, 1_000_000, 1_000), 10_000 - 10_000_000);
}

#[test]
fn upkeep_decays_negative_mass_toward_zero() {
    assert_eq!(apply_upkeep(-10_000, 100, 1_000), -9_000);
}

#[test]
fn despawn_at_threshold() {
    // mass 5.0, threshold 5.0: despawned this tick
    let mut entities = vec![entity(1, 5_000, 50, 5_000, None)];
    cleanup(&mut entities);
    assert!(entities.is_empty());
}

#[test]
fn despawn_keeps_living_in_order() {
    let mut entities = vec![
        entity(1, 9_000, 50, 5_000, None),
        entity(2, 4_000, 50, 5_000, None),
        entity(3, 8_000, 50, 5_000, Some(100)),
    ];
    cleanup(&mut entities);
    let ids: Vec<u64> = entities.iter().map(|e| e.id).collect();
    assert_eq!(ids, vec![1, 3]);
}

#[test]
fn despawn_idempotent_concrete() {
    let mut entities = vec![
        entity(1, 9_000, 50, 5_000, None),
        entity(2, 4_000, 50, 5_000, None),
        entity(3, 5_000, 50, 5_000, None),
    ];
    cleanup(&mut entities);
    let ids_once: Vec<u64> = entities.iter().map(|e| e.id).collect();
    cleanup(&mut entities);
    let ids_twice: Vec<u64> = entities.iter().map(|e| e.id).collect();
    assert_eq!(ids_once, vec![1]);
    assert_eq!(ids_twice, ids_once);
}

#[test]
fn despawn_on_empty_is_noop() {
    let mut entities: Vec<StructureEntity> = Vec::new();
    cleanup(&mut entities);
    assert!(entities.is_empty());
}

#[test]
fn photosynthesize_only_touches_plants() {
    let mut entities = vec![
        entity(1, 10_000, 50, 10, Some(100)),
        entity(2, 10_000, 50, 10, None),
    ];
    photosynthesize(&mut entities, 1_000);
    assert_eq!(entities[0].composition.mass, 10_464);
    assert_eq!(entities[1].composition.mass, 10_000);
}

#[test]
fn upkeep_touches_every_structure() {
    let mut entities = vec![
        entity(1, 10_000, 50, 10, Some(100)),
        entity(2, 10_000, 50, 10, None),
    ];
    upkeep(&mut entities, 1_000);
    assert_eq!(entities[0].composition.mass, 9_500);
    assert_eq!(entities[1].composition.mass, 9_500);
}

#[test]
fn run_tick_grows_then_decays_then_despawns() {
    let mut entities = vec![
        // plant: grows to 10.464, then pays upkeep on the grown mass
        entity(1, 10_000, 50, 5_000, Some(100)),
        // fungus at the edge: no growth, upkeep pushes it to the threshold
        entity(2, 5_000, 50, 4_750, None),
    ];
    StructuresPlugin::run_tick(&mut entities, 1_000);
    // upkeep saw 10_464: delta = 50 * 1000 * 10_464 / 1_000_000 = 523
    assert_eq!(entities[0].composition.mass, 10_464 - 523);
    // the fungus fell exactly to its threshold and despawned the same tick
    assert_eq!(entities.len(), 1);
    assert_eq!(entities[0].id, 1);
}

#[test]
fn structure_default_carries_configured_values() {
    let s = Structure::default();
    assert_eq!(s.upkeep_rate, STRUCTURE_UPKEEP_RATE);
    assert_eq!(s.despawn_mass, STRUCTURE_DESPAWN_MASS);
    let c = Composition::default();
    assert_eq!(c.mass, STRUCTURE_STARTING_MASS);
    let p = Plant::default();
    assert_eq!(p.photosynthesis_rate, 0);
}

#[test]
fn plant_bundle_new_spawns_with_starting_mass() {
    let b = PlantBundle::new(TilePos { x: 3, y: 4 });
    assert_eq!(b.structure_bundle.composition.mass, STRUCTURE_STARTING_MASS);
    assert_eq!(b.structure_bundle.structure.upkeep_rate, STRUCTURE_UPKEEP_RATE);
    assert_eq!(b.structure_bundle.structure.despawn_mass, STRUCTURE_DESPAWN_MASS);
    assert_eq!(b.plant.photosynthesis_rate, 0);
    assert_eq!(b.position, TilePos { x: 3, y: 4 });
    assert!(b.impassable);
}

#[test]
fn fungi_bundle_new_spawns_with_starting_mass() {
    let b = FungiBundle::new(TilePos { x: 1, y: 2 });
    assert_eq!(b.structure_bundle.composition.mass, STRUCTURE_STARTING_MASS);
    assert_eq!(b.structure_bundle.structure.upkeep_rate, STRUCTURE_UPKEEP_RATE);
    assert_eq!(b.position, TilePos { x: 1, y: 2 });
}

#[test]
fn spawned_entities_carry_their_bundles() {
    let pb = PlantBundle::new(TilePos { x: 0, y: 0 });
    let plant = StructureEntity::spawn_plant(7, &pb);
    assert_eq!(plant.id, 7);
    assert_eq!(plant.composition.mass, STRUCTURE_STARTING_MASS);
    assert_eq!(plant.plant, Some(pb.plant));

    let fb = FungiBundle::new(TilePos { x: 0, y: 0 });
    let fungus = StructureEntity::spawn_fungi(8, &fb);
    assert_eq!(fungus.id, 8);
    assert!(fungus.plant.is_none());
}

#[test]
fn default_bundle_outlives_many_ticks() {
    // with the default configuration a fresh structure survives its first tick
    let b = StructureBundle::default();
    let mut entities = vec![StructureEntity {
        id: 1,
        structure: b.structure,
        composition: b.composition,
        plant: None,
    }];
    StructuresPlugin::run_tick(&mut entities, 1_000);
    assert_eq!(entities.len(), 1);
    // upkeep removed a tenth: 0.5 -> 0.45
    assert_eq!(entities[0].composition.mass, 450);
}

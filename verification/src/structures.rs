//! Living structures and their lifecycle systems.
//!
//! A structure is an entity with a mass-bearing [`Composition`], a
//! per-entity [`Structure`] configuration (upkeep rate and despawn
//! threshold), and optionally a [`Plant`] marker that lets it grow. Each
//! simulation tick the host engine hands the current entities and the
//! elapsed time to the systems here, in the canonical registration order:
//! [`photosynthesize`], then [`upkeep`], then [`cleanup`].
use crate::mass::DECAY_MASS_LIMIT;
use crate::mass::MASS_LIMIT;
use crate::mass::RATE_DT_LIMIT;
use crate::mass::apply_growth;
use crate::mass::apply_upkeep;
use crate::mass::decayed_mass;
use crate::mass::grown_mass;
use crate::pathfinding::TilePos;
use vstd::prelude::*;

verus! {

/// Upkeep rate of a newly spawned structure: a tenth of a unit of mass per
/// unit of mass per unit of time, in fixed-point steps.
pub open const STRUCTURE_UPKEEP_RATE: i64 = 100;

/// Mass at or below which a structure despawns: a hundredth of a unit, in
/// fixed-point steps.
pub open const STRUCTURE_DESPAWN_MASS: i64 = 10;

/// Mass a newly spawned structure starts with: half a unit, in fixed-point
/// steps.
pub open const STRUCTURE_STARTING_MASS: i64 = 500;

/// The mass-bearing state of an organism, mutated by the lifecycle systems.
#[derive(Clone, Copy, Debug, PartialEq, Eq, Structural)]
pub struct Composition {
    /// Current mass in fixed-point steps. Upkeep may drive it to or below
    /// zero before [`cleanup`] removes the entity.
    pub mass: i64,
}

impl Default for Composition {
    /// A fresh composition holds the configured starting mass.
    fn default() -> (c: Composition)
        ensures
            c.mass == STRUCTURE_STARTING_MASS,
    {
        Composition { mass: STRUCTURE_STARTING_MASS }
    }
}

/// Per-entity configuration of a living structure; no system mutates it.
#[derive(Clone, Copy, Debug, PartialEq, Eq, Structural)]
pub struct Structure {
    /// Fraction of the mass lost per unit of time, in fixed-point steps.
    pub upkeep_rate: i64,
    /// Absolute mass at or below which the entity despawns.
    pub despawn_mass: i64,
}

impl Default for Structure {
    /// A fresh structure carries the configured upkeep rate and despawn
    /// threshold.
    fn default() -> (s: Structure)
        ensures
            s.upkeep_rate == STRUCTURE_UPKEEP_RATE,
            s.despawn_mass == STRUCTURE_DESPAWN_MASS,
    {
        Structure { upkeep_rate: STRUCTURE_UPKEEP_RATE, despawn_mass: STRUCTURE_DESPAWN_MASS }
    }
}

/// Marks a structure as capable of growth by photosynthesis.
#[derive(Clone, Copy, Debug, PartialEq, Eq, Structural)]
pub struct Plant {
    /// Mass gained per unit of surface area per unit of time, in fixed-point
    /// steps.
    pub photosynthesis_rate: i64,
}

impl Default for Plant {
    /// A fresh plant marker has a zero photosynthesis rate until configured.
    fn default() -> (p: Plant)
        ensures
            p.photosynthesis_rate == 0,
    {
        Plant { photosynthesis_rate: 0 }
    }
}

/// Marks a structure as a fungus; fungi have no growth system.
#[derive(Clone, Copy, Debug, PartialEq, Eq, Structural, Default)]
pub struct Fungi;

/// The component set every living structure spawns with: its lifecycle
/// configuration and its mass-bearing state.
#[derive(Clone, Copy, Debug)]
pub struct StructureBundle {
    /// The entity's lifecycle configuration.
    pub structure: Structure,
    /// The entity's mass-bearing state.
    pub composition: Composition,
}

impl Default for StructureBundle {
    /// A fresh structure bundle carries the configured defaults and the
    /// starting mass.
    fn default() -> (b: StructureBundle)
        ensures
            b.structure.upkeep_rate == STRUCTURE_UPKEEP_RATE,
            b.structure.despawn_mass == STRUCTURE_DESPAWN_MASS,
            b.composition.mass == STRUCTURE_STARTING_MASS,
    {
        StructureBundle { structure: Structure::default(), composition: Composition::default() }
    }
}

/// The component set a plant spawns with: a structure bundle, a plant
/// marker, its tile, and the impassable marker — a plant blocks movement
/// into its tile.
#[derive(Clone, Copy, Debug)]
pub struct PlantBundle {
    /// The plant marker; its photosynthesis rate starts at the
    /// [`Plant`] default until configured.
    pub plant: Plant,
    /// The shared structure components.
    pub structure_bundle: StructureBundle,
    /// The tile the plant stands on.
    pub position: TilePos,
    /// Plants render their tile impassable.
    pub impassable: bool,
}

impl PlantBundle {
    /// A plant spawned at `position`: default configuration, the starting
    /// mass, and an impassable tile.
    pub fn new(position: TilePos) -> (b: PlantBundle)
        ensures
            b.plant.photosynthesis_rate == 0,
            b.structure_bundle.structure.upkeep_rate == STRUCTURE_UPKEEP_RATE,
            b.structure_bundle.structure.despawn_mass == STRUCTURE_DESPAWN_MASS,
            b.structure_bundle.composition.mass == STRUCTURE_STARTING_MASS,
            b.position == position,
            b.impassable,
    {
        PlantBundle {
            plant: Plant::default(),
            structure_bundle: StructureBundle::default(),
            position,
            impassable: true,
        }
    }
}

/// The component set a fungus spawns with: a structure bundle, a fungi
/// marker and its tile. Fungi do not block movement.
#[derive(Clone, Copy, Debug)]
pub struct FungiBundle {
    /// The fungi marker.
    pub fungi: Fungi,
    /// The shared structure components.
    pub structure_bundle: StructureBundle,
    /// The tile the fungus stands on.
    pub position: TilePos,
}

impl FungiBundle {
    /// A fungus spawned at `position`: default configuration and the
    /// starting mass.
    pub fn new(position: TilePos) -> (b: FungiBundle)
        ensures
            b.structure_bundle.structure.upkeep_rate == STRUCTURE_UPKEEP_RATE,
            b.structure_bundle.structure.despawn_mass == STRUCTURE_DESPAWN_MASS,
            b.structure_bundle.composition.mass == STRUCTURE_STARTING_MASS,
            b.position == position,
    {
        FungiBundle { fungi: Fungi, structure_bundle: StructureBundle::default(), position }
    }
}

/// One live entity as the lifecycle systems see it: its identity in the host
/// engine's store, its configuration, its mass, and its optional plant
/// marker.
#[derive(Clone, Copy, Debug)]
pub struct StructureEntity {
    /// The host engine's identifier for the entity.
    pub id: u64,
    /// The entity's lifecycle configuration.
    pub structure: Structure,
    /// The entity's mass-bearing state.
    pub composition: Composition,
    /// Present when the entity is a plant and may grow.
    pub plant: Option<Plant>,
}

impl StructureEntity {
    /// The entity a plant bundle spawns as, under the host engine's `id`.
    pub fn spawn_plant(id: u64, bundle: &PlantBundle) -> (e: StructureEntity)
        ensures
            e.id == id,
            e.structure == bundle.structure_bundle.structure,
            e.composition == bundle.structure_bundle.composition,
            e.plant == Some(bundle.plant),
    {
        StructureEntity {
            id,
            structure: bundle.structure_bundle.structure,
            composition: bundle.structure_bundle.composition,
            plant: Some(bundle.plant),
        }
    }

    /// The entity a fungi bundle spawns as, under the host engine's `id`.
    pub fn spawn_fungi(id: u64, bundle: &FungiBundle) -> (e: StructureEntity)
        ensures
            e.id == id,
            e.structure == bundle.structure_bundle.structure,
            e.composition == bundle.structure_bundle.composition,
            e.plant is None,
    {
        StructureEntity {
            id,
            structure: bundle.structure_bundle.structure,
            composition: bundle.structure_bundle.composition,
            plant: None,
        }
    }
}

/// The entity's mass and rates admit one growth step over `dt`.
pub open spec fn growth_ready(e: StructureEntity, dt: int) -> bool {
    &&& e.composition.mass <= MASS_LIMIT
    &&& match e.plant {
        Some(p) => 0 <= p.photosynthesis_rate && p.photosynthesis_rate * dt
            <= RATE_DT_LIMIT as int,
        None => true,
    }
}

/// The entity after one growth step: a plant's mass grows by the
/// surface-area law; any other entity is unchanged.
pub open spec fn grown_entity(e: StructureEntity, dt: int) -> StructureEntity {
    match e.plant {
        Some(p) => StructureEntity {
            id: e.id,
            structure: e.structure,
            composition: Composition {
                mass: grown_mass(
                    e.composition.mass as int,
                    p.photosynthesis_rate as int,
                    dt,
                ) as i64,
            },
            plant: e.plant,
        },
        None => e,
    }
}

/// The entity's mass and rate admit one upkeep step over `dt`.
pub open spec fn upkeep_ready(e: StructureEntity, dt: int) -> bool {
    &&& -(DECAY_MASS_LIMIT as int) <= e.composition.mass <= DECAY_MASS_LIMIT as int
    &&& 0 <= e.structure.upkeep_rate
    &&& e.structure.upkeep_rate * dt <= RATE_DT_LIMIT as int
}

/// The entity after one upkeep step: its mass decays in proportion to
/// itself.
pub open spec fn decayed_entity(e: StructureEntity, dt: int) -> StructureEntity {
    StructureEntity {
        id: e.id,
        structure: e.structure,
        composition: Composition {
            mass: decayed_mass(
                e.composition.mass as int,
                e.structure.upkeep_rate as int,
                dt,
            ) as i64,
        },
        plant: e.plant,
    }
}

/// The growth system: every plant entity gains mass by the surface-area
/// photosynthesis law. Entities without a plant marker are untouched, and no
/// entity is created or removed.
pub fn photosynthesize(entities: &mut Vec<StructureEntity>, dt: i64)
    requires
        0 <= dt,
        forall|i: int|
            0 <= i < old(entities)@.len() ==> growth_ready(#[trigger] old(entities)@[i], dt as int),
    ensures
        final(entities)@.len() == old(entities)@.len(),
        forall|i: int|
            0 <= i < old(entities)@.len() ==> #[trigger] final(entities)@[i] == grown_entity(
                old(entities)@[i],
                dt as int,
            ),
        forall|i: int|
            0 <= i < old(entities)@.len() ==> old(entities)@[i].composition.mass
                <= #[trigger] final(entities)@[i].composition.mass,
        forall|i: int|
            0 <= i < old(entities)@.len() ==> #[trigger] final(entities)@[i].composition.mass
                <= DECAY_MASS_LIMIT as int,
{
    let ghost orig = entities@;
    let n = entities.len();
    let mut i: usize = 0;
    while i < n
        invariant
            i <= n,
            n == entities@.len(),
            orig.len() == n,
            0 <= dt,
            forall|j: int| 0 <= j < n ==> growth_ready(#[trigger] orig[j], dt as int),
            forall|j: int| i <= j < n ==> #[trigger] entities@[j] == orig[j],
            forall|j: int|
                0 <= j < i ==> #[trigger] entities@[j] == grown_entity(orig[j], dt as int),
            forall|j: int|
                0 <= j < i ==> orig[j].composition.mass
                    <= #[trigger] entities@[j].composition.mass,
            forall|j: int|
                0 <= j < i ==> #[trigger] entities@[j].composition.mass
                    <= DECAY_MASS_LIMIT as int,
        decreases n - i,
    {
        let e = entities[i];
        if let Some(p) = e.plant {
            let new_mass = apply_growth(e.composition.mass, p.photosynthesis_rate, dt);
            entities[i] = StructureEntity {
                id: e.id,
                structure: e.structure,
                composition: Composition { mass: new_mass },
                plant: e.plant,
            };
        }
        i = i + 1;
    }
}

/// The upkeep system: every structure entity loses mass in proportion to its
/// current mass and the elapsed time, whatever kind of organism it is. No
/// entity is created or removed.
pub fn upkeep(entities: &mut Vec<StructureEntity>, dt: i64)
    requires
        0 <= dt,
        forall|i: int|
            0 <= i < old(entities)@.len() ==> upkeep_ready(#[trigger] old(entities)@[i], dt as int),
    ensures
        final(entities)@.len() == old(entities)@.len(),
        forall|i: int|
            0 <= i < old(entities)@.len() ==> #[trigger] final(entities)@[i] == decayed_entity(
                old(entities)@[i],
                dt as int,
            ),
{
    let ghost orig = entities@;
    let n = entities.len();
    let mut i: usize = 0;
    while i < n
        invariant
            i <= n,
            n == entities@.len(),
            orig.len() == n,
            0 <= dt,
            forall|j: int| 0 <= j < n ==> upkeep_ready(#[trigger] orig[j], dt as int),
            forall|j: int| i <= j < n ==> #[trigger] entities@[j] == orig[j],
            forall|j: int|
                0 <= j < i ==> #[trigger] entities@[j] == decayed_entity(orig[j], dt as int),
        decreases n - i,
    {
        let e = entities[i];
        let new_mass = apply_upkeep(e.composition.mass, e.structure.upkeep_rate, dt);
        entities[i] = StructureEntity {
            id: e.id,
            structure: e.structure,
            composition: Composition { mass: new_mass },
            plant: e.plant,
        };
        i = i + 1;
    }
}

/// The entity keeps living this tick: its mass is strictly above its despawn
/// threshold.
pub open spec fn survives(e: StructureEntity) -> bool {
    e.composition.mass > e.structure.despawn_mass
}

/// The entities that remain after the despawn system has run, in the order
/// they stood in.
pub open spec fn survivors(s: Seq<StructureEntity>) -> Seq<StructureEntity>
    decreases s.len(),
{
    if s.len() == 0 {
        Seq::empty()
    } else if survives(s[0]) {
        seq![s[0]] + survivors(s.drop_first())
    } else {
        survivors(s.drop_first())
    }
}

proof fn lemma_survivors_push(s: Seq<StructureEntity>, e: StructureEntity)
    ensures
        survivors(s.push(e)) == if survives(e) {
            survivors(s).push(e)
        } else {
            survivors(s)
        },
    decreases s.len(),
{
    let t = s.push(e);
    if s.len() == 0 {
        assert(t[0] == e);
        assert(t.drop_first() =~= Seq::<StructureEntity>::empty());
        assert(survivors(s) =~= Seq::<StructureEntity>::empty());
        if survives(e) {
            assert(survivors(t) == seq![e] + survivors(t.drop_first()));
            assert(survivors(t) =~= survivors(s).push(e));
        } else {
            assert(survivors(t) =~= survivors(s));
        }
    } else {
        assert(t[0] == s[0]);
        assert(t.drop_first() =~= s.drop_first().push(e));
        lemma_survivors_push(s.drop_first(), e);
        if survives(s[0]) {
            assert(survivors(t) == seq![s[0]] + survivors(t.drop_first()));
            assert(survivors(s) == seq![s[0]] + survivors(s.drop_first()));
            if survives(e) {
                assert(survivors(t) =~= survivors(s).push(e));
            } else {
                assert(survivors(t) =~= survivors(s));
            }
        } else {
            assert(survivors(t) == survivors(t.drop_first()));
            assert(survivors(s) == survivors(s.drop_first()));
        }
    }
}

/// Everything the despawn system keeps is alive: each remaining entity's
/// mass is strictly above its threshold.
pub proof fn lemma_survivors_survive(s: Seq<StructureEntity>)
    ensures
        forall|i: int| 0 <= i < survivors(s).len() ==> survives(#[trigger] survivors(s)[i]),
    decreases s.len(),
{
    if s.len() > 0 {
        lemma_survivors_survive(s.drop_first());
        let rest = survivors(s.drop_first());
        if survives(s[0]) {
            assert(survivors(s) == seq![s[0]] + rest);
            assert forall|i: int| 0 <= i < survivors(s).len() implies survives(
                #[trigger] survivors(s)[i],
            ) by {
                if i == 0 {
                    assert(survivors(s)[0] == s[0]);
                } else {
                    assert(survivors(s)[i] == rest[i - 1]);
                }
            }
        } else {
            assert(survivors(s) == rest);
        }
    }
}

/// The despawn system is a no-op on entities that all survive.
pub proof fn lemma_survivors_complete(s: Seq<StructureEntity>)
    requires
        forall|i: int| 0 <= i < s.len() ==> survives(#[trigger] s[i]),
    ensures
        survivors(s) == s,
    decreases s.len(),
{
    if s.len() == 0 {
        assert(survivors(s) =~= s);
    } else {
        assert(forall|i: int|
            0 <= i < s.drop_first().len() ==> survives(#[trigger] s.drop_first()[i]));
        lemma_survivors_complete(s.drop_first());
        assert(survivors(s) =~= s);
    }
}

/// The despawn system only removes: it never adds an entity.
pub proof fn lemma_survivors_len(s: Seq<StructureEntity>)
    ensures
        survivors(s).len() <= s.len(),
    decreases s.len(),
{
    if s.len() > 0 {
        lemma_survivors_len(s.drop_first());
    }
}

/// Despawning is idempotent: an entity at or below its threshold is removed
/// exactly once, and running the despawn system again on the remaining
/// entities removes nothing.
pub proof fn lemma_despawn_idempotent(s: Seq<StructureEntity>)
    ensures
        survivors(survivors(s)) == survivors(s),
{
    lemma_survivors_survive(s);
    lemma_survivors_complete(survivors(s));
}

/// The despawn system: permanently removes every entity whose mass has
/// fallen to or below its despawn threshold, and keeps the others in
/// order. An empty result or an already-clean list is normal, not an error.
pub fn cleanup(entities: &mut Vec<StructureEntity>)
    ensures
        final(entities)@ == survivors(old(entities)@),
        final(entities)@.len() <= old(entities)@.len(),
        forall|i: int|
            0 <= i < final(entities)@.len() ==> survives(#[trigger] final(entities)@[i]),
{
    let ghost orig = entities@;
    let n = entities.len();
    let mut kept: Vec<StructureEntity> = Vec::new();
    let mut i: usize = 0;
    while i < n
        invariant
            i <= n,
            n == entities@.len(),
            entities@ == orig,
            kept@ == survivors(orig.take(i as int)),
        decreases n - i,
    {
        let e = entities[i];
        proof {
            assert(orig.take(i as int).push(orig[i as int]) =~= orig.take(i as int + 1));
            lemma_survivors_push(orig.take(i as int), orig[i as int]);
        }
        if e.composition.mass > e.structure.despawn_mass {
            kept.push(e);
        }
        i = i + 1;
    }
    proof {
        assert(orig.take(n as int) =~= orig);
        lemma_survivors_survive(orig);
        lemma_survivors_len(orig);
    }
    *entities = kept;
}

/// The entity's mass and rates admit a whole tick: growth, then upkeep.
pub open spec fn tick_ready(e: StructureEntity, dt: int) -> bool {
    &&& -(MASS_LIMIT as int) <= e.composition.mass <= MASS_LIMIT as int
    &&& 0 <= e.structure.upkeep_rate
    &&& e.structure.upkeep_rate * dt <= RATE_DT_LIMIT as int
    &&& match e.plant {
        Some(p) => 0 <= p.photosynthesis_rate && p.photosynthesis_rate * dt
            <= RATE_DT_LIMIT as int,
        None => true,
    }
}

/// One whole simulation tick over `dt`: every plant grows, every structure
/// pays upkeep on the grown mass, and whatever then sits at or under its
/// despawn threshold is removed.
pub open spec fn tick_spec(s: Seq<StructureEntity>, dt: int) -> Seq<StructureEntity> {
    survivors(
        s.map_values(|e: StructureEntity| grown_entity(e, dt)).map_values(
            |e: StructureEntity| decayed_entity(e, dt),
        ),
    )
}

/// Registers the lifecycle systems: running them is one simulation tick.
pub struct StructuresPlugin;

impl StructuresPlugin {
    /// Runs the three lifecycle systems in their registration order —
    /// [`photosynthesize`], [`upkeep`], [`cleanup`] — so that the despawn
    /// check sees the tick's final mass.
    pub fn run_tick(entities: &mut Vec<StructureEntity>, dt: i64)
        requires
            0 <= dt,
            forall|i: int|
                0 <= i < old(entities)@.len() ==> tick_ready(
                    #[trigger] old(entities)@[i],
                    dt as int,
                ),
        ensures
            final(entities)@ == tick_spec(old(entities)@, dt as int),
            final(entities)@.len() <= old(entities)@.len(),
    {
        let ghost orig = entities@;
        let ghost grown = orig.map_values(|e: StructureEntity| grown_entity(e, dt as int));
        let ghost decayed = grown.map_values(|e: StructureEntity| decayed_entity(e, dt as int));
        photosynthesize(entities, dt);
        proof {
            assert(entities@ =~= grown);
        }
        upkeep(entities, dt);
        proof {
            assert(entities@ =~= decayed);
        }
        cleanup(entities);
    }
}

} // verus!

//! The world state: every entity by id, dirty tracking and the tick counter.
use vstd::prelude::*;
use dashmap::DashMap;
use crate::geometry::{coord_ok, is_within, within, Point, WorldBounds, MAX_EXTENT};
use crate::model::{AntType, FastAnt, FastColony, FastFoodSource, FastPheromoneTrail};

verus! {

#[verifier::external_type_specification]
#[verifier::external_body]
#[verifier::reject_recursive_types(K)]
#[verifier::reject_recursive_types(V)]
#[verifier::reject_recursive_types(S)]
pub struct ExDashMap<K, V, S>(dashmap::DashMap<K, V, S>);

/// What a map of ants holds, by id.
pub uninterp spec fn ant_entries(m: DashMap<i32, FastAnt>) -> Map<i32, FastAnt>;

/// Relies on `DashMap::new`: a map with no entries.
#[verifier::external_body]
fn new_ant_map() -> (r: DashMap<i32, FastAnt>)
    ensures
        ant_entries(r) =~= Map::empty(),
{
    DashMap::new()
}

/// Relies on `DashMap::insert`: the entry for `k` becomes `v`, others stay.
#[verifier::external_body]
fn put_ant(m: &mut DashMap<i32, FastAnt>, k: i32, v: FastAnt)
    ensures
        ant_entries(*final(m)) == ant_entries(*old(m)).insert(k, v),
{
    m.insert(k, v);
}

/// Relies on `DashMap::get`: the entry for `k`, if there is one (copied out).
#[verifier::external_body]
fn look_up_ant(m: &DashMap<i32, FastAnt>, k: i32) -> (r: Option<FastAnt>)
    ensures
        ant_entries(*m).contains_key(k) ==> r == Some(ant_entries(*m)[k]),
        !ant_entries(*m).contains_key(k) ==> r.is_none(),
{
    m.get(&k).map(|e| *e.value())
}

/// Relies on `DashMap::remove`: the entry for `k` is gone, others stay.
#[verifier::external_body]
fn drop_ant(m: &mut DashMap<i32, FastAnt>, k: i32)
    ensures
        ant_entries(*final(m)) == ant_entries(*old(m)).remove(k),
{
    m.remove(&k);
}

/// Relies on `DashMap::iter`: every entry once, in no particular order.
#[verifier::external_body]
fn list_ants(m: &DashMap<i32, FastAnt>) -> (r: Vec<(i32, FastAnt)>)
    ensures
        forall|i: int|
            0 <= i < r@.len() ==> ant_entries(*m).contains_key(#[trigger] r@[i].0) && ant_entries(*m)[r@[i].0]
                == r@[i].1,
        forall|k: i32| ant_entries(*m).contains_key(k) ==> exists|i: int| 0 <= i < r@.len() && #[trigger] r@[i].0 == k,
        forall|i: int, j: int| 0 <= i < r@.len() && 0 <= j < r@.len() && r@[i].0 == r@[j].0 ==> i == j,
{
    m.iter().map(|e| (*e.key(), *e.value())).collect()
}

/// What a map of colonies holds, by id.
pub uninterp spec fn colony_entries(m: DashMap<i32, FastColony>) -> Map<i32, FastColony>;

/// Relies on `DashMap::new`: a map with no entries.
#[verifier::external_body]
fn new_colony_map() -> (r: DashMap<i32, FastColony>)
    ensures
        colony_entries(r) =~= Map::empty(),
{
    DashMap::new()
}

/// Relies on `DashMap::insert`: the entry for `k` becomes `v`, others stay.
#[verifier::external_body]
fn put_colony(m: &mut DashMap<i32, FastColony>, k: i32, v: FastColony)
    ensures
        colony_entries(*final(m)) == colony_entries(*old(m)).insert(k, v),
{
    m.insert(k, v);
}

/// Relies on `DashMap::get`: the entry for `k`, if there is one (copied out).
#[verifier::external_body]
fn look_up_colony(m: &DashMap<i32, FastColony>, k: i32) -> (r: Option<FastColony>)
    ensures
        colony_entries(*m).contains_key(k) ==> r == Some(colony_entries(*m)[k]),
        !colony_entries(*m).contains_key(k) ==> r.is_none(),
{
    m.get(&k).map(|e| *e.value())
}

/// Relies on `DashMap::iter`: every entry once, in no particular order.
#[verifier::external_body]
fn list_colonys(m: &DashMap<i32, FastColony>) -> (r: Vec<(i32, FastColony)>)
    ensures
        forall|i: int|
            0 <= i < r@.len() ==> colony_entries(*m).contains_key(#[trigger] r@[i].0) && colony_entries(*m)[r@[i].0]
                == r@[i].1,
        forall|k: i32| colony_entries(*m).contains_key(k) ==> exists|i: int| 0 <= i < r@.len() && #[trigger] r@[i].0 == k,
        forall|i: int, j: int| 0 <= i < r@.len() && 0 <= j < r@.len() && r@[i].0 == r@[j].0 ==> i == j,
{
    m.iter().map(|e| (*e.key(), *e.value())).collect()
}

/// What a map of food sources holds, by id.
pub uninterp spec fn food_entries(m: DashMap<i32, FastFoodSource>) -> Map<i32, FastFoodSource>;

/// Relies on `DashMap::new`: a map with no entries.
#[verifier::external_body]
fn new_food_map() -> (r: DashMap<i32, FastFoodSource>)
    ensures
        food_entries(r) =~= Map::empty(),
{
    DashMap::new()
}

/// Relies on `DashMap::insert`: the entry for `k` becomes `v`, others stay.
#[verifier::external_body]
fn put_food(m: &mut DashMap<i32, FastFoodSource>, k: i32, v: FastFoodSource)
    ensures
        food_entries(*final(m)) == food_entries(*old(m)).insert(k, v),
{
    m.insert(k, v);
}

/// Relies on `DashMap::get`: the entry for `k`, if there is one (copied out).
#[verifier::external_body]
fn look_up_food(m: &DashMap<i32, FastFoodSource>, k: i32) -> (r: Option<FastFoodSource>)
    ensures
        food_entries(*m).contains_key(k) ==> r == Some(food_entries(*m)[k]),
        !food_entries(*m).contains_key(k) ==> r.is_none(),
{
    m.get(&k).map(|e| *e.value())
}

/// Relies on `DashMap::remove`: the entry for `k` is gone, others stay.
#[verifier::external_body]
fn drop_food(m: &mut DashMap<i32, FastFoodSource>, k: i32)
    ensures
        food_entries(*final(m)) == food_entries(*old(m)).remove(k),
{
    m.remove(&k);
}

/// Relies on `DashMap::iter`: every entry once, in no particular order.
#[verifier::external_body]
fn list_foods(m: &DashMap<i32, FastFoodSource>) -> (r: Vec<(i32, FastFoodSource)>)
    ensures
        forall|i: int|
            0 <= i < r@.len() ==> food_entries(*m).contains_key(#[trigger] r@[i].0) && food_entries(*m)[r@[i].0]
                == r@[i].1,
        forall|k: i32| food_entries(*m).contains_key(k) ==> exists|i: int| 0 <= i < r@.len() && #[trigger] r@[i].0 == k,
        forall|i: int, j: int| 0 <= i < r@.len() && 0 <= j < r@.len() && r@[i].0 == r@[j].0 ==> i == j,
{
    m.iter().map(|e| (*e.key(), *e.value())).collect()
}

/// What a map of pheromone trails holds, by id.
pub uninterp spec fn trail_entries(m: DashMap<i32, FastPheromoneTrail>) -> Map<i32, FastPheromoneTrail>;

/// Relies on `DashMap::new`: a map with no entries.
#[verifier::external_body]
fn new_trail_map() -> (r: DashMap<i32, FastPheromoneTrail>)
    ensures
        trail_entries(r) =~= Map::empty(),
{
    DashMap::new()
}

/// Relies on `DashMap::insert`: the entry for `k` becomes `v`, others stay.
#[verifier::external_body]
fn put_trail(m: &mut DashMap<i32, FastPheromoneTrail>, k: i32, v: FastPheromoneTrail)
    ensures
        trail_entries(*final(m)) == trail_entries(*old(m)).insert(k, v),
{
    m.insert(k, v);
}

/// Relies on `DashMap::remove`: the entry for `k` is gone, others stay.
#[verifier::external_body]
fn drop_trail(m: &mut DashMap<i32, FastPheromoneTrail>, k: i32)
    ensures
        trail_entries(*final(m)) == trail_entries(*old(m)).remove(k),
{
    m.remove(&k);
}

/// Relies on `DashMap::iter`: every entry once, in no particular order.
#[verifier::external_body]
fn list_trails(m: &DashMap<i32, FastPheromoneTrail>) -> (r: Vec<(i32, FastPheromoneTrail)>)
    ensures
        forall|i: int|
            0 <= i < r@.len() ==> trail_entries(*m).contains_key(#[trigger] r@[i].0) && trail_entries(*m)[r@[i].0]
                == r@[i].1,
        forall|k: i32| trail_entries(*m).contains_key(k) ==> exists|i: int| 0 <= i < r@.len() && #[trigger] r@[i].0 == k,
        forall|i: int, j: int| 0 <= i < r@.len() && 0 <= j < r@.len() && r@[i].0 == r@[j].0 ==> i == j,
{
    m.iter().map(|e| (*e.key(), *e.value())).collect()
}

/// What a map of ant types holds, by id.
pub uninterp spec fn type_entries(m: DashMap<i32, AntType>) -> Map<i32, AntType>;

/// Relies on `DashMap::new`: a map with no entries.
#[verifier::external_body]
fn new_type_map() -> (r: DashMap<i32, AntType>)
    ensures
        type_entries(r) =~= Map::empty(),
{
    DashMap::new()
}

/// Relies on `DashMap::insert`: the entry for `k` becomes `v`, others stay.
#[verifier::external_body]
fn put_type(m: &mut DashMap<i32, AntType>, k: i32, v: AntType)
    ensures
        type_entries(*final(m)) == type_entries(*old(m)).insert(k, v),
{
    m.insert(k, v);
}

/// Relies on `DashMap::get`: the entry for `k`, if there is one (copied out).
#[verifier::external_body]
fn look_up_type(m: &DashMap<i32, AntType>, k: i32) -> (r: Option<AntType>)
    ensures
        type_entries(*m).contains_key(k) ==> r == Some(type_entries(*m)[k]),
        !type_entries(*m).contains_key(k) ==> r.is_none(),
{
    m.get(&k).map(|e| *e.value())
}

/// The ids a dirty set holds.
pub uninterp spec fn flagged_ids(m: DashMap<i32, bool>) -> Set<i32>;

/// Relies on `DashMap::new`: a set with no ids.
#[verifier::external_body]
fn new_flags() -> (r: DashMap<i32, bool>)
    ensures
        flagged_ids(r) =~= Set::empty(),
{
    DashMap::new()
}

/// Relies on `DashMap::insert`: `k` is added.
#[verifier::external_body]
fn flag(m: &mut DashMap<i32, bool>, k: i32)
    ensures
        flagged_ids(*final(m)) == flagged_ids(*old(m)).insert(k),
{
    m.insert(k, true);
}

/// Relies on `DashMap::iter`: every id once, in no particular order.
#[verifier::external_body]
fn list_flags(m: &DashMap<i32, bool>) -> (r: Vec<i32>)
    ensures
        r@.to_set() == flagged_ids(*m),
        r@.no_duplicates(),
{
    m.iter().map(|e| *e.key()).collect()
}

/// Relies on `DashMap::clear`: no ids are left.
#[verifier::external_body]
fn clear_flags(m: &mut DashMap<i32, bool>)
    ensures
        flagged_ids(*final(m)) == Set::<i32>::empty(),
{
    m.clear();
}

/// A list of pairs that names every key of `m` once has as many pairs as `m`
/// has keys.
proof fn lemma_pairs_count<V>(r: Seq<(i32, V)>, m: Map<i32, V>)
    requires
        forall|i: int| 0 <= i < r.len() ==> m.contains_key(#[trigger] r[i].0),
        forall|k: i32| m.contains_key(k) ==> exists|i: int| 0 <= i < r.len() && #[trigger] r[i].0 == k,
        forall|i: int, j: int| 0 <= i < r.len() && 0 <= j < r.len() && r[i].0 == r[j].0 ==> i == j,
    ensures
        r.len() == m.dom().len(),
{
    let keys = r.map_values(|p: (i32, V)| p.0);
    assert(keys.no_duplicates());
    assert(keys.to_set() =~= m.dom()) by {
        assert forall|k: i32| m.dom().contains(k) implies keys.to_set().contains(k) by {
            let i = choose|i: int| 0 <= i < r.len() && #[trigger] r[i].0 == k;
            assert(keys[i] == k);
        }
    }
    keys.unique_seq_to_set();
}

/// A listing of the entries of `m`, each once, is as long as `m` has keys.
pub proof fn lemma_listing_count(s: Seq<FastAnt>, m: Map<i32, FastAnt>)
    requires
        forall|j: int| 0 <= j < s.len() ==> m.contains_key(#[trigger] s[j].id),
        forall|k: i32| m.contains_key(k) ==> exists|j: int| 0 <= j < s.len() && #[trigger] s[j].id == k,
        forall|x: int, y: int| 0 <= x < s.len() && 0 <= y < s.len() && s[x].id == s[y].id ==> x == y,
    ensures
        s.len() == m.dom().len(),
{
    let pairs = s.map_values(|a: FastAnt| (a.id, a));
    assert forall|k: i32| m.contains_key(k) implies exists|i: int| 0 <= i < pairs.len() && #[trigger] pairs[i].0 == k by {
        let j = choose|j: int| 0 <= j < s.len() && #[trigger] s[j].id == k;
        assert(pairs[j].0 == k);
    }
    lemma_pairs_count(pairs, m);
}

/// Counts of what a world holds.
#[derive(Clone, Copy, Debug, PartialEq, Eq, Structural)]
pub struct SimulationStats {
    pub total_ants: usize,
    pub active_colonies: usize,
    pub total_food_collected: u64,
    pub pheromone_trail_count: usize,
    pub current_tick: i64,
}

/// Every entity of one simulation by id, the ids changed since the last drain,
/// and the tick counter.
pub struct SimulationCache {
    ants: DashMap<i32, FastAnt>,
    colonies: DashMap<i32, FastColony>,
    food_sources: DashMap<i32, FastFoodSource>,
    pheromone_trails: DashMap<i32, FastPheromoneTrail>,
    ant_types: DashMap<i32, AntType>,
    simulation_id: i32,
    world_bounds: WorldBounds,
    current_tick: i64,
    last_db_sync: i64,
    dirty_ants: DashMap<i32, bool>,
    dirty_colonies: DashMap<i32, bool>,
    dirty_food_sources: DashMap<i32, bool>,
}

/// Every key of `m` is the id of its entry.
pub open spec fn keyed_ants(m: Map<i32, FastAnt>) -> bool {
    forall|k: i32| m.contains_key(k) ==> (#[trigger] m[k]).id == k
}

pub open spec fn keyed_colonies(m: Map<i32, FastColony>) -> bool {
    forall|k: i32| m.contains_key(k) ==> (#[trigger] m[k]).id == k
}

pub open spec fn keyed_food(m: Map<i32, FastFoodSource>) -> bool {
    forall|k: i32| m.contains_key(k) ==> (#[trigger] m[k]).id == k
}

pub open spec fn keyed_trails(m: Map<i32, FastPheromoneTrail>) -> bool {
    forall|k: i32| m.contains_key(k) ==> (#[trigger] m[k]).id == k
}

pub open spec fn keyed_types(m: Map<i32, AntType>) -> bool {
    forall|k: i32| m.contains_key(k) ==> (#[trigger] m[k]).id == k
}

impl SimulationCache {
    pub closed spec fn ants_view(&self) -> Map<i32, FastAnt> {
        ant_entries(self.ants)
    }

    pub closed spec fn colonies_view(&self) -> Map<i32, FastColony> {
        colony_entries(self.colonies)
    }

    pub closed spec fn food_view(&self) -> Map<i32, FastFoodSource> {
        food_entries(self.food_sources)
    }

    pub closed spec fn trails_view(&self) -> Map<i32, FastPheromoneTrail> {
        trail_entries(self.pheromone_trails)
    }

    pub closed spec fn types_view(&self) -> Map<i32, AntType> {
        type_entries(self.ant_types)
    }

    pub closed spec fn dirty_ants_view(&self) -> Set<i32> {
        flagged_ids(self.dirty_ants)
    }

    pub closed spec fn dirty_colonies_view(&self) -> Set<i32> {
        flagged_ids(self.dirty_colonies)
    }

    pub closed spec fn dirty_food_view(&self) -> Set<i32> {
        flagged_ids(self.dirty_food_sources)
    }

    pub closed spec fn id_view(&self) -> i32 {
        self.simulation_id
    }

    pub closed spec fn bounds_view(&self) -> WorldBounds {
        self.world_bounds
    }

    pub closed spec fn tick_view(&self) -> i64 {
        self.current_tick
    }

    pub closed spec fn last_sync_view(&self) -> i64 {
        self.last_db_sync
    }

    /// Every entry is stored under its own id and is well formed in the world.
    pub open spec fn wf(&self) -> bool {
        &&& self.bounds_view().wf()
        &&& forall|k: i32| #[trigger] self.ants_view().contains_key(k) ==> self.ants_view()[k].wf(self.bounds_view())
        &&& forall|k: i32| #[trigger] self.colonies_view().contains_key(k) ==> self.colonies_view()[k].wf(self.bounds_view())
        &&& forall|k: i32| #[trigger] self.food_view().contains_key(k) ==> self.food_view()[k].wf(self.bounds_view())
        &&& forall|k: i32| #[trigger] self.trails_view().contains_key(k) ==> self.trails_view()[k].wf(self.bounds_view())
        &&& keyed_ants(self.ants_view())
        &&& keyed_colonies(self.colonies_view())
        &&& keyed_food(self.food_view())
        &&& keyed_trails(self.trails_view())
        &&& keyed_types(self.types_view())
    }

    /// The simulation this world belongs to.
    pub fn simulation_id(&self) -> (r: i32)
        ensures
            r == self.id_view(),
    {
        self.simulation_id
    }

    /// The world's extent.
    pub fn world_bounds(&self) -> (r: WorldBounds)
        ensures
            r == self.bounds_view(),
    {
        self.world_bounds
    }

    /// An empty world of the given simulation.
    pub fn new(simulation_id: i32, world_bounds: WorldBounds) -> (r: SimulationCache)
        requires
            world_bounds.wf(),
        ensures
            r.wf(),
            r.id_view() == simulation_id,
            r.bounds_view() == world_bounds,
            r.ants_view() == Map::<i32, FastAnt>::empty(),
            r.colonies_view() == Map::<i32, FastColony>::empty(),
            r.food_view() == Map::<i32, FastFoodSource>::empty(),
            r.trails_view() == Map::<i32, FastPheromoneTrail>::empty(),
            r.types_view() == Map::<i32, AntType>::empty(),
            r.dirty_ants_view() == Set::<i32>::empty(),
            r.dirty_colonies_view() == Set::<i32>::empty(),
            r.dirty_food_view() == Set::<i32>::empty(),
            r.tick_view() == 0,
    {
        SimulationCache {
            ants: new_ant_map(),
            colonies: new_colony_map(),
            food_sources: new_food_map(),
            pheromone_trails: new_trail_map(),
            ant_types: new_type_map(),
            simulation_id,
            world_bounds,
            current_tick: 0,
            last_db_sync: 0,
            dirty_ants: new_flags(),
            dirty_colonies: new_flags(),
            dirty_food_sources: new_flags(),
        }
    }

    /// Store `x` under its id, replacing what was there, and mark it changed.
    pub fn insert_ant(&mut self, x: FastAnt)
        requires
            old(self).wf(),
            x.wf(old(self).bounds_view()),
        ensures
            final(self).wf(),
            final(self).ants_view() == old(self).ants_view().insert(x.id, x),
            final(self).dirty_ants_view() == old(self).dirty_ants_view().insert(x.id),
            final(self).colonies_view() == old(self).colonies_view(),
            final(self).food_view() == old(self).food_view(),
            final(self).trails_view() == old(self).trails_view(),
            final(self).types_view() == old(self).types_view(),
            final(self).dirty_colonies_view() == old(self).dirty_colonies_view(),
            final(self).dirty_food_view() == old(self).dirty_food_view(),
            final(self).tick_view() == old(self).tick_view(),
            final(self).id_view() == old(self).id_view(),
            final(self).bounds_view() == old(self).bounds_view(),
    {
        put_ant(&mut self.ants, x.id, x);
        flag(&mut self.dirty_ants, x.id);
    }

    /// Store `x` under its id, replacing what was there, and mark it changed.
    pub fn insert_colony(&mut self, x: FastColony)
        requires
            old(self).wf(),
            x.wf(old(self).bounds_view()),
        ensures
            final(self).wf(),
            final(self).colonies_view() == old(self).colonies_view().insert(x.id, x),
            final(self).dirty_colonies_view() == old(self).dirty_colonies_view().insert(x.id),
            final(self).ants_view() == old(self).ants_view(),
            final(self).food_view() == old(self).food_view(),
            final(self).trails_view() == old(self).trails_view(),
            final(self).types_view() == old(self).types_view(),
            final(self).dirty_ants_view() == old(self).dirty_ants_view(),
            final(self).dirty_food_view() == old(self).dirty_food_view(),
            final(self).tick_view() == old(self).tick_view(),
            final(self).id_view() == old(self).id_view(),
            final(self).bounds_view() == old(self).bounds_view(),
    {
        put_colony(&mut self.colonies, x.id, x);
        flag(&mut self.dirty_colonies, x.id);
    }

    /// Store `x` under its id, replacing what was there, and mark it changed.
    pub fn insert_food_source(&mut self, x: FastFoodSource)
        requires
            old(self).wf(),
            x.wf(old(self).bounds_view()),
        ensures
            final(self).wf(),
            final(self).food_view() == old(self).food_view().insert(x.id, x),
            final(self).dirty_food_view() == old(self).dirty_food_view().insert(x.id),
            final(self).ants_view() == old(self).ants_view(),
            final(self).colonies_view() == old(self).colonies_view(),
            final(self).trails_view() == old(self).trails_view(),
            final(self).types_view() == old(self).types_view(),
            final(self).dirty_ants_view() == old(self).dirty_ants_view(),
            final(self).dirty_colonies_view() == old(self).dirty_colonies_view(),
            final(self).tick_view() == old(self).tick_view(),
            final(self).id_view() == old(self).id_view(),
            final(self).bounds_view() == old(self).bounds_view(),
    {
        put_food(&mut self.food_sources, x.id, x);
        flag(&mut self.dirty_food_sources, x.id);
    }

    /// Store `x` under its id, replacing what was there.
    pub fn insert_pheromone_trail(&mut self, x: FastPheromoneTrail)
        requires
            old(self).wf(),
            x.wf(old(self).bounds_view()),
        ensures
            final(self).wf(),
            final(self).trails_view() == old(self).trails_view().insert(x.id, x),
            final(self).ants_view() == old(self).ants_view(),
            final(self).colonies_view() == old(self).colonies_view(),
            final(self).food_view() == old(self).food_view(),
            final(self).types_view() == old(self).types_view(),
            final(self).dirty_ants_view() == old(self).dirty_ants_view(),
            final(self).dirty_colonies_view() == old(self).dirty_colonies_view(),
            final(self).dirty_food_view() == old(self).dirty_food_view(),
            final(self).tick_view() == old(self).tick_view(),
            final(self).id_view() == old(self).id_view(),
            final(self).bounds_view() == old(self).bounds_view(),
    {
        put_trail(&mut self.pheromone_trails, x.id, x);
    }

    /// Store `x` under its id, replacing what was there.
    pub fn insert_ant_type(&mut self, x: AntType)
        requires
            old(self).wf(),
        ensures
            final(self).wf(),
            final(self).types_view() == old(self).types_view().insert(x.id, x),
            final(self).ants_view() == old(self).ants_view(),
            final(self).colonies_view() == old(self).colonies_view(),
            final(self).food_view() == old(self).food_view(),
            final(self).trails_view() == old(self).trails_view(),
            final(self).dirty_ants_view() == old(self).dirty_ants_view(),
            final(self).dirty_colonies_view() == old(self).dirty_colonies_view(),
            final(self).dirty_food_view() == old(self).dirty_food_view(),
            final(self).tick_view() == old(self).tick_view(),
            final(self).id_view() == old(self).id_view(),
            final(self).bounds_view() == old(self).bounds_view(),
    {
        put_type(&mut self.ant_types, x.id, x);
    }

    /// Replace the entry for `id` with `x` and mark it changed; nothing happens
    /// when there is no entry for `id`.
    pub fn update_ant(&mut self, id: i32, x: FastAnt)
        requires
            old(self).wf(),
            x.id == id,
            x.wf(old(self).bounds_view()),
        ensures
            final(self).wf(),
            old(self).ants_view().contains_key(id) ==> final(self).ants_view() == old(self).ants_view().insert(id, x)
                && final(self).dirty_ants_view() == old(self).dirty_ants_view().insert(id),
            !old(self).ants_view().contains_key(id) ==> final(self).ants_view() == old(self).ants_view()
                && final(self).dirty_ants_view() == old(self).dirty_ants_view(),
            final(self).colonies_view() == old(self).colonies_view(),
            final(self).food_view() == old(self).food_view(),
            final(self).trails_view() == old(self).trails_view(),
            final(self).types_view() == old(self).types_view(),
            final(self).dirty_colonies_view() == old(self).dirty_colonies_view(),
            final(self).dirty_food_view() == old(self).dirty_food_view(),
            final(self).tick_view() == old(self).tick_view(),
            final(self).id_view() == old(self).id_view(),
            final(self).bounds_view() == old(self).bounds_view(),
    {
        if look_up_ant(&self.ants, id).is_some() {
            put_ant(&mut self.ants, id, x);
            flag(&mut self.dirty_ants, id);
        }
    }

    /// The entry for `id`, if any.
    pub fn get_ant(&self, id: &i32) -> (r: Option<FastAnt>)
        ensures
            self.ants_view().contains_key(*id) ==> r == Some(self.ants_view()[*id]),
            !self.ants_view().contains_key(*id) ==> r.is_none(),
    {
        look_up_ant(&self.ants, *id)
    }

    /// Replace the entry for `id` with `x` and mark it changed; nothing happens
    /// when there is no entry for `id`.
    pub fn update_colony(&mut self, id: i32, x: FastColony)
        requires
            old(self).wf(),
            x.id == id,
            x.wf(old(self).bounds_view()),
        ensures
            final(self).wf(),
            old(self).colonies_view().contains_key(id) ==> final(self).colonies_view() == old(self).colonies_view().insert(id, x)
                && final(self).dirty_colonies_view() == old(self).dirty_colonies_view().insert(id),
            !old(self).colonies_view().contains_key(id) ==> final(self).colonies_view() == old(self).colonies_view()
                && final(self).dirty_colonies_view() == old(self).dirty_colonies_view(),
            final(self).ants_view() == old(self).ants_view(),
            final(self).food_view() == old(self).food_view(),
            final(self).trails_view() == old(self).trails_view(),
            final(self).types_view() == old(self).types_view(),
            final(self).dirty_ants_view() == old(self).dirty_ants_view(),
            final(self).dirty_food_view() == old(self).dirty_food_view(),
            final(self).tick_view() == old(self).tick_view(),
            final(self).id_view() == old(self).id_view(),
            final(self).bounds_view() == old(self).bounds_view(),
    {
        if look_up_colony(&self.colonies, id).is_some() {
            put_colony(&mut self.colonies, id, x);
            flag(&mut self.dirty_colonies, id);
        }
    }

    /// The entry for `id`, if any.
    pub fn get_colony(&self, id: &i32) -> (r: Option<FastColony>)
        ensures
            self.colonies_view().contains_key(*id) ==> r == Some(self.colonies_view()[*id]),
            !self.colonies_view().contains_key(*id) ==> r.is_none(),
    {
        look_up_colony(&self.colonies, *id)
    }

    /// Replace the entry for `id` with `x` and mark it changed; nothing happens
    /// when there is no entry for `id`.
    pub fn update_food_source(&mut self, id: i32, x: FastFoodSource)
        requires
            old(self).wf(),
            x.id == id,
            x.wf(old(self).bounds_view()),
        ensures
            final(self).wf(),
            old(self).food_view().contains_key(id) ==> final(self).food_view() == old(self).food_view().insert(id, x)
                && final(self).dirty_food_view() == old(self).dirty_food_view().insert(id),
            !old(self).food_view().contains_key(id) ==> final(self).food_view() == old(self).food_view()
                && final(self).dirty_food_view() == old(self).dirty_food_view(),
            final(self).ants_view() == old(self).ants_view(),
            final(self).colonies_view() == old(self).colonies_view(),
            final(self).trails_view() == old(self).trails_view(),
            final(self).types_view() == old(self).types_view(),
            final(self).dirty_ants_view() == old(self).dirty_ants_view(),
            final(self).dirty_colonies_view() == old(self).dirty_colonies_view(),
            final(self).tick_view() == old(self).tick_view(),
            final(self).id_view() == old(self).id_view(),
            final(self).bounds_view() == old(self).bounds_view(),
    {
        if look_up_food(&self.food_sources, id).is_some() {
            put_food(&mut self.food_sources, id, x);
            flag(&mut self.dirty_food_sources, id);
        }
    }

    /// The entry for `id`, if any.
    pub fn get_food_source(&self, id: &i32) -> (r: Option<FastFoodSource>)
        ensures
            self.food_view().contains_key(*id) ==> r == Some(self.food_view()[*id]),
            !self.food_view().contains_key(*id) ==> r.is_none(),
    {
        look_up_food(&self.food_sources, *id)
    }

    /// Remove the entry for `id`, and mark it changed.
    pub fn remove_ant(&mut self, id: &i32)
        requires
            old(self).wf(),
        ensures
            final(self).wf(),
            final(self).ants_view() == old(self).ants_view().remove(*id),
            final(self).dirty_ants_view() == old(self).dirty_ants_view().insert(*id),
            final(self).colonies_view() == old(self).colonies_view(),
            final(self).food_view() == old(self).food_view(),
            final(self).trails_view() == old(self).trails_view(),
            final(self).types_view() == old(self).types_view(),
            final(self).dirty_colonies_view() == old(self).dirty_colonies_view(),
            final(self).dirty_food_view() == old(self).dirty_food_view(),
            final(self).tick_view() == old(self).tick_view(),
            final(self).id_view() == old(self).id_view(),
            final(self).bounds_view() == old(self).bounds_view(),
    {
        drop_ant(&mut self.ants, *id);
        flag(&mut self.dirty_ants, *id);
    }

    /// Remove the entry for `id`, and mark it changed.
    pub fn remove_food_source(&mut self, id: &i32)
        requires
            old(self).wf(),
        ensures
            final(self).wf(),
            final(self).food_view() == old(self).food_view().remove(*id),
            final(self).dirty_food_view() == old(self).dirty_food_view().insert(*id),
            final(self).ants_view() == old(self).ants_view(),
            final(self).colonies_view() == old(self).colonies_view(),
            final(self).trails_view() == old(self).trails_view(),
            final(self).types_view() == old(self).types_view(),
            final(self).dirty_ants_view() == old(self).dirty_ants_view(),
            final(self).dirty_colonies_view() == old(self).dirty_colonies_view(),
            final(self).tick_view() == old(self).tick_view(),
            final(self).id_view() == old(self).id_view(),
            final(self).bounds_view() == old(self).bounds_view(),
    {
        drop_food(&mut self.food_sources, *id);
        flag(&mut self.dirty_food_sources, *id);
    }

    /// Remove the entry for `id`.
    pub fn remove_pheromone_trail(&mut self, id: &i32)
        requires
            old(self).wf(),
        ensures
            final(self).wf(),
            final(self).trails_view() == old(self).trails_view().remove(*id),
            final(self).ants_view() == old(self).ants_view(),
            final(self).colonies_view() == old(self).colonies_view(),
            final(self).food_view() == old(self).food_view(),
            final(self).types_view() == old(self).types_view(),
            final(self).dirty_ants_view() == old(self).dirty_ants_view(),
            final(self).dirty_colonies_view() == old(self).dirty_colonies_view(),
            final(self).dirty_food_view() == old(self).dirty_food_view(),
            final(self).tick_view() == old(self).tick_view(),
            final(self).id_view() == old(self).id_view(),
            final(self).bounds_view() == old(self).bounds_view(),
    {
        drop_trail(&mut self.pheromone_trails, *id);
    }

    /// The ant type `id`, if any.
    pub fn get_ant_type(&self, id: &i32) -> (r: Option<AntType>)
        ensures
            self.types_view().contains_key(*id) ==> r == Some(self.types_view()[*id]),
            !self.types_view().contains_key(*id) ==> r.is_none(),
    {
        look_up_type(&self.ant_types, *id)
    }

    /// A copy of every entry, each once, in no particular order.
    pub fn all_ants(&self) -> (r: Vec<FastAnt>)
        requires
            self.wf(),
        ensures
            forall|i: int| 0 <= i < r@.len() ==> self.ants_view().contains_key(#[trigger] r@[i].id)
                && self.ants_view()[r@[i].id] == r@[i],
            forall|k: i32| self.ants_view().contains_key(k) ==> exists|i: int| 0 <= i < r@.len() && #[trigger] r@[i].id == k,
            forall|i: int, j: int| 0 <= i < r@.len() && 0 <= j < r@.len() && r@[i].id == r@[j].id ==> i == j,
            forall|i: int| 0 <= i < r@.len() ==> (#[trigger] r@[i]).wf(self.bounds_view()),
    {
        let pairs = list_ants(&self.ants);
        let mut out: Vec<FastAnt> = Vec::new();
        let mut i: usize = 0;
        while i < pairs.len()
            invariant
                self.wf(),
                i <= pairs.len(),
                out@.len() == i,
                forall|k: int| 0 <= k < pairs@.len() ==> self.ants_view().contains_key(#[trigger] pairs@[k].0) && self.ants_view()[pairs@[k].0] == pairs@[k].1,
                forall|j: int, k: int| 0 <= j < pairs@.len() && 0 <= k < pairs@.len() && pairs@[j].0 == pairs@[k].0 ==> j == k,
                forall|k: int| 0 <= k < i ==> #[trigger] out@[k] == pairs@[k].1,
            decreases pairs.len() - i,
        {
            out.push(pairs[i].1);
            i += 1;
        }
        proof {
            assert forall|i: int| 0 <= i < out@.len() implies self.ants_view().contains_key(
                (#[trigger] out@[i]).id,
            ) && self.ants_view()[out@[i].id] == out@[i] && out@[i].wf(self.bounds_view()) by {
                let k = pairs@[i].0;
                assert(self.ants_view().contains_key(k));
                assert(self.ants_view()[k].id == k);
            }
            assert forall|k: i32| self.ants_view().contains_key(k) implies exists|i: int| 0 <= i < out@.len() && #[trigger] out@[i].id == k by {
                let j = choose|j: int| 0 <= j < pairs@.len() && #[trigger] pairs@[j].0 == k;
                assert(out@[j].id == k);
            }
            assert forall|a: int, b: int| 0 <= a < out@.len() && 0 <= b < out@.len() && out@[a].id == out@[b].id implies a == b by {
                assert(pairs@[a].0 == out@[a].id);
                assert(pairs@[b].0 == out@[b].id);
            }
        }
        out
    }

    /// A copy of every entry, each once, in no particular order.
    pub fn all_colonies(&self) -> (r: Vec<FastColony>)
        requires
            self.wf(),
        ensures
            forall|i: int| 0 <= i < r@.len() ==> self.colonies_view().contains_key(#[trigger] r@[i].id)
                && self.colonies_view()[r@[i].id] == r@[i],
            forall|k: i32| self.colonies_view().contains_key(k) ==> exists|i: int| 0 <= i < r@.len() && #[trigger] r@[i].id == k,
            forall|i: int, j: int| 0 <= i < r@.len() && 0 <= j < r@.len() && r@[i].id == r@[j].id ==> i == j,
            forall|i: int| 0 <= i < r@.len() ==> (#[trigger] r@[i]).wf(self.bounds_view()),
    {
        let pairs = list_colonys(&self.colonies);
        let mut out: Vec<FastColony> = Vec::new();
        let mut i: usize = 0;
        while i < pairs.len()
            invariant
                self.wf(),
                i <= pairs.len(),
                out@.len() == i,
                forall|k: int| 0 <= k < pairs@.len() ==> self.colonies_view().contains_key(#[trigger] pairs@[k].0) && self.colonies_view()[pairs@[k].0] == pairs@[k].1,
                forall|j: int, k: int| 0 <= j < pairs@.len() && 0 <= k < pairs@.len() && pairs@[j].0 == pairs@[k].0 ==> j == k,
                forall|k: int| 0 <= k < i ==> #[trigger] out@[k] == pairs@[k].1,
            decreases pairs.len() - i,
        {
            out.push(pairs[i].1);
            i += 1;
        }
        proof {
            assert forall|i: int| 0 <= i < out@.len() implies self.colonies_view().contains_key(
                (#[trigger] out@[i]).id,
            ) && self.colonies_view()[out@[i].id] == out@[i] && out@[i].wf(self.bounds_view()) by {
                let k = pairs@[i].0;
                assert(self.colonies_view().contains_key(k));
                assert(self.colonies_view()[k].id == k);
            }
            assert forall|k: i32| self.colonies_view().contains_key(k) implies exists|i: int| 0 <= i < out@.len() && #[trigger] out@[i].id == k by {
                let j = choose|j: int| 0 <= j < pairs@.len() && #[trigger] pairs@[j].0 == k;
                assert(out@[j].id == k);
            }
            assert forall|a: int, b: int| 0 <= a < out@.len() && 0 <= b < out@.len() && out@[a].id == out@[b].id implies a == b by {
                assert(pairs@[a].0 == out@[a].id);
                assert(pairs@[b].0 == out@[b].id);
            }
        }
        out
    }

    /// A copy of every entry, each once, in no particular order.
    pub fn all_food_sources(&self) -> (r: Vec<FastFoodSource>)
        requires
            self.wf(),
        ensures
            forall|i: int| 0 <= i < r@.len() ==> self.food_view().contains_key(#[trigger] r@[i].id)
                && self.food_view()[r@[i].id] == r@[i],
            forall|k: i32| self.food_view().contains_key(k) ==> exists|i: int| 0 <= i < r@.len() && #[trigger] r@[i].id == k,
            forall|i: int, j: int| 0 <= i < r@.len() && 0 <= j < r@.len() && r@[i].id == r@[j].id ==> i == j,
            forall|i: int| 0 <= i < r@.len() ==> (#[trigger] r@[i]).wf(self.bounds_view()),
    {
        let pairs = list_foods(&self.food_sources);
        let mut out: Vec<FastFoodSource> = Vec::new();
        let mut i: usize = 0;
        while i < pairs.len()
            invariant
                self.wf(),
                i <= pairs.len(),
                out@.len() == i,
                forall|k: int| 0 <= k < pairs@.len() ==> self.food_view().contains_key(#[trigger] pairs@[k].0) && self.food_view()[pairs@[k].0] == pairs@[k].1,
                forall|j: int, k: int| 0 <= j < pairs@.len() && 0 <= k < pairs@.len() && pairs@[j].0 == pairs@[k].0 ==> j == k,
                forall|k: int| 0 <= k < i ==> #[trigger] out@[k] == pairs@[k].1,
            decreases pairs.len() - i,
        {
            out.push(pairs[i].1);
            i += 1;
        }
        proof {
            assert forall|i: int| 0 <= i < out@.len() implies self.food_view().contains_key(
                (#[trigger] out@[i]).id,
            ) && self.food_view()[out@[i].id] == out@[i] && out@[i].wf(self.bounds_view()) by {
                let k = pairs@[i].0;
                assert(self.food_view().contains_key(k));
                assert(self.food_view()[k].id == k);
            }
            assert forall|k: i32| self.food_view().contains_key(k) implies exists|i: int| 0 <= i < out@.len() && #[trigger] out@[i].id == k by {
                let j = choose|j: int| 0 <= j < pairs@.len() && #[trigger] pairs@[j].0 == k;
                assert(out@[j].id == k);
            }
            assert forall|a: int, b: int| 0 <= a < out@.len() && 0 <= b < out@.len() && out@[a].id == out@[b].id implies a == b by {
                assert(pairs@[a].0 == out@[a].id);
                assert(pairs@[b].0 == out@[b].id);
            }
        }
        out
    }

    /// A copy of every entry, each once, in no particular order.
    pub fn all_pheromone_trails(&self) -> (r: Vec<FastPheromoneTrail>)
        requires
            self.wf(),
        ensures
            forall|i: int| 0 <= i < r@.len() ==> self.trails_view().contains_key(#[trigger] r@[i].id)
                && self.trails_view()[r@[i].id] == r@[i],
            forall|k: i32| self.trails_view().contains_key(k) ==> exists|i: int| 0 <= i < r@.len() && #[trigger] r@[i].id == k,
            forall|i: int, j: int| 0 <= i < r@.len() && 0 <= j < r@.len() && r@[i].id == r@[j].id ==> i == j,
            forall|i: int| 0 <= i < r@.len() ==> (#[trigger] r@[i]).wf(self.bounds_view()),
    {
        let pairs = list_trails(&self.pheromone_trails);
        let mut out: Vec<FastPheromoneTrail> = Vec::new();
        let mut i: usize = 0;
        while i < pairs.len()
            invariant
                self.wf(),
                i <= pairs.len(),
                out@.len() == i,
                forall|k: int| 0 <= k < pairs@.len() ==> self.trails_view().contains_key(#[trigger] pairs@[k].0) && self.trails_view()[pairs@[k].0] == pairs@[k].1,
                forall|j: int, k: int| 0 <= j < pairs@.len() && 0 <= k < pairs@.len() && pairs@[j].0 == pairs@[k].0 ==> j == k,
                forall|k: int| 0 <= k < i ==> #[trigger] out@[k] == pairs@[k].1,
            decreases pairs.len() - i,
        {
            out.push(pairs[i].1);
            i += 1;
        }
        proof {
            assert forall|i: int| 0 <= i < out@.len() implies self.trails_view().contains_key(
                (#[trigger] out@[i]).id,
            ) && self.trails_view()[out@[i].id] == out@[i] && out@[i].wf(self.bounds_view()) by {
                let k = pairs@[i].0;
                assert(self.trails_view().contains_key(k));
                assert(self.trails_view()[k].id == k);
            }
            assert forall|k: i32| self.trails_view().contains_key(k) implies exists|i: int| 0 <= i < out@.len() && #[trigger] out@[i].id == k by {
                let j = choose|j: int| 0 <= j < pairs@.len() && #[trigger] pairs@[j].0 == k;
                assert(out@[j].id == k);
            }
            assert forall|a: int, b: int| 0 <= a < out@.len() && 0 <= b < out@.len() && out@[a].id == out@[b].id implies a == b by {
                assert(pairs@[a].0 == out@[a].id);
                assert(pairs@[b].0 == out@[b].id);
            }
        }
        out
    }

    /// The ants of colony `colony_id`, each once, in no particular order.
    pub fn get_ants_in_colony(&self, colony_id: &i32) -> (r: Vec<FastAnt>)
        requires
            self.wf(),
        ensures
            forall|i: int| 0 <= i < r@.len() ==> self.ants_view().contains_key((#[trigger] r@[i]).id)
                && self.ants_view()[r@[i].id] == r@[i] && r@[i].colony_id == *colony_id,
            forall|k: i32| self.ants_view().contains_key(k) && self.ants_view()[k].colony_id == *colony_id
                ==> exists|i: int| 0 <= i < r@.len() && #[trigger] r@[i].id == k,
            forall|i: int, j: int| 0 <= i < r@.len() && 0 <= j < r@.len() && r@[i].id == r@[j].id ==> i == j,
    {
        let all = self.all_ants();
        let mut out: Vec<FastAnt> = Vec::new();
        let ghost mut idx: Seq<int> = Seq::empty();
        let mut i: usize = 0;
        while i < all.len()
            invariant
                self.wf(),
                i <= all.len(),
                forall|m: int| 0 <= m < all@.len() ==> self.ants_view().contains_key((#[trigger] all@[m]).id)
                    && self.ants_view()[all@[m].id] == all@[m] && all@[m].wf(self.bounds_view()),
                forall|a: int, b: int| 0 <= a < all@.len() && 0 <= b < all@.len() && all@[a].id == all@[b].id ==> a == b,
                idx.len() == out@.len(),
                forall|j: int| 0 <= j < idx.len() ==> 0 <= #[trigger] idx[j] < i && out@[j] == all@[idx[j]],
                forall|a: int, b: int| 0 <= a < b < idx.len() ==> idx[a] < idx[b],
                forall|j: int| 0 <= j < out@.len() ==> (#[trigger] out@[j]).colony_id == *colony_id,
                forall|m: int| 0 <= m < i && (#[trigger] all@[m]).colony_id == *colony_id ==> exists|j: int| 0 <= j < idx.len() && idx[j] == m,
            decreases all.len() - i,
        {
            let x = all[i];
            let ghost old_idx = idx;
            if x.colony_id == *colony_id {
                out.push(x);
                proof {
                    idx = idx.push(i as int);
                }
            }
            proof {
                assert forall|m: int| 0 <= m < i + 1 && (#[trigger] all@[m]).colony_id == *colony_id implies exists|j: int| 0 <= j < idx.len() && idx[j] == m by {
                    if m == i {
                        assert(idx[idx.len() - 1] == m);
                    } else {
                        let j = choose|j: int| 0 <= j < old_idx.len() && old_idx[j] == m;
                        assert(idx[j] == old_idx[j]);
                    }
                }
            }
            i += 1;
        }
        proof {
            assert forall|i: int| 0 <= i < out@.len() implies self.ants_view().contains_key((#[trigger] out@[i]).id)
                && self.ants_view()[out@[i].id] == out@[i] by {
                assert(out@[i] == all@[idx[i]]);
            }
            assert forall|k: i32| self.ants_view().contains_key(k) && self.ants_view()[k].colony_id == *colony_id
                implies exists|j: int| 0 <= j < out@.len() && #[trigger] out@[j].id == k by {
                let m = choose|m: int| 0 <= m < all@.len() && #[trigger] all@[m].id == k;
                let j = choose|j: int| 0 <= j < idx.len() && idx[j] == m;
                assert(out@[j] == all@[m]);
            }
            assert forall|a: int, b: int| 0 <= a < out@.len() && 0 <= b < out@.len() && out@[a].id == out@[b].id
                implies a == b by {
                assert(out@[a] == all@[idx[a]]);
                assert(out@[b] == all@[idx[b]]);
                if a < b {
                    assert(idx[a] < idx[b]);
                } else if b < a {
                    assert(idx[b] < idx[a]);
                }
            }
        }
        out
    }

    /// The ants within `radius` of `position`, each once, in no particular order.
    pub fn get_ants_near_position(&self, position: Point, radius: i64) -> (r: Vec<FastAnt>)
        requires
            self.wf(),
            coord_ok(position),
            0 <= radius <= MAX_EXTENT,
        ensures
            forall|i: int| 0 <= i < r@.len() ==> self.ants_view().contains_key((#[trigger] r@[i]).id)
                && self.ants_view()[r@[i].id] == r@[i] && within(r@[i].position, position, radius as int),
            forall|k: i32| self.ants_view().contains_key(k) && within(self.ants_view()[k].position, position, radius as int)
                ==> exists|i: int| 0 <= i < r@.len() && #[trigger] r@[i].id == k,
            forall|i: int, j: int| 0 <= i < r@.len() && 0 <= j < r@.len() && r@[i].id == r@[j].id ==> i == j,
    {
        let all = self.all_ants();
        let mut out: Vec<FastAnt> = Vec::new();
        let ghost mut idx: Seq<int> = Seq::empty();
        let mut i: usize = 0;
        while i < all.len()
            invariant
                self.wf(),
                coord_ok(position),
                0 <= radius <= MAX_EXTENT,
                i <= all.len(),
                forall|m: int| 0 <= m < all@.len() ==> self.ants_view().contains_key((#[trigger] all@[m]).id)
                    && self.ants_view()[all@[m].id] == all@[m] && all@[m].wf(self.bounds_view()),
                forall|a: int, b: int| 0 <= a < all@.len() && 0 <= b < all@.len() && all@[a].id == all@[b].id ==> a == b,
                idx.len() == out@.len(),
                forall|j: int| 0 <= j < idx.len() ==> 0 <= #[trigger] idx[j] < i && out@[j] == all@[idx[j]],
                forall|a: int, b: int| 0 <= a < b < idx.len() ==> idx[a] < idx[b],
                forall|j: int| 0 <= j < out@.len() ==> within((#[trigger] out@[j]).position, position, radius as int),
                forall|m: int| 0 <= m < i && within((#[trigger] all@[m]).position, position, radius as int) ==> exists|j: int| 0 <= j < idx.len() && idx[j] == m,
            decreases all.len() - i,
        {
            let x = all[i];
            let ghost old_idx = idx;
            if is_within(x.position, position, radius) {
                out.push(x);
                proof {
                    idx = idx.push(i as int);
                }
            }
            proof {
                assert forall|m: int| 0 <= m < i + 1 && within((#[trigger] all@[m]).position, position, radius as int) implies exists|j: int| 0 <= j < idx.len() && idx[j] == m by {
                    if m == i {
                        assert(idx[idx.len() - 1] == m);
                    } else {
                        let j = choose|j: int| 0 <= j < old_idx.len() && old_idx[j] == m;
                        assert(idx[j] == old_idx[j]);
                    }
                }
            }
            i += 1;
        }
        proof {
            assert forall|i: int| 0 <= i < out@.len() implies self.ants_view().contains_key((#[trigger] out@[i]).id)
                && self.ants_view()[out@[i].id] == out@[i] by {
                assert(out@[i] == all@[idx[i]]);
            }
            assert forall|k: i32| self.ants_view().contains_key(k) && within(self.ants_view()[k].position, position, radius as int)
                implies exists|j: int| 0 <= j < out@.len() && #[trigger] out@[j].id == k by {
                let m = choose|m: int| 0 <= m < all@.len() && #[trigger] all@[m].id == k;
                let j = choose|j: int| 0 <= j < idx.len() && idx[j] == m;
                assert(out@[j] == all@[m]);
            }
            assert forall|a: int, b: int| 0 <= a < out@.len() && 0 <= b < out@.len() && out@[a].id == out@[b].id
                implies a == b by {
                assert(out@[a] == all@[idx[a]]);
                assert(out@[b] == all@[idx[b]]);
                if a < b {
                    assert(idx[a] < idx[b]);
                } else if b < a {
                    assert(idx[b] < idx[a]);
                }
            }
        }
        out
    }

    /// The food sources within `radius` of `position`, each once, in no particular order.
    pub fn get_food_sources_near_position(&self, position: Point, radius: i64) -> (r: Vec<FastFoodSource>)
        requires
            self.wf(),
            coord_ok(position),
            0 <= radius <= MAX_EXTENT,
        ensures
            forall|i: int| 0 <= i < r@.len() ==> self.food_view().contains_key((#[trigger] r@[i]).id)
                && self.food_view()[r@[i].id] == r@[i] && within(r@[i].position, position, radius as int),
            forall|k: i32| self.food_view().contains_key(k) && within(self.food_view()[k].position, position, radius as int)
                ==> exists|i: int| 0 <= i < r@.len() && #[trigger] r@[i].id == k,
            forall|i: int, j: int| 0 <= i < r@.len() && 0 <= j < r@.len() && r@[i].id == r@[j].id ==> i == j,
    {
        let all = self.all_food_sources();
        let mut out: Vec<FastFoodSource> = Vec::new();
        let ghost mut idx: Seq<int> = Seq::empty();
        let mut i: usize = 0;
        while i < all.len()
            invariant
                self.wf(),
                coord_ok(position),
                0 <= radius <= MAX_EXTENT,
                i <= all.len(),
                forall|m: int| 0 <= m < all@.len() ==> self.food_view().contains_key((#[trigger] all@[m]).id)
                    && self.food_view()[all@[m].id] == all@[m] && all@[m].wf(self.bounds_view()),
                forall|a: int, b: int| 0 <= a < all@.len() && 0 <= b < all@.len() && all@[a].id == all@[b].id ==> a == b,
                idx.len() == out@.len(),
                forall|j: int| 0 <= j < idx.len() ==> 0 <= #[trigger] idx[j] < i && out@[j] == all@[idx[j]],
                forall|a: int, b: int| 0 <= a < b < idx.len() ==> idx[a] < idx[b],
                forall|j: int| 0 <= j < out@.len() ==> within((#[trigger] out@[j]).position, position, radius as int),
                forall|m: int| 0 <= m < i && within((#[trigger] all@[m]).position, position, radius as int) ==> exists|j: int| 0 <= j < idx.len() && idx[j] == m,
            decreases all.len() - i,
        {
            let x = all[i];
            let ghost old_idx = idx;
            if is_within(x.position, position, radius) {
                out.push(x);
                proof {
                    idx = idx.push(i as int);
                }
            }
            proof {
                assert forall|m: int| 0 <= m < i + 1 && within((#[trigger] all@[m]).position, position, radius as int) implies exists|j: int| 0 <= j < idx.len() && idx[j] == m by {
                    if m == i {
                        assert(idx[idx.len() - 1] == m);
                    } else {
                        let j = choose|j: int| 0 <= j < old_idx.len() && old_idx[j] == m;
                        assert(idx[j] == old_idx[j]);
                    }
                }
            }
            i += 1;
        }
        proof {
            assert forall|i: int| 0 <= i < out@.len() implies self.food_view().contains_key((#[trigger] out@[i]).id)
                && self.food_view()[out@[i].id] == out@[i] by {
                assert(out@[i] == all@[idx[i]]);
            }
            assert forall|k: i32| self.food_view().contains_key(k) && within(self.food_view()[k].position, position, radius as int)
                implies exists|j: int| 0 <= j < out@.len() && #[trigger] out@[j].id == k by {
                let m = choose|m: int| 0 <= m < all@.len() && #[trigger] all@[m].id == k;
                let j = choose|j: int| 0 <= j < idx.len() && idx[j] == m;
                assert(out@[j] == all@[m]);
            }
            assert forall|a: int, b: int| 0 <= a < out@.len() && 0 <= b < out@.len() && out@[a].id == out@[b].id
                implies a == b by {
                assert(out@[a] == all@[idx[a]]);
                assert(out@[b] == all@[idx[b]]);
                if a < b {
                    assert(idx[a] < idx[b]);
                } else if b < a {
                    assert(idx[b] < idx[a]);
                }
            }
        }
        out
    }

    /// The trails within `radius` of `position`, each once, in no particular order.
    pub fn get_pheromone_trails_near_position(&self, position: Point, radius: i64) -> (r: Vec<FastPheromoneTrail>)
        requires
            self.wf(),
            coord_ok(position),
            0 <= radius <= MAX_EXTENT,
        ensures
            forall|i: int| 0 <= i < r@.len() ==> self.trails_view().contains_key((#[trigger] r@[i]).id)
                && self.trails_view()[r@[i].id] == r@[i] && within(r@[i].position, position, radius as int),
            forall|k: i32| self.trails_view().contains_key(k) && within(self.trails_view()[k].position, position, radius as int)
                ==> exists|i: int| 0 <= i < r@.len() && #[trigger] r@[i].id == k,
            forall|i: int, j: int| 0 <= i < r@.len() && 0 <= j < r@.len() && r@[i].id == r@[j].id ==> i == j,
    {
        let all = self.all_pheromone_trails();
        let mut out: Vec<FastPheromoneTrail> = Vec::new();
        let ghost mut idx: Seq<int> = Seq::empty();
        let mut i: usize = 0;
        while i < all.len()
            invariant
                self.wf(),
                coord_ok(position),
                0 <= radius <= MAX_EXTENT,
                i <= all.len(),
                forall|m: int| 0 <= m < all@.len() ==> self.trails_view().contains_key((#[trigger] all@[m]).id)
                    && self.trails_view()[all@[m].id] == all@[m] && all@[m].wf(self.bounds_view()),
                forall|a: int, b: int| 0 <= a < all@.len() && 0 <= b < all@.len() && all@[a].id == all@[b].id ==> a == b,
                idx.len() == out@.len(),
                forall|j: int| 0 <= j < idx.len() ==> 0 <= #[trigger] idx[j] < i && out@[j] == all@[idx[j]],
                forall|a: int, b: int| 0 <= a < b < idx.len() ==> idx[a] < idx[b],
                forall|j: int| 0 <= j < out@.len() ==> within((#[trigger] out@[j]).position, position, radius as int),
                forall|m: int| 0 <= m < i && within((#[trigger] all@[m]).position, position, radius as int) ==> exists|j: int| 0 <= j < idx.len() && idx[j] == m,
            decreases all.len() - i,
        {
            let x = all[i];
            let ghost old_idx = idx;
            if is_within(x.position, position, radius) {
                out.push(x);
                proof {
                    idx = idx.push(i as int);
                }
            }
            proof {
                assert forall|m: int| 0 <= m < i + 1 && within((#[trigger] all@[m]).position, position, radius as int) implies exists|j: int| 0 <= j < idx.len() && idx[j] == m by {
                    if m == i {
                        assert(idx[idx.len() - 1] == m);
                    } else {
                        let j = choose|j: int| 0 <= j < old_idx.len() && old_idx[j] == m;
                        assert(idx[j] == old_idx[j]);
                    }
                }
            }
            i += 1;
        }
        proof {
            assert forall|i: int| 0 <= i < out@.len() implies self.trails_view().contains_key((#[trigger] out@[i]).id)
                && self.trails_view()[out@[i].id] == out@[i] by {
                assert(out@[i] == all@[idx[i]]);
            }
            assert forall|k: i32| self.trails_view().contains_key(k) && within(self.trails_view()[k].position, position, radius as int)
                implies exists|j: int| 0 <= j < out@.len() && #[trigger] out@[j].id == k by {
                let m = choose|m: int| 0 <= m < all@.len() && #[trigger] all@[m].id == k;
                let j = choose|j: int| 0 <= j < idx.len() && idx[j] == m;
                assert(out@[j] == all@[m]);
            }
            assert forall|a: int, b: int| 0 <= a < out@.len() && 0 <= b < out@.len() && out@[a].id == out@[b].id
                implies a == b by {
                assert(out@[a] == all@[idx[a]]);
                assert(out@[b] == all@[idx[b]]);
                if a < b {
                    assert(idx[a] < idx[b]);
                } else if b < a {
                    assert(idx[b] < idx[a]);
                }
            }
        }
        out
    }

    /// The current tick.
    pub fn get_current_tick(&self) -> (r: i64)
        ensures
            r == self.tick_view(),
    {
        self.current_tick
    }

    /// Set the tick counter.
    pub fn set_current_tick(&mut self, tick: i64)
        requires
            old(self).wf(),
        ensures
            final(self).wf(),
            final(self).tick_view() == tick,
            final(self).ants_view() == old(self).ants_view(),
            final(self).colonies_view() == old(self).colonies_view(),
            final(self).food_view() == old(self).food_view(),
            final(self).trails_view() == old(self).trails_view(),
            final(self).types_view() == old(self).types_view(),
            final(self).dirty_ants_view() == old(self).dirty_ants_view(),
            final(self).dirty_colonies_view() == old(self).dirty_colonies_view(),
            final(self).dirty_food_view() == old(self).dirty_food_view(),
            final(self).id_view() == old(self).id_view(),
            final(self).bounds_view() == old(self).bounds_view(),
    {
        self.current_tick = tick;
    }

    /// Record the tick of the last write to the store.
    pub fn set_last_db_sync(&mut self, tick: i64)
        requires
            old(self).wf(),
        ensures
            final(self).wf(),
            final(self).last_sync_view() == tick,
            final(self).ants_view() == old(self).ants_view(),
            final(self).colonies_view() == old(self).colonies_view(),
            final(self).food_view() == old(self).food_view(),
            final(self).trails_view() == old(self).trails_view(),
            final(self).types_view() == old(self).types_view(),
            final(self).dirty_ants_view() == old(self).dirty_ants_view(),
            final(self).dirty_colonies_view() == old(self).dirty_colonies_view(),
            final(self).dirty_food_view() == old(self).dirty_food_view(),
            final(self).tick_view() == old(self).tick_view(),
            final(self).id_view() == old(self).id_view(),
            final(self).bounds_view() == old(self).bounds_view(),
    {
        self.last_db_sync = tick;
    }

    /// The tick of the last write to the store.
    pub fn last_db_sync(&self) -> (r: i64)
        ensures
            r == self.last_sync_view(),
    {
        self.last_db_sync
    }

    /// The ids of the ants changed since the last clearing, each once.
    pub fn get_dirty_ant_ids(&self) -> (r: Vec<i32>)
        ensures
            r@.to_set() == self.dirty_ants_view(),
            r@.no_duplicates(),
    {
        list_flags(&self.dirty_ants)
    }

    /// The ids of the colonies changed since the last clearing, each once.
    pub fn get_dirty_colony_ids(&self) -> (r: Vec<i32>)
        ensures
            r@.to_set() == self.dirty_colonies_view(),
            r@.no_duplicates(),
    {
        list_flags(&self.dirty_colonies)
    }

    /// The ids of the food sources changed since the last clearing, each once.
    pub fn get_dirty_food_source_ids(&self) -> (r: Vec<i32>)
        ensures
            r@.to_set() == self.dirty_food_view(),
            r@.no_duplicates(),
    {
        list_flags(&self.dirty_food_sources)
    }

    /// Forget which entities changed.
    pub fn clear_dirty_flags(&mut self)
        requires
            old(self).wf(),
        ensures
            final(self).wf(),
            final(self).dirty_ants_view() == Set::<i32>::empty(),
            final(self).dirty_colonies_view() == Set::<i32>::empty(),
            final(self).dirty_food_view() == Set::<i32>::empty(),
            final(self).ants_view() == old(self).ants_view(),
            final(self).colonies_view() == old(self).colonies_view(),
            final(self).food_view() == old(self).food_view(),
            final(self).trails_view() == old(self).trails_view(),
            final(self).types_view() == old(self).types_view(),
            final(self).tick_view() == old(self).tick_view(),
            final(self).id_view() == old(self).id_view(),
            final(self).bounds_view() == old(self).bounds_view(),
    {
        clear_flags(&mut self.dirty_ants);
        clear_flags(&mut self.dirty_colonies);
        clear_flags(&mut self.dirty_food_sources);
    }

    /// Counts of what the world holds, with the total food in the colonies.
    pub fn get_stats(&self) -> (r: SimulationStats)
        requires
            self.wf(),
        ensures
            r.total_ants == self.ants_view().dom().len(),
            r.active_colonies == self.colonies_view().dom().len(),
            r.pheromone_trail_count == self.trails_view().dom().len(),
            r.current_tick == self.tick_view(),
    {
        let ants = list_ants(&self.ants);
        let colonies = list_colonys(&self.colonies);
        let trails = list_trails(&self.pheromone_trails);
        proof {
            lemma_pairs_count(ants@, self.ants_view());
            lemma_pairs_count(colonies@, self.colonies_view());
            lemma_pairs_count(trails@, self.trails_view());
        }
        let mut food: u64 = 0;
        let mut i: usize = 0;
        while i < colonies.len()
            decreases colonies.len() - i,
        {
            let f: u64 = colonies[i].1.resources.food as u64;
            food = if food > u64::MAX - f { u64::MAX } else { food + f };
            i += 1;
        }
        SimulationStats {
            total_ants: ants.len(),
            active_colonies: colonies.len(),
            total_food_collected: food,
            pheromone_trail_count: trails.len(),
            current_tick: self.current_tick,
        }
    }

    /// The ids of the ants changed since the last drain, each once; the
    /// set is emptied.
    pub fn drain_dirty_ants(&mut self) -> (r: Vec<i32>)
        requires
            old(self).wf(),
        ensures
            final(self).wf(),
            r@.to_set() == old(self).dirty_ants_view(),
            r@.no_duplicates(),
            final(self).dirty_ants_view() == Set::<i32>::empty(),
            final(self).ants_view() == old(self).ants_view(),
            final(self).colonies_view() == old(self).colonies_view(),
            final(self).food_view() == old(self).food_view(),
            final(self).trails_view() == old(self).trails_view(),
            final(self).types_view() == old(self).types_view(),
            final(self).dirty_colonies_view() == old(self).dirty_colonies_view(),
            final(self).dirty_food_view() == old(self).dirty_food_view(),
            final(self).tick_view() == old(self).tick_view(),
            final(self).id_view() == old(self).id_view(),
            final(self).bounds_view() == old(self).bounds_view(),
    {
        let ids = list_flags(&self.dirty_ants);
        clear_flags(&mut self.dirty_ants);
        ids
    }

    /// The ids of the colonies changed since the last drain, each once; the
    /// set is emptied.
    pub fn drain_dirty_colonies(&mut self) -> (r: Vec<i32>)
        requires
            old(self).wf(),
        ensures
            final(self).wf(),
            r@.to_set() == old(self).dirty_colonies_view(),
            r@.no_duplicates(),
            final(self).dirty_colonies_view() == Set::<i32>::empty(),
            final(self).ants_view() == old(self).ants_view(),
            final(self).colonies_view() == old(self).colonies_view(),
            final(self).food_view() == old(self).food_view(),
            final(self).trails_view() == old(self).trails_view(),
            final(self).types_view() == old(self).types_view(),
            final(self).dirty_ants_view() == old(self).dirty_ants_view(),
            final(self).dirty_food_view() == old(self).dirty_food_view(),
            final(self).tick_view() == old(self).tick_view(),
            final(self).id_view() == old(self).id_view(),
            final(self).bounds_view() == old(self).bounds_view(),
    {
        let ids = list_flags(&self.dirty_colonies);
        clear_flags(&mut self.dirty_colonies);
        ids
    }

    /// The ids of the food sources changed since the last drain, each once; the
    /// set is emptied.
    pub fn drain_dirty_food_sources(&mut self) -> (r: Vec<i32>)
        requires
            old(self).wf(),
        ensures
            final(self).wf(),
            r@.to_set() == old(self).dirty_food_view(),
            r@.no_duplicates(),
            final(self).dirty_food_view() == Set::<i32>::empty(),
            final(self).ants_view() == old(self).ants_view(),
            final(self).colonies_view() == old(self).colonies_view(),
            final(self).food_view() == old(self).food_view(),
            final(self).trails_view() == old(self).trails_view(),
            final(self).types_view() == old(self).types_view(),
            final(self).dirty_ants_view() == old(self).dirty_ants_view(),
            final(self).dirty_colonies_view() == old(self).dirty_colonies_view(),
            final(self).tick_view() == old(self).tick_view(),
            final(self).id_view() == old(self).id_view(),
            final(self).bounds_view() == old(self).bounds_view(),
    {
        let ids = list_flags(&self.dirty_food_sources);
        clear_flags(&mut self.dirty_food_sources);
        ids
    }
}

} // verus!

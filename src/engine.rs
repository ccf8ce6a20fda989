//! The tick scheduler: phases in order over the world state.
use vstd::prelude::*;
use crate::behavior::{sample_radius, SCAN_RADIUS};
use crate::cache::SimulationCache;
use crate::colony::{population_spec, bootstrap_colonies, consume_resources, count_population, should_spawn, spawn_ant, SPAWN_SPREAD};
use crate::environment::{food_spawn_due, spawn_food_source, tend_food_source, tended_spec};
use crate::geometry::{dist2, distance_squared, Point, WorldBounds, MAX_EXTENT, TURN, UNIT};
use crate::model::{AntState, AntTarget, FastAnt, FastColony, FastFoodSource, PheromoneType, Role};
use crate::pheromone::{consolidate, decay_trail, emit_trail};
use crate::random::RandomStream;
use crate::steering::{influence, Influence};
use crate::tick::{step_ant, Surroundings, MAX_JITTER};

verus! {

/// Every ant of `before` that was alive and could still age is in `after`,
/// one tick older.
pub open spec fn ages_on(before: Map<i32, FastAnt>, after: Map<i32, FastAnt>) -> bool {
    forall|k: i32|
        #[trigger] before.contains_key(k) && before[k].state != AntState::Dead && before[k].age_ticks < i64::MAX
            ==> after.contains_key(k) && after[k].age_ticks == before[k].age_ticks + 1
}

/// Every food source of `before` is, in `after`, what one tick of the
/// environment at `tick` makes of it, or gone when that left it empty and not
/// renewable.
pub open spec fn tended_all(before: Map<i32, FastFoodSource>, after: Map<i32, FastFoodSource>, tick: int) -> bool {
    forall|k: i32| #[trigger] before.contains_key(k) ==> {
        let t = tended_spec(before[k], tick);
        if t.amount == 0 && !t.is_renewable {
            !after.contains_key(k)
        } else {
            after.contains_key(k) && after[k] == t
        }
    }
}

/// Every ant of `before` is unchanged in `after`.
pub open spec fn keeps_ants(before: Map<i32, FastAnt>, after: Map<i32, FastAnt>) -> bool {
    forall|k: i32| #[trigger] before.contains_key(k) ==> after.contains_key(k) && after[k] == before[k]
}

/// `s` lists the ants of `m`, each once.
pub open spec fn lists_ants(s: Seq<FastAnt>, m: Map<i32, FastAnt>) -> bool {
    &&& forall|j: int| 0 <= j < s.len() ==> m.contains_key(#[trigger] s[j].id) && m[s[j].id] == s[j]
    &&& forall|k: i32| m.contains_key(k) ==> exists|j: int| 0 <= j < s.len() && #[trigger] s[j].id == k
    &&& forall|x: int, y: int| 0 <= x < s.len() && 0 <= y < s.len() && s[x].id == s[y].id ==> x == y
}

/// A colony's population is its live members in `s`, plus one when it
/// spawned an ant, which it may do only below both caps.
pub open spec fn counted_over(c: FastColony, s: Seq<FastAnt>, cap: int) -> bool {
    let p = population_spec(s, c.id);
    c.population == p || (c.population == p + 1 && p < c.max_population && p < cap)
}

/// Every trail of the world expires after the world's tick.
pub open spec fn trails_live(w: SimulationCache) -> bool {
    forall|k: i32| #[trigger] w.trails_view().contains_key(k) ==> w.tick_view() < w.trails_view()[k].expires_at
}

/// The recognized options of a simulation.
#[derive(Clone, Copy, Debug, PartialEq, Eq, Structural)]
pub struct SimulationConfig {
    pub tick_period_ms: u64,
    pub persistence_sync_interval_ticks: i64,
    pub broadcast_interval_ticks: i64,
    pub agent_batch_size: usize,
    /// Ten-thousandths of a radian per tick.
    pub max_turn_rate: u32,
    pub food_spawn_interval_ticks: i64,
    pub max_food_sources: usize,
    pub colony_spawn_tick_interval: i64,
    pub max_population: i32,
}

impl SimulationConfig {
    pub open spec fn wf(self) -> bool {
        &&& self.persistence_sync_interval_ticks > 0
        &&& self.broadcast_interval_ticks > 0
        &&& self.agent_batch_size > 0
        &&& self.food_spawn_interval_ticks > 0
        &&& self.colony_spawn_tick_interval > 0
    }

    /// The default options.
    pub fn defaults() -> (r: SimulationConfig)
        ensures
            r.wf(),
            r.tick_period_ms == 50,
            r.persistence_sync_interval_ticks == 100,
            r.broadcast_interval_ticks == 1,
            r.agent_batch_size == 100,
            r.max_turn_rate == 1000,
            r.food_spawn_interval_ticks == 1000,
            r.max_food_sources == 75,
            r.colony_spawn_tick_interval == 20,
            r.max_population == 100,
    {
        SimulationConfig {
            tick_period_ms: 50,
            persistence_sync_interval_ticks: 100,
            broadcast_interval_ticks: 1,
            agent_batch_size: 100,
            max_turn_rate: 1000,
            food_spawn_interval_ticks: 1000,
            max_food_sources: 75,
            colony_spawn_tick_interval: 20,
            max_population: 100,
        }
    }
}

/// The lifespan given to ants whose type is unknown.
pub const DEFAULT_LIFESPAN: i64 = 10000;

/// The speed of newly spawned ants, in position units per tick.
pub const SPAWN_SPEED: i64 = 2 * UNIT;

/// The last tick a world may reach.
pub const LAST_TICK: i64 = 1_000_000_000_000_000;

/// Whether dirty entities are written to the store at `tick`.
pub fn should_persist(tick: i64, config: &SimulationConfig) -> (r: bool)
    requires
        config.wf(),
        tick >= 0,
    ensures
        r == (tick % config.persistence_sync_interval_ticks == 0),
{
    tick % config.persistence_sync_interval_ticks == 0
}

/// Whether viewers are sent a message at `tick`.
pub fn should_broadcast(tick: i64, config: &SimulationConfig) -> (r: bool)
    requires
        config.wf(),
        tick >= 0,
    ensures
        r == (tick % config.broadcast_interval_ticks == 0),
{
    tick % config.broadcast_interval_ticks == 0
}

/// Whether a tick that took `elapsed_ms` ran over the period (worth a warning;
/// the next tick still starts at once).
pub fn is_overrun(elapsed_ms: u64, config: &SimulationConfig) -> (r: bool)
    ensures
        r == (elapsed_ms > config.tick_period_ms),
{
    elapsed_ms > config.tick_period_ms
}

/// How long to wait before the next tick after one that took `elapsed_ms`.
pub fn remaining_wait(elapsed_ms: u64, config: &SimulationConfig) -> (r: u64)
    ensures
        elapsed_ms >= config.tick_period_ms ==> r == 0,
        elapsed_ms < config.tick_period_ms ==> r == config.tick_period_ms - elapsed_ms,
{
    if elapsed_ms >= config.tick_period_ms {
        0
    } else {
        config.tick_period_ms - elapsed_ms
    }
}

/// A running simulation: its world, options, random stream and id counter.
pub struct AntColonySimulator {
    world: SimulationCache,
    config: SimulationConfig,
    rng: RandomStream,
    seed: u64,
    next_id: i32,
    is_running: bool,
}

/// The first of the non-empty food sources in `foods` nearest to `p`, if any.
fn nearest_food(foods: &Vec<FastFoodSource>, p: Point, bounds: WorldBounds) -> (r: Option<FastFoodSource>)
    requires
        bounds.wf(),
        bounds.contains(p),
        forall|i: int| 0 <= i < foods.len() ==> (#[trigger] foods@[i]).wf(bounds),
    ensures
        r matches Some(f) ==> f.wf(bounds) && foods@.contains(f) && f.amount > 0 && forall|j: int|
            0 <= j < foods.len() && (#[trigger] foods@[j]).amount > 0 ==> dist2(p, f.position) <= dist2(p, foods@[j].position),
        r is None ==> forall|j: int| 0 <= j < foods.len() ==> (#[trigger] foods@[j]).amount == 0,
{
    let mut best: Option<FastFoodSource> = None;
    let mut best_d: i128 = 0;
    let mut i: usize = 0;
    while i < foods.len()
        invariant
            i <= foods.len(),
            bounds.wf(),
            bounds.contains(p),
            forall|j: int| 0 <= j < foods.len() ==> (#[trigger] foods@[j]).wf(bounds),
            best matches Some(f) ==> f.wf(bounds) && foods@.contains(f) && f.amount > 0 && best_d == dist2(p, f.position)
                && forall|j: int| 0 <= j < i && (#[trigger] foods@[j]).amount > 0 ==> dist2(p, f.position) <= dist2(p, foods@[j].position),
            best is None ==> forall|j: int| 0 <= j < i ==> (#[trigger] foods@[j]).amount == 0,
        decreases foods.len() - i,
    {
        let f = foods[i];
        let d = distance_squared(p, f.position);
        let better = f.amount > 0 && match best {
            None => true,
            Some(_) => d < best_d,
        };
        if better {
            best = Some(f);
            best_d = d;
        }
        i += 1;
    }
    best
}

/// Whether a food source of `foods` has id `id`.
fn lists_food_id(foods: &Vec<FastFoodSource>, id: i32) -> (r: bool)
    ensures
        r == exists|j: int| 0 <= j < foods.len() && #[trigger] foods@[j].id == id,
{
    let mut i: usize = 0;
    while i < foods.len()
        invariant
            i <= foods.len(),
            forall|j: int| 0 <= j < i ==> (#[trigger] foods@[j]).id != id,
        decreases foods.len() - i,
    {
        if foods[i].id == id {
            return true;
        }
        i += 1;
    }
    false
}

/// The kinds of trail an ant's wandering is drawn by.
fn drawing_kinds() -> (r: Vec<PheromoneType>) {
    let mut v: Vec<PheromoneType> = Vec::new();
    v.push(PheromoneType::Food);
    v.push(PheromoneType::Exploration);
    v.push(PheromoneType::Danger);
    v.push(PheromoneType::Recruitment);
    v
}

/// The pull of the trails near `a` of the given kinds; none when too many.
fn sense(world: &SimulationCache, a: &FastAnt, radius: i64, kinds: &Vec<PheromoneType>) -> (r: Influence)
    requires
        world.wf(),
        a.wf(world.bounds_view()),
        0 < radius <= MAX_EXTENT,
    ensures
        crate::geometry::is_heading(r.direction as int),
{
    let near = world.get_pheromone_trails_near_position(a.position, radius);
    if near.len() > 1_000_000_000 {
        return Influence { direction: 0, strength: 0 };
    }
    proof {
        assert forall|i: int| 0 <= i < near.len() implies crate::geometry::coord_ok(#[trigger] near@[i].position)
            && crate::pheromone::trail_wf(near@[i]) by {
            assert(world.trails_view().contains_key(near@[i].id));
            assert(world.trails_view()[near@[i].id].wf(world.bounds_view()));
        }
    }
    influence(near.as_slice(), a.position, a.colony_id, radius, kinds.as_slice(), a.role)
}

impl AntColonySimulator {
    pub closed spec fn world_view(&self) -> SimulationCache {
        self.world
    }

    pub closed spec fn config_view(&self) -> SimulationConfig {
        self.config
    }

    pub closed spec fn running_view(&self) -> bool {
        self.is_running
    }

    pub open spec fn wf(&self) -> bool {
        &&& self.world_view().wf()
        &&& self.config_view().wf()
        &&& 0 <= self.world_view().tick_view() <= LAST_TICK
    }

    /// An empty world, started at `start_tick`.
    pub fn new(simulation_id: i32, bounds: WorldBounds, config: SimulationConfig, seed: u64, start_tick: i64) -> (r: AntColonySimulator)
        requires
            bounds.wf(),
            config.wf(),
            0 <= start_tick <= LAST_TICK,
        ensures
            r.wf(),
            r.running_view(),
            r.world_view().tick_view() == start_tick,
            r.world_view().bounds_view() == bounds,
            r.world_view().id_view() == simulation_id,
            r.config_view() == config,
    {
        let mut world = SimulationCache::new(simulation_id, bounds);
        world.set_current_tick(start_tick);
        AntColonySimulator { world, config, rng: RandomStream::new(seed), seed, next_id: 1, is_running: true }
    }

    /// The world state.
    pub fn world(&self) -> (r: &SimulationCache)
        ensures
            *r == self.world_view(),
    {
        &self.world
    }

    /// The world state, to change.
    pub fn world_mut(&mut self) -> (r: &mut SimulationCache)
        ensures
            *r == old(self).world_view(),
            final(self).world_view() == *final(r),
            final(self).config_view() == old(self).config_view(),
            final(self).running_view() == old(self).running_view(),
    {
        &mut self.world
    }

    /// The options.
    pub fn config(&self) -> (r: SimulationConfig)
        ensures
            r == self.config_view(),
    {
        self.config
    }

    /// Whether the simulation has not been stopped.
    pub fn is_running(&self) -> (r: bool)
        ensures
            r == self.running_view(),
    {
        self.is_running
    }

    /// Ask the loop to stop after the current tick.
    pub fn stop(&mut self)
        ensures
            !final(self).running_view(),
            final(self).world_view() == old(self).world_view(),
            final(self).config_view() == old(self).config_view(),
    {
        self.is_running = false;
    }

    /// New entities get ids above `id` from now on (loaded entities keep theirs).
    pub fn reserve_ids_through(&mut self, id: i32)
        ensures
            final(self).world_view() == old(self).world_view(),
            final(self).config_view() == old(self).config_view(),
            final(self).running_view() == old(self).running_view(),
    {
        if id >= self.next_id {
            self.next_id = if id < i32::MAX { id + 1 } else { i32::MAX };
        }
    }

    /// A fresh id, if any is left.
    fn fresh_id(&mut self) -> (r: Option<i32>)
        ensures
            final(self).world_view() == old(self).world_view(),
            final(self).config_view() == old(self).config_view(),
            final(self).running_view() == old(self).running_view(),
    {
        if self.next_id < i32::MAX {
            let id = self.next_id;
            self.next_id = self.next_id + 1;
            Some(id)
        } else {
            None
        }
    }

    /// Regrowth, spoilage and removal of food sources, then perhaps a new one.
    fn environment_phase(&mut self)
        requires
            old(self).wf(),
        ensures
            final(self).wf(),
            final(self).world_view().tick_view() == old(self).world_view().tick_view(),
            final(self).world_view().bounds_view() == old(self).world_view().bounds_view(),
            final(self).world_view().id_view() == old(self).world_view().id_view(),
            final(self).config_view() == old(self).config_view(),
            final(self).running_view() == old(self).running_view(),
            final(self).world_view().trails_view() == old(self).world_view().trails_view(),
            final(self).world_view().ants_view() == old(self).world_view().ants_view(),
            tended_all(old(self).world_view().food_view(), final(self).world_view().food_view(), old(self).world_view().tick_view() as int),
    {
        let tick = self.world.get_current_tick();
        let bounds = self.world.world_bounds();
        let foods = self.world.all_food_sources();
        let mut i: usize = 0;
        while i < foods.len()
            invariant
                self.wf(),
                self.world_view().tick_view() == tick,
                self.world_view().bounds_view() == bounds,
                self.world_view().id_view() == old(self).world_view().id_view(),
                self.config_view() == old(self).config_view(),
                self.running_view() == old(self).running_view(),
                self.world_view().trails_view() == old(self).world_view().trails_view(),
                0 <= tick,
                forall|j: int| 0 <= j < foods.len() ==> (#[trigger] foods@[j]).wf(bounds),
                self.world_view().ants_view() == old(self).world_view().ants_view(),
                i <= foods.len(),
                forall|j: int| 0 <= j < foods.len() ==> old(self).world_view().food_view().contains_key(#[trigger] foods@[j].id)
                    && old(self).world_view().food_view()[foods@[j].id] == foods@[j],
                forall|x: int, y: int| 0 <= x < foods.len() && 0 <= y < foods.len() && foods@[x].id == foods@[y].id ==> x == y,
                forall|k: i32| old(self).world_view().food_view().contains_key(k) ==> exists|j: int| 0 <= j < foods.len() && #[trigger] foods@[j].id == k,
                forall|j: int| i <= j < foods.len() ==> self.world_view().food_view().contains_key(#[trigger] foods@[j].id)
                    && self.world_view().food_view()[foods@[j].id] == foods@[j],
                forall|j: int| 0 <= j < i ==> {
                    let t = tended_spec(#[trigger] foods@[j], tick as int);
                    if t.amount == 0 && !t.is_renewable {
                        !self.world_view().food_view().contains_key(foods@[j].id)
                    } else {
                        self.world_view().food_view().contains_key(foods@[j].id) && self.world_view().food_view()[foods@[j].id] == t
                    }
                },
            decreases foods.len() - i,
        {
            let f = foods[i];
            match tend_food_source(f, tick) {
                Some(g) => {
                    self.world.update_food_source(g.id, g);
                },
                None => {
                    self.world.remove_food_source(&f.id);
                },
            }
            i += 1;
        }
        proof {
            assert forall|k: i32| #[trigger] old(self).world_view().food_view().contains_key(k) implies {
                let t = tended_spec(old(self).world_view().food_view()[k], tick as int);
                if t.amount == 0 && !t.is_renewable {
                    !self.world_view().food_view().contains_key(k)
                } else {
                    self.world_view().food_view().contains_key(k) && self.world_view().food_view()[k] == t
                }
            } by {
                let j = choose|j: int| 0 <= j < foods.len() && #[trigger] foods@[j].id == k;
            }
        }
        let ghost tended = self.world_view().food_view();
        let count = self.world.all_food_sources().len();
        let bonus = self.rng.chance(1, 10);
        if food_spawn_due(tick, count, bonus, self.config.food_spawn_interval_ticks, self.config.max_food_sources) {
            let colonies = self.world.all_colonies();
            proof {
                assert forall|j: int| 0 <= j < colonies.len() implies crate::geometry::coord_ok(#[trigger] colonies@[j].center) by {
                    assert(colonies@[j].wf(bounds));
                }
            }
            if let Some(id) = self.fresh_id() {
                if self.world.get_food_source(&id).is_none() && !lists_food_id(&foods, id) {
                    if let Some(f) = spawn_food_source(id, bounds, colonies.as_slice(), &mut self.rng) {
                        self.world.insert_food_source(f);
                    }
                }
            }
        }
    }

    /// Decay of every trail, the expired and the faded removed; then close trails
    /// of one colony and kind are consolidated.
    fn pheromone_phase(&mut self)
        requires
            old(self).wf(),
        ensures
            final(self).wf(),
            final(self).world_view().tick_view() == old(self).world_view().tick_view(),
            final(self).world_view().bounds_view() == old(self).world_view().bounds_view(),
            final(self).world_view().id_view() == old(self).world_view().id_view(),
            final(self).config_view() == old(self).config_view(),
            final(self).running_view() == old(self).running_view(),
            trails_live(final(self).world_view()),
            final(self).world_view().ants_view() == old(self).world_view().ants_view(),
            final(self).world_view().food_view() == old(self).world_view().food_view(),
    {
        let tick = self.world.get_current_tick();
        let bounds = self.world.world_bounds();
        let trails = self.world.all_pheromone_trails();
        let mut i: usize = 0;
        while i < trails.len()
            invariant
                self.wf(),
                self.world_view().tick_view() == tick,
                self.world_view().bounds_view() == bounds,
                self.world_view().id_view() == old(self).world_view().id_view(),
                self.config_view() == old(self).config_view(),
                self.running_view() == old(self).running_view(),
                self.world_view().ants_view() == old(self).world_view().ants_view(),
                self.world_view().food_view() == old(self).world_view().food_view(),
                forall|j: int| 0 <= j < trails.len() ==> (#[trigger] trails@[j]).wf(bounds),
                forall|a: int, b: int| 0 <= a < trails.len() && 0 <= b < trails.len() && trails@[a].id == trails@[b].id ==> a == b,
                i <= trails.len(),
                forall|k: i32| #[trigger] self.world_view().trails_view().contains_key(k) ==> exists|j: int| 0 <= j < trails.len() && trails@[j].id == k,
                forall|j: int| 0 <= j < i && #[trigger] self.world_view().trails_view().contains_key(trails@[j].id)
                    ==> tick < self.world_view().trails_view()[trails@[j].id].expires_at,
            decreases trails.len() - i,
        {
            let t = trails[i];
            match decay_trail(t, tick) {
                Some(n) => {
                    self.world.insert_pheromone_trail(n);
                },
                None => {
                    self.world.remove_pheromone_trail(&t.id);
                },
            }
            i += 1;
        }
        proof {
            assert forall|k: i32| #[trigger] self.world_view().trails_view().contains_key(k) implies tick < self.world_view().trails_view()[k].expires_at by {
                let j = choose|j: int| 0 <= j < trails.len() && trails@[j].id == k;
            }
        }
        let live = self.world.all_pheromone_trails();
        let merges = consolidate(live.as_slice(), bounds);
        proof {
            assert forall|j: int| 0 <= j < live.len() implies tick < (#[trigger] live@[j]).expires_at by {
                assert(self.world_view().trails_view().contains_key(live@[j].id));
            }
            assert forall|j: int| 0 <= j < merges.len() implies tick < (#[trigger] merges@[j]).merged.expires_at by {
                assert(crate::pheromone::is_merge_of(merges@[j], live@));
                let (x, y) = choose|x: int, y: int| 0 <= x < y < live.len() && crate::pheromone::mergeable(live@[x], live@[y])
                    && merges@[j].merged == (crate::model::FastPheromoneTrail { direction: merges@[j].merged.direction, ..crate::pheromone::merged_spec(live@[x], live@[y]) })
                    && merges@[j].absorbed == live@[y].id;
                assert(tick < live@[x].expires_at);
            }
        }
        let mut k: usize = 0;
        while k < merges.len()
            invariant
                self.wf(),
                self.world_view().tick_view() == tick,
                self.world_view().bounds_view() == bounds,
                self.world_view().id_view() == old(self).world_view().id_view(),
                self.config_view() == old(self).config_view(),
                self.running_view() == old(self).running_view(),
                self.world_view().ants_view() == old(self).world_view().ants_view(),
                self.world_view().food_view() == old(self).world_view().food_view(),
                forall|j: int| 0 <= j < merges.len() ==> (#[trigger] merges@[j]).merged.wf(bounds),
                forall|j: int| 0 <= j < merges.len() ==> tick < (#[trigger] merges@[j]).merged.expires_at,
                trails_live(self.world_view()),
            decreases merges.len() - k,
        {
            let m = merges[k];
            self.world.insert_pheromone_trail(m.merged);
            self.world.remove_pheromone_trail(&m.absorbed);
            k += 1;
        }
    }

    /// What ant `a` senses this tick, with `jitter` as its random change of heading.
    fn surroundings(&mut self, a: &FastAnt, jitter: i64) -> (r: Surroundings)
        requires
            old(self).wf(),
            a.wf(old(self).world_view().bounds_view()),
            -MAX_JITTER <= jitter <= MAX_JITTER,
        ensures
            crate::tick::surroundings_wf(r),
            r.bounds == old(self).world_view().bounds_view(),
            final(self).world_view() == old(self).world_view(),
            final(self).config_view() == old(self).config_view(),
            final(self).running_view() == old(self).running_view(),
    {
        let bounds = self.world.world_bounds();
        let lifespan = match self.world.get_ant_type(&a.ant_type_id) {
            Some(t) => t.lifespan_ticks,
            None => DEFAULT_LIFESPAN,
        };
        let near = self.world.get_food_sources_near_position(a.position, SCAN_RADIUS);
        proof {
            assert forall|j: int| 0 <= j < near.len() implies (#[trigger] near@[j]).wf(bounds) by {
                assert(self.world.food_view().contains_key(near@[j].id));
            }
        }
        let nearby_food = nearest_food(&near, a.position, bounds);
        let target_food = match a.target {
            AntTarget::Food(id) => self.world.get_food_source(&id),
            _ => None,
        };
        let colony = self.world.get_colony(&a.colony_id);
        let last_source_has_food = match a.last_food_source {
            Some(id) => match self.world.get_food_source(&id) {
                Some(f) => f.amount > 0,
                None => false,
            },
            None => false,
        };
        let kinds = drawing_kinds();
        let influence = sense(&self.world, a, sample_radius(a.role), &kinds);
        let mut home: Vec<PheromoneType> = Vec::new();
        home.push(PheromoneType::Home);
        let home_influence = sense(&self.world, a, sample_radius(a.role), &home);
        Surroundings {
            bounds,
            max_turn: self.config.max_turn_rate,
            lifespan,
            nearby_food,
            target_food,
            colony,
            last_source_has_food,
            influence,
            home_influence,
            jitter,
        }
    }

    /// Every ant once: the dead are cleared away, the living take their tick
    /// and what they did is written back. Ants go in batches of the configured
    /// size, each batch with its own random stream seeded from the master seed,
    /// the tick and the batch's index.
    fn agent_phase(&mut self)
        requires
            old(self).wf(),
            old(self).world_view().tick_view() <= LAST_TICK,
        ensures
            final(self).wf(),
            final(self).world_view().tick_view() == old(self).world_view().tick_view(),
            final(self).world_view().bounds_view() == old(self).world_view().bounds_view(),
            final(self).world_view().id_view() == old(self).world_view().id_view(),
            final(self).config_view() == old(self).config_view(),
            final(self).running_view() == old(self).running_view(),
            trails_live(old(self).world_view()) ==> trails_live(final(self).world_view()),
            ages_on(old(self).world_view().ants_view(), final(self).world_view().ants_view()),
    {
        let tick = self.world.get_current_tick();
        let bounds = self.world.world_bounds();
        let ants = self.world.all_ants();
        let batch_size = self.config.agent_batch_size;
        let master = self.seed ^ (tick as u64);
        let mut stream = RandomStream::for_worker(master, 0);
        let mut i: usize = 0;
        while i < ants.len()
            invariant
                batch_size == self.config_view().agent_batch_size,
                batch_size > 0,
                self.wf(),
                self.world_view().tick_view() == tick,
                self.world_view().bounds_view() == bounds,
                self.world_view().id_view() == old(self).world_view().id_view(),
                self.config_view() == old(self).config_view(),
                self.running_view() == old(self).running_view(),
                trails_live(old(self).world_view()) ==> trails_live(self.world_view()),
                0 <= tick <= LAST_TICK,
                i <= ants.len(),
                forall|j: int| 0 <= j < ants.len() ==> old(self).world_view().ants_view().contains_key(#[trigger] ants@[j].id)
                    && old(self).world_view().ants_view()[ants@[j].id] == ants@[j],
                forall|x: int, y: int| 0 <= x < ants.len() && 0 <= y < ants.len() && ants@[x].id == ants@[y].id ==> x == y,
                forall|k: i32| old(self).world_view().ants_view().contains_key(k) ==> exists|j: int| 0 <= j < ants.len() && #[trigger] ants@[j].id == k,
                forall|j: int| i <= j < ants.len() ==> self.world_view().ants_view().contains_key(#[trigger] ants@[j].id)
                    && self.world_view().ants_view()[ants@[j].id] == ants@[j],
                forall|j: int| 0 <= j < i && (#[trigger] ants@[j]).state != AntState::Dead && ants@[j].age_ticks < i64::MAX
                    ==> self.world_view().ants_view().contains_key(ants@[j].id)
                    && self.world_view().ants_view()[ants@[j].id].age_ticks == ants@[j].age_ticks + 1,
            decreases ants.len() - i,
        {
            if i % batch_size == 0 {
                stream = RandomStream::for_worker(master, (i / batch_size) as u64);
            }
            let id = ants[i].id;
            if let Some(a) = self.world.get_ant(&id) {
                assert(a.wf(bounds));
                if a.state == AntState::Dead {
                    self.world.remove_ant(&id);
                } else if a.age_ticks < i64::MAX {
                    let jitter = stream.between(-MAX_JITTER, MAX_JITTER);
                    let s = self.surroundings(&a, jitter);
                    let out = step_ant(a, &s);
                    self.world.update_ant(id, out.ant);
                    if let Some(f) = out.food {
                        self.world.update_food_source(f.id, f);
                    }
                    if let Some(c) = out.colony {
                        self.world.update_colony(c.id, c);
                    }
                    if let Some(t) = out.trail {
                        if let Some(tid) = self.fresh_id() {
                            let trail = emit_trail(
                                tid,
                                a.colony_id,
                                t.kind,
                                t.position,
                                t.strength,
                                t.quality,
                                id,
                                t.target_food,
                                tick,
                            );
                            self.world.insert_pheromone_trail(trail);
                        }
                    }
                }
            }
            i += 1;
        }
        proof {
            assert forall|k: i32|
                #[trigger] old(self).world_view().ants_view().contains_key(k)
                    && old(self).world_view().ants_view()[k].state != AntState::Dead
                    && old(self).world_view().ants_view()[k].age_ticks < i64::MAX
                implies self.world_view().ants_view().contains_key(k)
                    && self.world_view().ants_view()[k].age_ticks == old(self).world_view().ants_view()[k].age_ticks + 1 by {
                let j = choose|j: int| 0 <= j < ants.len() && #[trigger] ants@[j].id == k;
            }
        }
    }

    /// Every colony: bootstrap when there are none, recount, upkeep, spawning.
    fn colony_phase(&mut self)
        requires
            old(self).wf(),
        ensures
            final(self).wf(),
            final(self).world_view().tick_view() == old(self).world_view().tick_view(),
            final(self).world_view().bounds_view() == old(self).world_view().bounds_view(),
            final(self).world_view().id_view() == old(self).world_view().id_view(),
            final(self).config_view() == old(self).config_view(),
            final(self).running_view() == old(self).running_view(),
            final(self).world_view().trails_view() == old(self).world_view().trails_view(),
            keeps_ants(old(self).world_view().ants_view(), final(self).world_view().ants_view()),
            old(self).world_view().ants_view().dom().len() <= i32::MAX ==> exists|s: Seq<FastAnt>|
                lists_ants(s, old(self).world_view().ants_view()) && forall|k: i32|
                    #[trigger] final(self).world_view().colonies_view().contains_key(k) ==> counted_over(
                        final(self).world_view().colonies_view()[k],
                        s,
                        old(self).config_view().max_population as int,
                    ),
    {
        let tick = self.world.get_current_tick();
        let bounds = self.world.world_bounds();
        if self.world.all_colonies().len() == 0 {
            if let Some(first) = self.fresh_id() {
                if let Some(_second) = self.fresh_id() {
                    if first < i32::MAX {
                        let made = bootstrap_colonies(bounds, first);
                        self.world.insert_colony(made[0]);
                        self.world.insert_colony(made[1]);
                    }
                }
            }
        }
        let colonies = self.world.all_colonies();
        let ants = self.world.all_ants();
        proof {
            crate::cache::lemma_listing_count(ants@, self.world_view().ants_view());
        }
        if ants.len() > i32::MAX as usize {
            return;
        }
        let cap = self.config.max_population;
        let ghost start_ants = self.world_view().ants_view();
        let mut i: usize = 0;
        while i < colonies.len()
            invariant
                self.wf(),
                self.world_view().tick_view() == tick,
                self.world_view().bounds_view() == bounds,
                self.world_view().id_view() == old(self).world_view().id_view(),
                self.config_view() == old(self).config_view(),
                self.running_view() == old(self).running_view(),
                self.world_view().trails_view() == old(self).world_view().trails_view(),
                0 <= tick,
                cap == self.config_view().max_population,
                ants.len() <= i32::MAX,
                start_ants == old(self).world_view().ants_view(),
                lists_ants(ants@, start_ants),
                keeps_ants(start_ants, self.world_view().ants_view()),
                i <= colonies.len(),
                forall|x: int, y: int| 0 <= x < colonies.len() && 0 <= y < colonies.len() && colonies@[x].id == colonies@[y].id ==> x == y,
                forall|k: i32| #[trigger] self.world_view().colonies_view().contains_key(k) <==> exists|j: int|
                    0 <= j < colonies.len() && colonies@[j].id == k,
                forall|j: int| 0 <= j < i ==> counted_over(
                    self.world_view().colonies_view()[(#[trigger] colonies@[j]).id],
                    ants@,
                    cap as int,
                ),
            decreases colonies.len() - i,
        {
            let cid = colonies[i].id;
            proof {
                assert(self.world_view().colonies_view().contains_key(cid));
            }
            if let Some(c) = self.world.get_colony(&cid) {
                let population = count_population(ants.as_slice(), cid);
                proof {
                    crate::colony::lemma_population_nonneg(ants@, cid);
                }
                let counted = crate::model::FastColony { population, ..c };
                let mut fed = consume_resources(counted);
                if should_spawn(&fed, tick, self.config.colony_spawn_tick_interval) && fed.population < cap {
                    if let Some(aid) = self.fresh_id() {
                        if self.world.get_ant(&aid).is_none() {
                            let role = if self.rng.chance(1, 10) { Role::Scout } else { Role::Worker };
                            let heading = self.rng.below(TURN as u64) as u32;
                            let half: i64 = fed.radius / 2;
                            let dx = self.rng.between(-half, half);
                            let dy = self.rng.between(-half, half);
                            let (paid, ant) = spawn_ant(
                                fed,
                                aid,
                                0,
                                role,
                                heading,
                                Point { x: dx, y: dy },
                                SPAWN_SPEED,
                                bounds,
                            );
                            self.world.insert_ant(ant);
                            fed = paid;
                        }
                    }
                }
                self.world.update_colony(cid, fed);
                proof {
                    assert forall|j: int| 0 <= j < i + 1 implies counted_over(
                        self.world_view().colonies_view()[(#[trigger] colonies@[j]).id],
                        ants@,
                        cap as int,
                    ) by {
                        if j < i {
                            assert(colonies@[j].id != cid);
                        }
                    }
                }
            }
            i += 1;
        }
        proof {
            assert forall|k: i32| #[trigger] self.world_view().colonies_view().contains_key(k) implies counted_over(
                self.world_view().colonies_view()[k],
                ants@,
                cap as int,
            ) by {
                let j = choose|j: int| 0 <= j < colonies.len() && colonies@[j].id == k;
                assert(counted_over(self.world_view().colonies_view()[colonies@[j].id], ants@, cap as int));
            }
        }
    }

    /// One tick: the counter advances, then the environment, the trails, the
    /// ants and the colonies take their turns in that order.
    pub fn step(&mut self)
        requires
            old(self).wf(),
            old(self).world_view().tick_view() < LAST_TICK,
        ensures
            final(self).wf(),
            final(self).world_view().tick_view() == old(self).world_view().tick_view() + 1,
            final(self).world_view().bounds_view() == old(self).world_view().bounds_view(),
            final(self).world_view().id_view() == old(self).world_view().id_view(),
            final(self).config_view() == old(self).config_view(),
            trails_live(final(self).world_view()),
            ages_on(old(self).world_view().ants_view(), final(self).world_view().ants_view()),
    {
        let t = self.world.get_current_tick();
        self.world.set_current_tick(t + 1);
        self.environment_phase();
        self.pheromone_phase();
        self.agent_phase();
        self.colony_phase();
    }

    /// A small demonstration world of 1200 by 800 units: one colony at the
    /// center, six food sources around it and five wandering workers on a
    /// circle of 75 units about it.
    pub fn new_test() -> (r: AntColonySimulator)
        ensures
            r.wf(),
            r.world_view().tick_view() == 0,
    {
        let bounds = WorldBounds { width: 1200 * UNIT, height: 800 * UNIT };
        let mut sim = AntColonySimulator::new(1, bounds, SimulationConfig::defaults(), 1, 0);
        let center = Point { x: 600 * UNIT, y: 400 * UNIT };
        let colony = crate::model::FastColony {
            id: 1,
            center,
            radius: 50 * UNIT,
            population: 100,
            max_population: 1000,
            resources: crate::model::Resources { food: 0, seeds: 0, sugar: 0, protein: 0 },
            territory_radius: 1000 * UNIT,
            aggression: 5000,
            hunger_tenths: 0,
        };
        sim.world.insert_colony(colony);
        let spots: [(i64, i64); 6] = [(750, 550), (450, 550), (750, 250), (450, 250), (800, 400), (400, 400)];
        let mut k: usize = 0;
        while k < 6
            invariant
                sim.wf(),
                sim.world_view().tick_view() == 0,
                sim.world_view().bounds_view() == bounds,
                bounds.width == 1200 * UNIT && bounds.height == 800 * UNIT,
                spots@ == seq![(750i64, 550i64), (450i64, 550i64), (750i64, 250i64), (450i64, 250i64), (800i64, 400i64), (400i64, 400i64)],
            decreases 6 - k,
        {
            let (fx, fy) = spots[k];
            let kind = crate::environment::food_kind_at((k % 4) as u64);
            let food = FastFoodSource {
                id: 10 + k as i32,
                position: Point { x: fx * UNIT, y: fy * UNIT },
                food_type: kind,
                amount: 100,
                max_amount: 100,
                regeneration_rate: 1,
                is_renewable: true,
                nutritional_value: 10,
                spoilage_rate: 1,
            };
            sim.world.insert_food_source(food);
            k += 1;
        }
        let mut n: u32 = 0;
        while n < 5
            invariant
                n <= 5,
                sim.wf(),
                sim.world_view().tick_view() == 0,
                sim.world_view().bounds_view() == bounds,
                bounds.width == 1200 * UNIT && bounds.height == 800 * UNIT,
                center.x == 600 * UNIT && center.y == 400 * UNIT,
            decreases 5 - n,
        {
            assert(n * (TURN / 5) < TURN) by (nonlinear_arith)
                requires n < 5;
            let angle: u32 = n * (TURN / 5);
            let x = center.x + crate::motion::step_along(75 * UNIT, crate::geometry::cosine(angle));
            let y = center.y + crate::motion::step_along(75 * UNIT, crate::geometry::sine(angle));
            let ant = FastAnt {
                id: 20 + n as i32,
                colony_id: 1,
                ant_type_id: 0,
                role: crate::model::Role::Worker,
                position: Point { x, y },
                angle,
                speed: 2 * UNIT,
                health: 100,
                energy: 100,
                age_ticks: 0,
                state: AntState::Wandering,
                target: AntTarget::Unset,
                carried: crate::model::Resources { food: 0, seeds: 0, sugar: 0, protein: 0 },
                last_action_tick: 0,
                last_food_source: None,
            };
            sim.world.insert_ant(ant);
            n += 1;
        }
        sim.next_id = 100;
        sim
    }
}

/// In a well-formed simulation, at every tick: each ant lies inside the world
/// with its heading in `[0, 2 pi)` and a carrying ant carries something; each
/// food source holds between zero and its maximum; each trail's strength is at
/// most its maximum.
pub proof fn lemma_world_invariants(sim: &AntColonySimulator)
    requires
        sim.wf(),
    ensures
        forall|k: i32| #[trigger] sim.world_view().ants_view().contains_key(k) ==> {
            let a = sim.world_view().ants_view()[k];
            &&& sim.world_view().bounds_view().contains(a.position)
            &&& crate::geometry::is_heading(a.angle as int)
            &&& (a.state == AntState::CarryingFood ==> !a.carried.is_empty())
        },
        forall|k: i32| #[trigger] sim.world_view().food_view().contains_key(k) ==>
            sim.world_view().food_view()[k].amount <= sim.world_view().food_view()[k].max_amount,
        forall|k: i32| #[trigger] sim.world_view().trails_view().contains_key(k) ==>
            sim.world_view().trails_view()[k].strength <= sim.world_view().trails_view()[k].max_strength,
{
}

} // verus!

//! Snapshot and delta messages for viewers, and how a viewer rebuilds the state.
use vstd::prelude::*;
use crate::geometry::Point;
use crate::model::{
    AntState, FastAnt, FastColony, FastFoodSource, FastPheromoneTrail, Resources,
};

verus! {

/// Messages a viewer sends.
#[derive(Clone, Copy, Debug, PartialEq, Eq, Structural)]
pub enum ClientMessage {
    /// Subscribe to a simulation's updates.
    Subscribe { simulation_id: i32 },
    /// Ask for a full snapshot at the next tick boundary.
    RequestFullState { simulation_id: i32 },
}

/// Messages sent to viewers.
#[derive(Clone, Debug)]
pub enum SimulationMessage {
    /// The whole state.
    FullState {
        simulation_id: i32,
        tick: i64,
        ants: Vec<FastAnt>,
        colonies: Vec<FastColony>,
        food_sources: Vec<FastFoodSource>,
        pheromone_trails: Vec<FastPheromoneTrail>,
    },
    /// What changed since the previous snapshot.
    DeltaUpdate {
        simulation_id: i32,
        tick: i64,
        updated_ants: Vec<FastAnt>,
        updated_colonies: Vec<FastColony>,
        updated_food_sources: Vec<FastFoodSource>,
        new_pheromone_trails: Vec<FastPheromoneTrail>,
        removed_ant_ids: Vec<i32>,
        removed_food_source_ids: Vec<i32>,
    },
    /// Whether a simulation runs, and its tick.
    SimulationStatus { simulation_id: i32, is_running: bool, current_tick: i64 },
    /// A failure reported to the viewer.
    Error { message: String },
}

/// What a viewer is told of an ant.
pub type AntObs = (Point, AntState, i32, i32);

/// What a viewer is told of a colony.
pub type ColonyObs = (i32, Resources);

pub open spec fn ant_obs(a: FastAnt) -> AntObs {
    (a.position, a.state, a.health, a.energy)
}

pub open spec fn colony_obs(c: FastColony) -> ColonyObs {
    (c.population, c.resources)
}

pub open spec fn has_ant(s: Seq<FastAnt>, id: i32) -> bool {
    exists|j: int| 0 <= j < s.len() && s[j].id == id
}

pub open spec fn has_colony(s: Seq<FastColony>, id: i32) -> bool {
    exists|j: int| 0 <= j < s.len() && s[j].id == id
}

pub open spec fn has_food(s: Seq<FastFoodSource>, id: i32) -> bool {
    exists|j: int| 0 <= j < s.len() && s[j].id == id
}

/// `k` is the first position of `s` that holds an ant with this id.
pub open spec fn first_ant_at(s: Seq<FastAnt>, id: i32, k: int) -> bool {
    0 <= k < s.len() && s[k].id == id && forall|j: int| 0 <= j < k ==> s[j].id != id
}

pub open spec fn first_colony_at(s: Seq<FastColony>, id: i32, k: int) -> bool {
    0 <= k < s.len() && s[k].id == id && forall|j: int| 0 <= j < k ==> s[j].id != id
}

pub open spec fn first_food_at(s: Seq<FastFoodSource>, id: i32, k: int) -> bool {
    0 <= k < s.len() && s[k].id == id && forall|j: int| 0 <= j < k ==> s[j].id != id
}

/// An ant is reported when it is new, or when its position, state, health or
/// energy differ from its first earlier record.
pub open spec fn ant_updated(prev: Seq<FastAnt>, a: FastAnt) -> bool {
    !has_ant(prev, a.id) || exists|k: int|
        first_ant_at(prev, a.id, k) && #[trigger] ant_obs(prev[k]) != ant_obs(a)
}

/// A colony is reported when it is new, or its population or resources changed.
pub open spec fn colony_updated(prev: Seq<FastColony>, c: FastColony) -> bool {
    !has_colony(prev, c.id) || exists|k: int|
        first_colony_at(prev, c.id, k) && #[trigger] colony_obs(prev[k]) != colony_obs(c)
}

/// A food source is reported when it is new, or its amount changed.
pub open spec fn food_updated(prev: Seq<FastFoodSource>, f: FastFoodSource) -> bool {
    !has_food(prev, f.id) || exists|k: int|
        first_food_at(prev, f.id, k) && #[trigger] prev[k].amount != f.amount
}

pub open spec fn ant_id(a: FastAnt) -> i32 {
    a.id
}

pub open spec fn food_id(f: FastFoodSource) -> i32 {
    f.id
}

pub open spec fn removed_ants_spec(prev: Seq<FastAnt>, cur: Seq<FastAnt>) -> Seq<i32> {
    prev.filter(|p: FastAnt| !has_ant(cur, p.id)).map_values(|p: FastAnt| p.id)
}

pub open spec fn removed_food_spec(prev: Seq<FastFoodSource>, cur: Seq<FastFoodSource>) -> Seq<
    i32,
> {
    prev.filter(|p: FastFoodSource| !has_food(cur, p.id)).map_values(|p: FastFoodSource| p.id)
}

/// The first index of `s` holding an ant with this id.
fn find_ant(s: &[FastAnt], id: i32) -> (r: Option<usize>)
    ensures
        r matches Some(k) ==> first_ant_at(s@, id, k as int),
        r is None ==> !has_ant(s@, id),
{
    let mut j: usize = 0;
    while j < s.len()
        invariant
            j <= s.len(),
            forall|i: int| 0 <= i < j ==> s@[i].id != id,
        decreases s.len() - j,
    {
        if s[j].id == id {
            return Some(j);
        }
        j += 1;
    }
    None
}

fn find_colony(s: &[FastColony], id: i32) -> (r: Option<usize>)
    ensures
        r matches Some(k) ==> first_colony_at(s@, id, k as int),
        r is None ==> !has_colony(s@, id),
{
    let mut j: usize = 0;
    while j < s.len()
        invariant
            j <= s.len(),
            forall|i: int| 0 <= i < j ==> s@[i].id != id,
        decreases s.len() - j,
    {
        if s[j].id == id {
            return Some(j);
        }
        j += 1;
    }
    None
}

fn find_food(s: &[FastFoodSource], id: i32) -> (r: Option<usize>)
    ensures
        r matches Some(k) ==> first_food_at(s@, id, k as int),
        r is None ==> !has_food(s@, id),
{
    let mut j: usize = 0;
    while j < s.len()
        invariant
            j <= s.len(),
            forall|i: int| 0 <= i < j ==> s@[i].id != id,
        decreases s.len() - j,
    {
        if s[j].id == id {
            return Some(j);
        }
        j += 1;
    }
    None
}

proof fn lemma_first_unique_ant(s: Seq<FastAnt>, id: i32, k1: int, k2: int)
    requires
        first_ant_at(s, id, k1),
        first_ant_at(s, id, k2),
    ensures
        k1 == k2,
{
}

/// The ants of `cur` that changed since `prev`, in the order of `cur`.
pub fn updated_ants(cur: &[FastAnt], prev: &[FastAnt]) -> (r: Vec<FastAnt>)
    ensures
        r@ == cur@.filter(|a: FastAnt| ant_updated(prev@, a)),
{
    let mut out: Vec<FastAnt> = Vec::new();
    let mut i: usize = 0;
    while i < cur.len()
        invariant
            i <= cur.len(),
            out@ == cur@.subrange(0, i as int).filter(|a: FastAnt| ant_updated(prev@, a)),
        decreases cur.len() - i,
    {
        let a = cur[i];
        let changed = match find_ant(prev, a.id) {
            None => true,
            Some(k) => {
                let p = prev[k];
                let d = p.position != a.position || p.state != a.state || p.health != a.health
                    || p.energy != a.energy;
                proof {
                    if !d {
                        assert forall|k2: int| first_ant_at(prev@, a.id, k2) implies !(ant_obs(
                            prev@[k2],
                        ) != ant_obs(a)) by {
                            lemma_first_unique_ant(prev@, a.id, k as int, k2);
                        }
                    } else {
                        assert(ant_obs(prev@[k as int]) != ant_obs(a));
                    }
                }
                d
            },
        };
        assert(changed == ant_updated(prev@, a));
        proof {
            reveal(Seq::filter);
            assert(cur@.subrange(0, i + 1).drop_last() =~= cur@.subrange(0, i as int));
            let s = cur@.subrange(0, i as int).filter(|a: FastAnt| ant_updated(prev@, a));
            assert(cur@.subrange(0, i + 1).filter(|a: FastAnt| ant_updated(prev@, a)) == if changed {
                s.push(a)
            } else {
                s
            });
        }
        if changed {
            out.push(a);
        }
        i += 1;
    }
    assert(cur@.subrange(0, cur.len() as int) =~= cur@);
    out
}

proof fn lemma_first_unique_colony(s: Seq<FastColony>, id: i32, k1: int, k2: int)
    requires
        first_colony_at(s, id, k1),
        first_colony_at(s, id, k2),
    ensures
        k1 == k2,
{
}

/// The colonies of `cur` that changed since `prev`, in the order of `cur`.
pub fn updated_colonies(cur: &[FastColony], prev: &[FastColony]) -> (r: Vec<FastColony>)
    ensures
        r@ == cur@.filter(|c: FastColony| colony_updated(prev@, c)),
{
    let mut out: Vec<FastColony> = Vec::new();
    let mut i: usize = 0;
    while i < cur.len()
        invariant
            i <= cur.len(),
            out@ == cur@.subrange(0, i as int).filter(|c: FastColony| colony_updated(prev@, c)),
        decreases cur.len() - i,
    {
        let c = cur[i];
        let changed = match find_colony(prev, c.id) {
            None => true,
            Some(k) => {
                let p = prev[k];
                let d = p.population != c.population || p.resources != c.resources;
                proof {
                    if !d {
                        assert forall|k2: int| first_colony_at(prev@, c.id, k2) implies !(
                        colony_obs(prev@[k2]) != colony_obs(c)) by {
                            lemma_first_unique_colony(prev@, c.id, k as int, k2);
                        }
                    } else {
                        assert(colony_obs(prev@[k as int]) != colony_obs(c));
                    }
                }
                d
            },
        };
        assert(changed == colony_updated(prev@, c));
        proof {
            reveal(Seq::filter);
            assert(cur@.subrange(0, i + 1).drop_last() =~= cur@.subrange(0, i as int));
            let s = cur@.subrange(0, i as int).filter(|c: FastColony| colony_updated(prev@, c));
            assert(cur@.subrange(0, i + 1).filter(|c: FastColony| colony_updated(prev@, c)) == if changed {
                s.push(c)
            } else {
                s
            });
        }
        if changed {
            out.push(c);
        }
        i += 1;
    }
    assert(cur@.subrange(0, cur.len() as int) =~= cur@);
    out
}

proof fn lemma_first_unique_food(s: Seq<FastFoodSource>, id: i32, k1: int, k2: int)
    requires
        first_food_at(s, id, k1),
        first_food_at(s, id, k2),
    ensures
        k1 == k2,
{
}

/// The food sources of `cur` whose amount changed since `prev`.
pub fn updated_food_sources(cur: &[FastFoodSource], prev: &[FastFoodSource]) -> (r: Vec<
    FastFoodSource,
>)
    ensures
        r@ == cur@.filter(|f: FastFoodSource| food_updated(prev@, f)),
{
    let mut out: Vec<FastFoodSource> = Vec::new();
    let mut i: usize = 0;
    while i < cur.len()
        invariant
            i <= cur.len(),
            out@ == cur@.subrange(0, i as int).filter(|f: FastFoodSource| food_updated(prev@, f)),
        decreases cur.len() - i,
    {
        let f = cur[i];
        let changed = match find_food(prev, f.id) {
            None => true,
            Some(k) => {
                let d = prev[k].amount != f.amount;
                proof {
                    if !d {
                        assert forall|k2: int| first_food_at(prev@, f.id, k2) implies !(
                        prev@[k2].amount != f.amount) by {
                            lemma_first_unique_food(prev@, f.id, k as int, k2);
                        }
                    }
                }
                d
            },
        };
        assert(changed == food_updated(prev@, f));
        proof {
            reveal(Seq::filter);
            assert(cur@.subrange(0, i + 1).drop_last() =~= cur@.subrange(0, i as int));
            let s = cur@.subrange(0, i as int).filter(|f: FastFoodSource| food_updated(prev@, f));
            assert(cur@.subrange(0, i + 1).filter(|f: FastFoodSource| food_updated(prev@, f)) == if changed {
                s.push(f)
            } else {
                s
            });
        }
        if changed {
            out.push(f);
        }
        i += 1;
    }
    assert(cur@.subrange(0, cur.len() as int) =~= cur@);
    out
}

/// The ids of the ants of `prev` that are absent from `cur`.
pub fn removed_ant_ids(prev: &[FastAnt], cur: &[FastAnt]) -> (r: Vec<i32>)
    ensures
        r@ == removed_ants_spec(prev@, cur@),
{
    let mut out: Vec<i32> = Vec::new();
    let mut i: usize = 0;
    while i < prev.len()
        invariant
            i <= prev.len(),
            out@ == removed_ants_spec(prev@.subrange(0, i as int), cur@),
        decreases prev.len() - i,
    {
        let p = prev[i];
        let gone = find_ant(cur, p.id).is_none();
        proof {
            reveal(Seq::filter);
            assert(prev@.subrange(0, i + 1).drop_last() =~= prev@.subrange(0, i as int));
        }
        if gone {
            proof {
                let s = prev@.subrange(0, i as int).filter(|q: FastAnt| !has_ant(cur@, q.id));
                assert(prev@.subrange(0, i + 1).filter(|q: FastAnt| !has_ant(cur@, q.id)) == s.push(p));
                assert(s.push(p).map_values(|q: FastAnt| q.id) =~= s.map_values(|q: FastAnt| q.id).push(
                    p.id,
                ));
            }
            out.push(p.id);
        }
        i += 1;
    }
    assert(prev@.subrange(0, prev.len() as int) =~= prev@);
    out
}

/// The ids of the food sources of `prev` that are absent from `cur`.
pub fn removed_food_source_ids(prev: &[FastFoodSource], cur: &[FastFoodSource]) -> (r: Vec<i32>)
    ensures
        r@ == removed_food_spec(prev@, cur@),
{
    let mut out: Vec<i32> = Vec::new();
    let mut i: usize = 0;
    while i < prev.len()
        invariant
            i <= prev.len(),
            out@ == removed_food_spec(prev@.subrange(0, i as int), cur@),
        decreases prev.len() - i,
    {
        let p = prev[i];
        let gone = find_food(cur, p.id).is_none();
        proof {
            reveal(Seq::filter);
            assert(prev@.subrange(0, i + 1).drop_last() =~= prev@.subrange(0, i as int));
        }
        if gone {
            proof {
                let s = prev@.subrange(0, i as int).filter(|q: FastFoodSource| !has_food(cur@, q.id));
                assert(prev@.subrange(0, i + 1).filter(|q: FastFoodSource| !has_food(cur@, q.id)) == s.push(p));
                assert(s.push(p).map_values(|q: FastFoodSource| q.id) =~= s.map_values(|q: FastFoodSource| q.id).push(
                    p.id,
                ));
            }
            out.push(p.id);
        }
        i += 1;
    }
    assert(prev@.subrange(0, prev.len() as int) =~= prev@);
    out
}

/// The message holds exactly the delta from the `prev_*` records to the `cur_*` ones.
pub open spec fn is_delta(
    m: SimulationMessage,
    simulation_id: i32,
    current_tick: i64,
    cur_ants: Seq<FastAnt>,
    cur_colonies: Seq<FastColony>,
    cur_food: Seq<FastFoodSource>,
    cur_trails: Seq<FastPheromoneTrail>,
    prev_ants: Seq<FastAnt>,
    prev_colonies: Seq<FastColony>,
    prev_food: Seq<FastFoodSource>,
) -> bool {
    match m {
        SimulationMessage::DeltaUpdate {
            simulation_id: sid,
            tick,
            updated_ants,
            updated_colonies,
            updated_food_sources,
            new_pheromone_trails,
            removed_ant_ids,
            removed_food_source_ids,
        } => {
            &&& sid == simulation_id
            &&& tick == current_tick
            &&& updated_ants@ == cur_ants.filter(|a: FastAnt| ant_updated(prev_ants, a))
            &&& updated_colonies@ == cur_colonies.filter(
                |c: FastColony| colony_updated(prev_colonies, c),
            )
            &&& updated_food_sources@ == cur_food.filter(
                |f: FastFoodSource| food_updated(prev_food, f),
            )
            &&& new_pheromone_trails@ == cur_trails
            &&& removed_ant_ids@ == removed_ants_spec(prev_ants, cur_ants)
            &&& removed_food_source_ids@ == removed_food_spec(prev_food, cur_food)
        },
        _ => false,
    }
}

/// The message is a full snapshot of exactly these records.
pub open spec fn is_full_state(
    m: SimulationMessage,
    simulation_id: i32,
    current_tick: i64,
    ants: Seq<FastAnt>,
    colonies: Seq<FastColony>,
    food: Seq<FastFoodSource>,
    trails: Seq<FastPheromoneTrail>,
) -> bool {
    match m {
        SimulationMessage::FullState {
            simulation_id: sid,
            tick,
            ants: a,
            colonies: c,
            food_sources: f,
            pheromone_trails: t,
        } => {
            &&& sid == simulation_id
            &&& tick == current_tick
            &&& a@ == ants
            &&& c@ == colonies
            &&& f@ == food
            &&& t@ == trails
        },
        _ => false,
    }
}

/// The delta between the previous snapshot and the current records: ants whose
/// position, state, health or energy changed, colonies whose population or
/// resources changed, food sources whose amount changed, every live trail, and
/// the ids of ants and food sources that disappeared.
pub fn create_delta_update(
    simulation_id: i32,
    current_tick: i64,
    current_ants: &[FastAnt],
    current_colonies: &[FastColony],
    current_food_sources: &[FastFoodSource],
    current_pheromone_trails: &[FastPheromoneTrail],
    previous_ants: &[FastAnt],
    previous_colonies: &[FastColony],
    previous_food_sources: &[FastFoodSource],
) -> (r: SimulationMessage)
    ensures
        is_delta(
            r,
            simulation_id,
            current_tick,
            current_ants@,
            current_colonies@,
            current_food_sources@,
            current_pheromone_trails@,
            previous_ants@,
            previous_colonies@,
            previous_food_sources@,
        ),
{
    let updated_ants = updated_ants(current_ants, previous_ants);
    let updated_colonies = updated_colonies(current_colonies, previous_colonies);
    let updated_food_sources = updated_food_sources(current_food_sources, previous_food_sources);
    let new_pheromone_trails = vstd::slice::slice_to_vec(current_pheromone_trails);
    let removed_ant_ids = removed_ant_ids(previous_ants, current_ants);
    let removed_food_source_ids = removed_food_source_ids(
        previous_food_sources,
        current_food_sources,
    );
    SimulationMessage::DeltaUpdate {
        simulation_id,
        tick: current_tick,
        updated_ants,
        updated_colonies,
        updated_food_sources,
        new_pheromone_trails,
        removed_ant_ids,
        removed_food_source_ids,
    }
}

/// A full snapshot of the given records.
pub fn create_full_state(
    simulation_id: i32,
    current_tick: i64,
    ants: &[FastAnt],
    colonies: &[FastColony],
    food_sources: &[FastFoodSource],
    pheromone_trails: &[FastPheromoneTrail],
) -> (r: SimulationMessage)
    ensures
        is_full_state(
            r,
            simulation_id,
            current_tick,
            ants@,
            colonies@,
            food_sources@,
            pheromone_trails@,
        ),
{
    SimulationMessage::FullState {
        simulation_id,
        tick: current_tick,
        ants: vstd::slice::slice_to_vec(ants),
        colonies: vstd::slice::slice_to_vec(colonies),
        food_sources: vstd::slice::slice_to_vec(food_sources),
        pheromone_trails: vstd::slice::slice_to_vec(pheromone_trails),
    }
}

/// A status message.
pub fn status_message(simulation_id: i32, is_running: bool, current_tick: i64) -> (r: SimulationMessage)
    ensures
        r == (SimulationMessage::SimulationStatus { simulation_id, is_running, current_tick }),
{
    SimulationMessage::SimulationStatus { simulation_id, is_running, current_tick }
}

/// The records of the last snapshot sent.
pub struct SentSnapshot {
    pub ants: Vec<FastAnt>,
    pub colonies: Vec<FastColony>,
    pub food_sources: Vec<FastFoodSource>,
}

/// Decides, tick by tick, whether viewers get a full snapshot or a delta, and
/// keeps what was sent last.
pub struct Broadcaster {
    simulation_id: i32,
    previous: Option<SentSnapshot>,
    full_requested: bool,
}

impl Broadcaster {
    pub closed spec fn id_view(&self) -> i32 {
        self.simulation_id
    }

    pub closed spec fn previous_view(&self) -> Option<(Seq<FastAnt>, Seq<FastColony>, Seq<FastFoodSource>)> {
        match self.previous {
            Some(p) => Some((p.ants@, p.colonies@, p.food_sources@)),
            None => None,
        }
    }

    pub closed spec fn full_requested_view(&self) -> bool {
        self.full_requested
    }

    /// A broadcaster for one simulation that has sent nothing yet.
    pub fn new(simulation_id: i32) -> (r: Broadcaster)
        ensures
            r.id_view() == simulation_id,
            r.previous_view().is_none(),
            !r.full_requested_view(),
    {
        Broadcaster { simulation_id, previous: None, full_requested: false }
    }

    /// The next message is a full snapshot.
    pub fn request_fullstate(&mut self)
        ensures
            final(self).full_requested_view(),
            final(self).id_view() == old(self).id_view(),
            final(self).previous_view() == old(self).previous_view(),
    {
        self.full_requested = true;
    }

    /// Take in a viewer's message: a subscription or a request for this
    /// simulation asks for a full snapshot at the next tick boundary.
    pub fn handle_client_message(&mut self, m: ClientMessage)
        ensures
            final(self).full_requested_view() == (old(self).full_requested_view() || match m {
                ClientMessage::Subscribe { simulation_id } => simulation_id == old(self).id_view(),
                ClientMessage::RequestFullState { simulation_id } => simulation_id == old(self).id_view(),
            }),
            final(self).id_view() == old(self).id_view(),
            final(self).previous_view() == old(self).previous_view(),
    {
        let sid = match m {
            ClientMessage::Subscribe { simulation_id } => simulation_id,
            ClientMessage::RequestFullState { simulation_id } => simulation_id,
        };
        if sid == self.simulation_id {
            self.full_requested = true;
        }
    }

    /// The message for this tick: a full snapshot when nothing was sent yet or
    /// one was asked for, else the delta from the last snapshot sent. The
    /// current records become the last snapshot sent.
    pub fn next_message(
        &mut self,
        tick: i64,
        ants: &[FastAnt],
        colonies: &[FastColony],
        food_sources: &[FastFoodSource],
        pheromone_trails: &[FastPheromoneTrail],
    ) -> (r: SimulationMessage)
        ensures
            (old(self).previous_view() is None || old(self).full_requested_view()) ==> is_full_state(
                r,
                old(self).id_view(),
                tick,
                ants@,
                colonies@,
                food_sources@,
                pheromone_trails@,
            ),
            (old(self).previous_view() is Some && !old(self).full_requested_view()) ==> is_delta(
                r,
                old(self).id_view(),
                tick,
                ants@,
                colonies@,
                food_sources@,
                pheromone_trails@,
                old(self).previous_view().unwrap().0,
                old(self).previous_view().unwrap().1,
                old(self).previous_view().unwrap().2,
            ),
            final(self).previous_view() == Some((ants@, colonies@, food_sources@)),
            !final(self).full_requested_view(),
            final(self).id_view() == old(self).id_view(),
    {
        let msg = match &self.previous {
            Some(p) => if self.full_requested {
                create_full_state(self.simulation_id, tick, ants, colonies, food_sources, pheromone_trails)
            } else {
                create_delta_update(
                    self.simulation_id,
                    tick,
                    ants,
                    colonies,
                    food_sources,
                    pheromone_trails,
                    p.ants.as_slice(),
                    p.colonies.as_slice(),
                    p.food_sources.as_slice(),
                )
            },
            None => create_full_state(self.simulation_id, tick, ants, colonies, food_sources, pheromone_trails),
        };
        self.previous = Some(SentSnapshot {
            ants: vstd::slice::slice_to_vec(ants),
            colonies: vstd::slice::slice_to_vec(colonies),
            food_sources: vstd::slice::slice_to_vec(food_sources),
        });
        self.full_requested = false;
        msg
    }
}

} // verus!

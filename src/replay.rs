//! How a viewer rebuilds the world from a snapshot and the deltas after it.
use vstd::prelude::*;
use crate::broadcast::{
    ant_obs, ant_updated, colony_obs, colony_updated, first_ant_at, first_colony_at,
    first_food_at, food_updated, has_ant, has_colony, has_food, removed_ants_spec,
    removed_food_spec, AntObs, ColonyObs,
};
use crate::broadcast::{is_delta, is_full_state, SimulationMessage};
use crate::model::{FastAnt, FastColony, FastFoodSource, FastPheromoneTrail};

verus! {

broadcast use vstd::seq_lib::group_filter_ensures;

pub open spec fn unique_ant_ids(s: Seq<FastAnt>) -> bool {
    forall|i: int, j: int| 0 <= i < s.len() && 0 <= j < s.len() && s[i].id == s[j].id ==> i == j
}

pub open spec fn unique_colony_ids(s: Seq<FastColony>) -> bool {
    forall|i: int, j: int| 0 <= i < s.len() && 0 <= j < s.len() && s[i].id == s[j].id ==> i == j
}

pub open spec fn unique_food_ids(s: Seq<FastFoodSource>) -> bool {
    forall|i: int, j: int| 0 <= i < s.len() && 0 <= j < s.len() && s[i].id == s[j].id ==> i == j
}

/// What a viewer knows of the ants of a snapshot, by id.
pub open spec fn ants_view(s: Seq<FastAnt>) -> Map<i32, AntObs> {
    Map::new(
        |id: i32| has_ant(s, id),
        |id: i32| ant_obs(s[choose|k: int| first_ant_at(s, id, k)]),
    )
}

/// What a viewer knows of the colonies of a snapshot, by id.
pub open spec fn colonies_view(s: Seq<FastColony>) -> Map<i32, ColonyObs> {
    Map::new(
        |id: i32| has_colony(s, id),
        |id: i32| colony_obs(s[choose|k: int| first_colony_at(s, id, k)]),
    )
}

/// What a viewer knows of the food sources of a snapshot: their amounts, by id.
pub open spec fn food_view(s: Seq<FastFoodSource>) -> Map<i32, u32> {
    Map::new(
        |id: i32| has_food(s, id),
        |id: i32| s[choose|k: int| first_food_at(s, id, k)].amount,
    )
}

/// A viewer's ants after taking in the updated records and removed ids.
pub open spec fn apply_ants(m: Map<i32, AntObs>, upd: Seq<FastAnt>, removed: Seq<i32>) -> Map<
    i32,
    AntObs,
> {
    Map::new(
        |id: i32| has_ant(upd, id) || (m.contains_key(id) && !removed.contains(id)),
        |id: i32|
            if has_ant(upd, id) {
                ant_obs(upd[choose|k: int| first_ant_at(upd, id, k)])
            } else {
                m[id]
            },
    )
}

/// A viewer's colonies after taking in the updated records.
pub open spec fn apply_colonies(m: Map<i32, ColonyObs>, upd: Seq<FastColony>) -> Map<
    i32,
    ColonyObs,
> {
    Map::new(
        |id: i32| has_colony(upd, id) || m.contains_key(id),
        |id: i32|
            if has_colony(upd, id) {
                colony_obs(upd[choose|k: int| first_colony_at(upd, id, k)])
            } else {
                m[id]
            },
    )
}

/// A viewer's food amounts after taking in the updated records and removed ids.
pub open spec fn apply_food(m: Map<i32, u32>, upd: Seq<FastFoodSource>, removed: Seq<i32>) -> Map<
    i32,
    u32,
> {
    Map::new(
        |id: i32| has_food(upd, id) || (m.contains_key(id) && !removed.contains(id)),
        |id: i32|
            if has_food(upd, id) {
                upd[choose|k: int| first_food_at(upd, id, k)].amount
            } else {
                m[id]
            },
    )
}

proof fn lemma_first_ant(s: Seq<FastAnt>, i: int)
    requires
        unique_ant_ids(s),
        0 <= i < s.len(),
    ensures
        first_ant_at(s, s[i].id, i),
        forall|k: int| first_ant_at(s, s[i].id, k) ==> k == i,
{
}

proof fn lemma_first_colony(s: Seq<FastColony>, i: int)
    requires
        unique_colony_ids(s),
        0 <= i < s.len(),
    ensures
        first_colony_at(s, s[i].id, i),
        forall|k: int| first_colony_at(s, s[i].id, k) ==> k == i,
{
}

proof fn lemma_first_food(s: Seq<FastFoodSource>, i: int)
    requires
        unique_food_ids(s),
        0 <= i < s.len(),
    ensures
        first_food_at(s, s[i].id, i),
        forall|k: int| first_food_at(s, s[i].id, k) ==> k == i,
{
}

proof fn lemma_first_ant_exists(s: Seq<FastAnt>, id: i32)
    requires
        has_ant(s, id),
    ensures
        exists|k: int| first_ant_at(s, id, k),
    decreases s.len(),
{
    if has_ant(s.drop_last(), id) {
        lemma_first_ant_exists(s.drop_last(), id);
        let k = choose|k: int| first_ant_at(s.drop_last(), id, k);
        assert forall|j: int| 0 <= j < k implies s[j].id != id by {
            assert(s.drop_last()[j] == s[j]);
        }
        assert(first_ant_at(s, id, k));
    } else {
        assert forall|j: int| 0 <= j < s.len() - 1 implies s[j].id != id by {
            assert(s.drop_last()[j] == s[j]);
        }
        let w = choose|w: int| 0 <= w < s.len() && s[w].id == id;
        assert(w == s.len() - 1);
        assert(first_ant_at(s, id, s.len() - 1));
    }
}

/// Applying the delta between two snapshots of ants to the first one's view
/// gives the second one's view.
pub proof fn lemma_ant_delta_rebuilds(prev: Seq<FastAnt>, cur: Seq<FastAnt>)
    requires
        unique_ant_ids(prev),
        unique_ant_ids(cur),
    ensures
        apply_ants(
            ants_view(prev),
            cur.filter(|a: FastAnt| ant_updated(prev, a)),
            removed_ants_spec(prev, cur),
        ) == ants_view(cur),
{
    let pred = |a: FastAnt| ant_updated(prev, a);
    let upd = cur.filter(pred);
    let gone = |p: FastAnt| !has_ant(cur, p.id);
    let removed = removed_ants_spec(prev, cur);
    let lhs = apply_ants(ants_view(prev), upd, removed);
    let rhs = ants_view(cur);
    assert forall|id: i32| #[trigger] lhs.contains_key(id) == rhs.contains_key(id) by {
        if has_ant(upd, id) {
            let j = choose|j: int| 0 <= j < upd.len() && upd[j].id == id;
            assert(upd.contains(upd[j]));
            cur.lemma_filter_contains_rev(pred, upd[j]);
        } else if has_ant(cur, id) {
            let k = choose|k: int| 0 <= k < cur.len() && cur[k].id == id;
            lemma_first_ant(cur, k);
            if pred(cur[k]) {
                cur.lemma_filter_contains(pred, k);
                let j = choose|j: int| 0 <= j < upd.len() && upd[j] == cur[k];
                assert(upd[j].id == id);
            }
            lemma_first_ant_exists(prev, id);
            let kp = choose|kp: int| first_ant_at(prev, id, kp);
            assert(ants_view(prev).contains_key(id));
            if removed.contains(id) {
                let r = choose|r: int| 0 <= r < removed.len() && removed[r] == id;
                let fl = prev.filter(gone);
                assert(gone(fl[r]));
            }
        } else {
            if ants_view(prev).contains_key(id) {
                let kp = choose|kp: int| 0 <= kp < prev.len() && prev[kp].id == id;
                prev.lemma_filter_contains(gone, kp);
                let fl = prev.filter(gone);
                let r = choose|r: int| 0 <= r < fl.len() && fl[r] == prev[kp];
                assert(removed[r] == id);
            }
        }
    }
    assert forall|id: i32| #[trigger] lhs.contains_key(id) implies lhs[id] == rhs[id] by {
        let k = choose|k: int| 0 <= k < cur.len() && cur[k].id == id;
        lemma_first_ant(cur, k);
        if has_ant(upd, id) {
            lemma_first_ant_exists(upd, id);
            let j = choose|j: int| first_ant_at(upd, id, j);
            assert(upd.contains(upd[j]));
            cur.lemma_filter_contains_rev(pred, upd[j]);
            let i2 = choose|i2: int| 0 <= i2 < cur.len() && cur[i2] == upd[j];
            lemma_first_ant(cur, i2);
        } else {
            if pred(cur[k]) {
                cur.lemma_filter_contains(pred, k);
                let j = choose|j: int| 0 <= j < upd.len() && upd[j] == cur[k];
                assert(upd[j].id == id);
            }
            lemma_first_ant_exists(prev, id);
            let kp = choose|kp: int| first_ant_at(prev, id, kp);
            lemma_first_ant(prev, kp);
        }
    }
    assert(lhs =~= rhs);
}

proof fn lemma_first_colony_exists(s: Seq<FastColony>, id: i32)
    requires
        has_colony(s, id),
    ensures
        exists|k: int| first_colony_at(s, id, k),
    decreases s.len(),
{
    if has_colony(s.drop_last(), id) {
        lemma_first_colony_exists(s.drop_last(), id);
        let k = choose|k: int| first_colony_at(s.drop_last(), id, k);
        assert forall|j: int| 0 <= j < k implies s[j].id != id by {
            assert(s.drop_last()[j] == s[j]);
        }
        assert(first_colony_at(s, id, k));
    } else {
        assert forall|j: int| 0 <= j < s.len() - 1 implies s[j].id != id by {
            assert(s.drop_last()[j] == s[j]);
        }
        let w = choose|w: int| 0 <= w < s.len() && s[w].id == id;
        assert(w == s.len() - 1);
        assert(first_colony_at(s, id, s.len() - 1));
    }
}

/// Applying the delta between two snapshots of colonies, when no colony
/// disappeared, to the first one's view
/// gives the second one's view.
pub proof fn lemma_colony_delta_rebuilds(prev: Seq<FastColony>, cur: Seq<FastColony>)
    requires
        unique_colony_ids(prev),
        unique_colony_ids(cur),
        forall|id: i32| has_colony(prev, id) ==> has_colony(cur, id),
    ensures
        apply_colonies(colonies_view(prev), cur.filter(|c: FastColony| colony_updated(prev, c)))
            == colonies_view(cur),
{
    let pred = |c: FastColony| colony_updated(prev, c);
    let upd = cur.filter(pred);
    let lhs = apply_colonies(colonies_view(prev), upd);
    let rhs = colonies_view(cur);
    assert forall|id: i32| #[trigger] lhs.contains_key(id) == rhs.contains_key(id) by {
        if has_colony(upd, id) {
            let j = choose|j: int| 0 <= j < upd.len() && upd[j].id == id;
            assert(upd.contains(upd[j]));
            cur.lemma_filter_contains_rev(pred, upd[j]);
        } else if has_colony(cur, id) {
            let k = choose|k: int| 0 <= k < cur.len() && cur[k].id == id;
            lemma_first_colony(cur, k);
            if pred(cur[k]) {
                cur.lemma_filter_contains(pred, k);
                let j = choose|j: int| 0 <= j < upd.len() && upd[j] == cur[k];
                assert(upd[j].id == id);
            }
            lemma_first_colony_exists(prev, id);
            let kp = choose|kp: int| first_colony_at(prev, id, kp);
            assert(colonies_view(prev).contains_key(id));
        }
    }
    assert forall|id: i32| #[trigger] lhs.contains_key(id) implies lhs[id] == rhs[id] by {
        let k = choose|k: int| 0 <= k < cur.len() && cur[k].id == id;
        lemma_first_colony(cur, k);
        if has_colony(upd, id) {
            lemma_first_colony_exists(upd, id);
            let j = choose|j: int| first_colony_at(upd, id, j);
            assert(upd.contains(upd[j]));
            cur.lemma_filter_contains_rev(pred, upd[j]);
            let i2 = choose|i2: int| 0 <= i2 < cur.len() && cur[i2] == upd[j];
            lemma_first_colony(cur, i2);
        } else {
            if pred(cur[k]) {
                cur.lemma_filter_contains(pred, k);
                let j = choose|j: int| 0 <= j < upd.len() && upd[j] == cur[k];
                assert(upd[j].id == id);
            }
            lemma_first_colony_exists(prev, id);
            let kp = choose|kp: int| first_colony_at(prev, id, kp);
            lemma_first_colony(prev, kp);
        }
    }
    assert(lhs =~= rhs);
}

proof fn lemma_first_food_exists(s: Seq<FastFoodSource>, id: i32)
    requires
        has_food(s, id),
    ensures
        exists|k: int| first_food_at(s, id, k),
    decreases s.len(),
{
    if has_food(s.drop_last(), id) {
        lemma_first_food_exists(s.drop_last(), id);
        let k = choose|k: int| first_food_at(s.drop_last(), id, k);
        assert forall|j: int| 0 <= j < k implies s[j].id != id by {
            assert(s.drop_last()[j] == s[j]);
        }
        assert(first_food_at(s, id, k));
    } else {
        assert forall|j: int| 0 <= j < s.len() - 1 implies s[j].id != id by {
            assert(s.drop_last()[j] == s[j]);
        }
        let w = choose|w: int| 0 <= w < s.len() && s[w].id == id;
        assert(w == s.len() - 1);
        assert(first_food_at(s, id, s.len() - 1));
    }
}

/// Applying the delta between two snapshots of food sources to the first one's view
/// gives the second one's view.
pub proof fn lemma_food_delta_rebuilds(prev: Seq<FastFoodSource>, cur: Seq<FastFoodSource>)
    requires
        unique_food_ids(prev),
        unique_food_ids(cur),
    ensures
        apply_food(
            food_view(prev),
            cur.filter(|f: FastFoodSource| food_updated(prev, f)),
            removed_food_spec(prev, cur),
        ) == food_view(cur),
{
    let pred = |f: FastFoodSource| food_updated(prev, f);
    let upd = cur.filter(pred);
    let gone = |p: FastFoodSource| !has_food(cur, p.id);
    let removed = removed_food_spec(prev, cur);
    let lhs = apply_food(food_view(prev), upd, removed);
    let rhs = food_view(cur);
    assert forall|id: i32| #[trigger] lhs.contains_key(id) == rhs.contains_key(id) by {
        if has_food(upd, id) {
            let j = choose|j: int| 0 <= j < upd.len() && upd[j].id == id;
            assert(upd.contains(upd[j]));
            cur.lemma_filter_contains_rev(pred, upd[j]);
        } else if has_food(cur, id) {
            let k = choose|k: int| 0 <= k < cur.len() && cur[k].id == id;
            lemma_first_food(cur, k);
            if pred(cur[k]) {
                cur.lemma_filter_contains(pred, k);
                let j = choose|j: int| 0 <= j < upd.len() && upd[j] == cur[k];
                assert(upd[j].id == id);
            }
            lemma_first_food_exists(prev, id);
            let kp = choose|kp: int| first_food_at(prev, id, kp);
            assert(food_view(prev).contains_key(id));
            if removed.contains(id) {
                let r = choose|r: int| 0 <= r < removed.len() && removed[r] == id;
                let fl = prev.filter(gone);
                assert(gone(fl[r]));
            }
        } else {
            if food_view(prev).contains_key(id) {
                let kp = choose|kp: int| 0 <= kp < prev.len() && prev[kp].id == id;
                prev.lemma_filter_contains(gone, kp);
                let fl = prev.filter(gone);
                let r = choose|r: int| 0 <= r < fl.len() && fl[r] == prev[kp];
                assert(removed[r] == id);
            }
        }
    }
    assert forall|id: i32| #[trigger] lhs.contains_key(id) implies lhs[id] == rhs[id] by {
        let k = choose|k: int| 0 <= k < cur.len() && cur[k].id == id;
        lemma_first_food(cur, k);
        if has_food(upd, id) {
            lemma_first_food_exists(upd, id);
            let j = choose|j: int| first_food_at(upd, id, j);
            assert(upd.contains(upd[j]));
            cur.lemma_filter_contains_rev(pred, upd[j]);
            let i2 = choose|i2: int| 0 <= i2 < cur.len() && cur[i2] == upd[j];
            lemma_first_food(cur, i2);
        } else {
            if pred(cur[k]) {
                cur.lemma_filter_contains(pred, k);
                let j = choose|j: int| 0 <= j < upd.len() && upd[j] == cur[k];
                assert(upd[j].id == id);
            }
            lemma_first_food_exists(prev, id);
            let kp = choose|kp: int| first_food_at(prev, id, kp);
            lemma_first_food(prev, kp);
        }
    }
    assert(lhs =~= rhs);
}

/// What a viewer holds: ants, colonies and food amounts by id, and the live trails.
pub type ViewerState = (Map<i32, AntObs>, Map<i32, ColonyObs>, Map<i32, u32>, Seq<FastPheromoneTrail>);

/// The records of one tick: ants, colonies, food sources and trails.
pub type Snapshot = (Seq<FastAnt>, Seq<FastColony>, Seq<FastFoodSource>, Seq<FastPheromoneTrail>);

pub open spec fn snapshot_view(s: Snapshot) -> ViewerState {
    (ants_view(s.0), colonies_view(s.1), food_view(s.2), s.3)
}

pub open spec fn snapshot_wf(s: Snapshot) -> bool {
    unique_ant_ids(s.0) && unique_colony_ids(s.1) && unique_food_ids(s.2)
}

/// No colony of `prev` is missing from `cur`.
pub open spec fn keeps_colonies(prev: Snapshot, cur: Snapshot) -> bool {
    forall|id: i32| has_colony(prev.1, id) ==> has_colony(cur.1, id)
}

pub open spec fn empty_view() -> ViewerState {
    (Map::empty(), Map::empty(), Map::empty(), Seq::empty())
}

/// A viewer's state after it takes in one message.
pub open spec fn apply_message(v: ViewerState, m: SimulationMessage) -> ViewerState {
    match m {
        SimulationMessage::FullState { ants, colonies, food_sources, pheromone_trails, .. } => {
            snapshot_view((ants@, colonies@, food_sources@, pheromone_trails@))
        },
        SimulationMessage::DeltaUpdate {
            updated_ants,
            updated_colonies,
            updated_food_sources,
            new_pheromone_trails,
            removed_ant_ids,
            removed_food_source_ids,
            ..
        } => (
            apply_ants(v.0, updated_ants@, removed_ant_ids@),
            apply_colonies(v.1, updated_colonies@),
            apply_food(v.2, updated_food_sources@, removed_food_source_ids@),
            new_pheromone_trails@,
        ),
        _ => v,
    }
}

/// A viewer's state after it takes in the messages in order, from nothing.
pub open spec fn replay(ms: Seq<SimulationMessage>) -> ViewerState
    decreases ms.len(),
{
    if ms.len() == 0 {
        empty_view()
    } else {
        apply_message(replay(ms.drop_last()), ms.last())
    }
}

pub open spec fn is_delta_between(m: SimulationMessage, prev: Snapshot, cur: Snapshot) -> bool {
    exists|sid: i32, tick: i64| is_delta(m, sid, tick, cur.0, cur.1, cur.2, cur.3, prev.0, prev.1, prev.2)
}

pub open spec fn is_full_of(m: SimulationMessage, s: Snapshot) -> bool {
    exists|sid: i32, tick: i64| is_full_state(m, sid, tick, s.0, s.1, s.2, s.3)
}

/// A viewer that held the view of one snapshot and takes in the delta from it to
/// the next holds the view of the next: the same as a fresh full snapshot would
/// give. Colonies are never reported as removed, so none may disappear.
pub proof fn lemma_delta_correct(prev: Snapshot, cur: Snapshot, m: SimulationMessage)
    requires
        snapshot_wf(prev),
        snapshot_wf(cur),
        keeps_colonies(prev, cur),
        is_delta_between(m, prev, cur),
    ensures
        apply_message(snapshot_view(prev), m) == snapshot_view(cur),
{
    lemma_ant_delta_rebuilds(prev.0, cur.0);
    lemma_colony_delta_rebuilds(prev.1, cur.1);
    lemma_food_delta_rebuilds(prev.2, cur.2);
}

/// A full snapshot gives a viewer exactly that snapshot's view, whatever it held.
pub proof fn lemma_full_state_resets(v: ViewerState, s: Snapshot, m: SimulationMessage)
    requires
        is_full_of(m, s),
    ensures
        apply_message(v, m) == snapshot_view(s),
{
}

/// A viewer that takes in, in order, a full snapshot of the first tick and then
/// the delta (or a full snapshot) of each following tick holds, after each
/// message, the view of that tick's snapshot.
pub proof fn lemma_broadcast_complete(snaps: Seq<Snapshot>, ms: Seq<SimulationMessage>, i: int)
    requires
        snaps.len() == ms.len(),
        0 <= i < ms.len(),
        forall|j: int| 0 <= j < snaps.len() ==> snapshot_wf(#[trigger] snaps[j]),
        is_full_of(ms[0], snaps[0]),
        forall|j: int|
            0 < j < ms.len() ==> (is_full_of(#[trigger] ms[j], snaps[j]) || (is_delta_between(
                ms[j],
                snaps[j - 1],
                snaps[j],
            ) && keeps_colonies(snaps[j - 1], snaps[j]))),
    ensures
        replay(ms.subrange(0, i + 1)) == snapshot_view(snaps[i]),
    decreases i,
{
    let pre = ms.subrange(0, i + 1);
    assert(pre.drop_last() =~= ms.subrange(0, i));
    assert(pre.last() == ms[i]);
    if i == 0 {
        lemma_full_state_resets(replay(pre.drop_last()), snaps[0], ms[0]);
    } else {
        lemma_broadcast_complete(snaps, ms, i - 1);
        if is_full_of(ms[i], snaps[i]) {
            lemma_full_state_resets(replay(pre.drop_last()), snaps[i], ms[i]);
        } else {
            lemma_delta_correct(snaps[i - 1], snaps[i], ms[i]);
        }
    }
}

} // verus!

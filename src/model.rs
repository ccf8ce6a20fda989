//! The entities of the world and their well-formedness.
use vstd::prelude::*;
use crate::geometry::{is_heading, Point, WorldBounds, MAX_EXTENT, SCALE};

verus! {

/// Lifecycle state of an ant. `Dead` is absorbing.
#[derive(Clone, Copy, Debug, PartialEq, Eq, Structural)]
pub enum AntState {
    Wandering,
    SeekingFood,
    CarryingFood,
    Following,
    Exploring,
    Patrolling,
    Dead,
}

/// The functional class of an ant, which selects its policy constants.
#[derive(Clone, Copy, Debug, PartialEq, Eq, Structural)]
pub enum Role {
    Worker,
    Scout,
    Soldier,
    Queen,
}

/// The kinds of pheromone trail.
#[derive(Clone, Copy, Debug, PartialEq, Eq, Structural)]
pub enum PheromoneType {
    Food,
    Home,
    Exploration,
    Danger,
    Territory,
    Recruitment,
    Nest,
    Water,
    Enemy,
    Quality,
    Distance,
}

/// The kinds of food a source can hold.
#[derive(Clone, Copy, Debug, PartialEq, Eq, Structural)]
pub enum FoodKind {
    Berries,
    Leaves,
    Seeds,
    Nuts,
}

/// What an ant is heading for.
#[derive(Clone, Copy, Debug, PartialEq, Eq, Structural)]
pub enum AntTarget {
    Food(i32),
    Colony(i32),
    Position(Point),
    Unset,
}

/// Amounts of each resource kind, as held by a colony or carried by an ant.
#[derive(Clone, Copy, Debug, PartialEq, Eq, Structural)]
pub struct Resources {
    pub food: u32,
    pub seeds: u32,
    pub sugar: u32,
    pub protein: u32,
}

impl Resources {
    pub open spec fn total(self) -> int {
        self.food + self.seeds + self.sugar + self.protein
    }

    pub open spec fn is_empty(self) -> bool {
        self.total() == 0
    }

    pub open spec fn empty() -> Resources {
        Resources { food: 0, seeds: 0, sugar: 0, protein: 0 }
    }

    /// No resources.
    pub fn none() -> (r: Resources)
        ensures
            r == Resources::empty(),
            r.total() == 0,
    {
        Resources { food: 0, seeds: 0, sugar: 0, protein: 0 }
    }

    /// The sum of all amounts.
    pub fn sum(&self) -> (r: u64)
        ensures
            r == self.total(),
    {
        self.food as u64 + self.seeds as u64 + self.sugar as u64 + self.protein as u64
    }
}

/// The per-tick parameters of an ant's role.
#[derive(Clone, Copy, Debug, PartialEq, Eq, Structural)]
pub struct AntType {
    pub id: i32,
    pub role: Role,
    /// Position units per tick.
    pub base_speed: i64,
    pub carrying_capacity: u32,
    pub lifespan_ticks: i64,
}

impl AntType {
    pub open spec fn wf(self) -> bool {
        0 <= self.base_speed <= MAX_EXTENT && self.lifespan_ticks >= 0
    }
}

/// An ant.
#[derive(Clone, Copy, Debug, PartialEq, Eq, Structural)]
pub struct FastAnt {
    pub id: i32,
    pub colony_id: i32,
    pub ant_type_id: i32,
    pub role: Role,
    pub position: Point,
    /// Heading in ten-thousandths of a radian, in `[0, TURN)`.
    pub angle: u32,
    /// Position units per tick.
    pub speed: i64,
    pub health: i32,
    pub energy: i32,
    pub age_ticks: i64,
    pub state: AntState,
    pub target: AntTarget,
    pub carried: Resources,
    pub last_action_tick: i64,
    pub last_food_source: Option<i32>,
}

impl FastAnt {
    pub open spec fn wf(self, bounds: WorldBounds) -> bool {
        &&& bounds.contains(self.position)
        &&& is_heading(self.angle as int)
        &&& 0 <= self.speed <= MAX_EXTENT
        &&& self.energy >= 0
        &&& self.age_ticks >= 0
        &&& (self.state == AntState::CarryingFood ==> !self.carried.is_empty())
    }
}

/// A colony.
#[derive(Clone, Copy, Debug, PartialEq, Eq, Structural)]
pub struct FastColony {
    pub id: i32,
    pub center: Point,
    pub radius: i64,
    pub population: i32,
    pub max_population: i32,
    pub resources: Resources,
    pub territory_radius: i64,
    /// Aggression in ten-thousandths.
    pub aggression: u32,
    /// Tenths of a resource unit owed by the population and not yet drawn.
    pub hunger_tenths: u32,
}

impl FastColony {
    pub open spec fn wf(self, bounds: WorldBounds) -> bool {
        &&& bounds.contains(self.center)
        &&& 0 <= self.radius <= MAX_EXTENT
        &&& 0 <= self.population
        &&& self.hunger_tenths < 10
    }
}

/// A food source.
#[derive(Clone, Copy, Debug, PartialEq, Eq, Structural)]
pub struct FastFoodSource {
    pub id: i32,
    pub position: Point,
    pub food_type: FoodKind,
    pub amount: u32,
    pub max_amount: u32,
    pub regeneration_rate: u32,
    pub is_renewable: bool,
    pub nutritional_value: u32,
    pub spoilage_rate: u32,
}

impl FastFoodSource {
    pub open spec fn wf(self, bounds: WorldBounds) -> bool {
        &&& bounds.contains(self.position)
        &&& self.amount <= self.max_amount
    }
}

/// A pheromone trail. Strengths are in millionths of a unit, quality in
/// ten-thousandths.
#[derive(Clone, Copy, Debug, PartialEq, Eq, Structural)]
pub struct FastPheromoneTrail {
    pub id: i32,
    pub colony_id: i32,
    pub trail_type: PheromoneType,
    pub position: Point,
    pub strength: u32,
    pub max_strength: u32,
    /// Loss of strength per tick, in millionths of the current strength.
    pub decay_rate: u32,
    pub expires_at: i64,
    pub target_food: Option<i32>,
    pub source_ant: i32,
    pub age: u32,
    pub reinforcement_count: u32,
    pub quality: u32,
    pub direction: Option<u32>,
    pub consolidated: bool,
}

impl FastPheromoneTrail {
    pub open spec fn wf(self, bounds: WorldBounds) -> bool {
        &&& bounds.contains(self.position)
        &&& self.strength <= self.max_strength
        &&& self.quality <= SCALE
        &&& self.decay_rate <= 1_000_000
        &&& (self.direction matches Some(d) ==> is_heading(d as int))
    }
}

} // verus!

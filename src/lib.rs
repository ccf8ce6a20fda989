//! An ant-colony ecosystem engine on fixed-point integers: agents, colonies,
//! food sources and pheromone trails in a bounded world, advanced tick by tick.

pub mod behavior;
pub mod cache;
pub mod broadcast;
pub mod colony;
pub mod engine;
pub mod environment;
pub mod geometry;
pub mod model;
pub mod motion;
pub mod persistence;
pub mod pheromone;
pub mod random;
pub mod replay;
pub mod server;
pub mod steering;
pub mod tick;

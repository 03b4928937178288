//! The scheduler of a colony of agents in a partitioned world that is rebuilt every tick:
//! resource providers and their scores, per-agent task state machines, the requests that
//! regions make for new agents, and the region controllers that make them.

pub mod fetch;
pub mod fulfillment;
pub mod jobs;
pub mod provider;
pub mod races;
pub mod region;
pub mod requests;
pub mod room_state;
pub mod rooms;
pub mod state;
pub mod supplies;
pub mod tasks;
pub mod world;

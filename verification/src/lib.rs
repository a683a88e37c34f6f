//! Core of a StarCraft II bot: what the bot knows of the world after each
//! observation, and the orders it batches for the next one.
pub mod action;
pub mod bot;
pub mod burial;
pub mod cache;
pub mod census;
pub mod classify;
pub mod counter;
pub mod cluster_laws;
pub mod container;
pub mod dbscan;
pub mod events;
pub mod expansion;
pub mod game_data;
pub mod game_state;
pub mod geometry;
pub mod ids;
pub mod motion;
pub mod order;
pub mod orders;
pub mod picks;
pub mod placement;
pub mod ramp;
pub mod site_laws;
pub mod step_laws;
pub mod store;
pub mod survey;
pub mod tactics;
pub mod tags;
pub mod unit;
pub mod units;
pub mod upkeep;
pub mod weapons;

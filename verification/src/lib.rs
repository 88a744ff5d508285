//! A verified in-process record store with a handful of small verified
//! companion modules.
//!
//! The centrepiece is a users store: records carry a store-assigned unique
//! id and a validated payload, and the store exposes list / find / create /
//! update / delete behind one capability trait whose contracts pin down the
//! result of every operation, including the exact error returned on every
//! rejected input.

pub mod basic;
pub mod common;
pub mod compose;
pub mod configs;
pub mod consume;
pub mod decimal;
pub mod error_type;
pub mod game_map;
pub mod generics;
pub mod hello;
pub mod model;
pub mod persons;
pub mod pets;
pub mod services;
pub mod validation;

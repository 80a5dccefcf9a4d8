//! The verified core of a fixed-timestep projectile simulator.
//!
//! The simulator moves rigid bodies under aerodynamic forces and records how
//! they fare, entity by entity and table by table, until the simulated time
//! exceeds the configured duration. This library holds what can be decided
//! without computing with real numbers:
//!
//! - [`timer`]: the world clock and the terminal condition of a run;
//! - [`table`], [`name_map`], [`records`]: telemetry tables, append-only and
//!   typed by column, and the record of named tables that an entity keeps;
//! - [`recorders`] and [`models`]: the recordable behaviours and the rows that
//!   they write;
//! - [`lifecycle`] and [`tick_laws`]: the tick that turns a pending entity
//!   into a recording one, appends one row per behaviour, and hands the
//!   aggregate out once, on the tick that ends the run;
//! - [`fire_control`]: which gun executes which fire mission;
//! - [`entity_builder`], [`simulation_builder`], [`geometry_parsing`]: the
//!   scene that a run starts from, with invalid input refused before any time
//!   elapses;
//! - [`kinematics`] and [`aerodynamics`]: the values that cross the boundary
//!   to the integrator, the reset of the force accumulators, and the
//!   edge-case policy of the force model.
//!
//! Real numbers never enter this crate as machine numbers. A
//! [`kinematics::Real`] carries the encoding of a single-precision value;
//! arithmetic on such values is left to the integrator and to the force model
//! that surround this library. Times are whole nanoseconds.

pub mod aerodynamics;
pub mod entity_builder;
pub mod fire_control;
pub mod geometry_parsing;
pub mod kinematics;
pub mod lifecycle;
pub mod models;
pub mod name_map;
pub mod naming;
pub mod recorders;
pub mod records;
pub mod simulation_builder;
pub mod table;
pub mod tick_laws;
pub mod timer;

//! The components that an entity can carry besides its kinematic state.

pub mod drag;
pub mod gun;
pub mod test_model;
pub mod warhead;

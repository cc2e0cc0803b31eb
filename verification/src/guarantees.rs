//! What the operations of the library guarantee, told of what they are given and what they give
//! back.
pub mod activations;
pub mod bindings;
pub mod constructions;
pub mod definitions;
pub mod executions;
pub mod loading;
pub mod names;
pub mod objects;
pub mod readiness;
pub mod results;

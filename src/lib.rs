//! A controller that applies ResourcePatch objects to their target objects:
//! kind discovery, target resolution, patch conversion and the decisions of
//! the polling loop, each with its contract.

pub mod convert;
pub mod discovery;
pub mod kinds;
pub mod model;
pub mod schedule;
pub mod text;
pub mod worker;

//! Checks, for a 96-vertex graph called the Atlas, that five categorical
//! constructions reproduce the root counts of the exceptional Lie groups
//! G2, F4, E6, E7 and E8 (12, 48, 72, 126 and 240 roots).
use vstd::prelude::*;

pub mod atlas;
pub mod categorical;
pub mod decimal;
pub mod theorems;

pub use categorical::{CategoricalOperation, OperationResult};
pub use atlas::{Atlas, AtlasView};


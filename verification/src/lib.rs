use vstd::prelude::*;

pub mod compare;
pub mod input;
pub mod instances;
pub mod state;

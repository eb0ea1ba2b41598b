use vstd::prelude::*;

pub mod identity;
pub mod laws;
pub mod ledger;
pub mod model;
pub mod registry;

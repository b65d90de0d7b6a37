//! Verified core of a desktop assistant for iterative code development with diff review.
#![allow(unused_imports)]

use vstd::prelude::*;

pub mod agent;
pub mod bindings;
pub mod config;
pub mod evals;
pub mod git;
pub mod template;
pub mod text;
pub mod text_map;
pub mod text_order;

verus! {
}

//! Decision logic of a market gauge that packs four price-change percentages
//! into a rotation and scores it.
//!
//! - `signal`: the closed sets of current and forecast signals, and the rules,
//!   in their order of precedence, that pick one from the outcomes of a tick's
//!   threshold tests; a tick with a non-positive volume is rejected.
//! - `acquisition`: which answers of the market-data service are refused, and why.
//! - `state`: the single value carried from one tick to the next.
use vstd::prelude::*;

pub mod acquisition;
pub mod signal;
pub mod state;

verus! {

} // verus!

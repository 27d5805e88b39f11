//! A push-based reactive signal-wiring engine.
//!
//! Typed event channels connect transmitters (broadcast endpoints) to
//! receivers (subscription endpoints) through a small algebra of
//! combinators: map, filter-map, fold over private state, and fold over a
//! shared state cell.  Delivery is single-threaded, synchronous and
//! depth-first, with a deterministic order given by subscription order.
//! The whole engine is modelled by a mathematical interpreter over ghost
//! state, and every operation is proved equal to that model.

pub mod engine;
pub mod label;
pub mod laws;
pub mod todo;
pub mod todo_list;
pub mod transform;
pub mod value;
pub mod wiring;

use vstd::prelude::*;

verus! {

/// The depth budget for nested, re-entrant broadcasts.  A `send` runs all
/// downstream deliveries on the caller's stack; delivery deeper than this
/// budget is cut off, and the contracts state the cut-off exactly (the
/// budget is part of the model).  Cyclic wiring, which would otherwise
/// recurse forever, is a fatal wiring error by design; an acyclic chain
/// of more than this many forwarding hops is cut off the same way, a
/// depth the graphs of this application never approach.
pub const SEND_DEPTH: u64 = 64;

} // verus!

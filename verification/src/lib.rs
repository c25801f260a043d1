//! A persistent proposal ledger with vote tallying.
//!
//! Proposals live in a durable ordered map keyed by `u64`. Callers create
//! proposals, cast at most one vote each from a set of mutually exclusive
//! choices, and query a derived outcome once enough votes have accumulated.

use vstd::prelude::*;
use vstd::string::StringExecFns;

pub mod codec;
pub mod engine;
pub mod identity;
pub mod laws;
pub mod proposal;
pub mod store;

pub use engine::ProposalStore;
pub use identity::Identity;
pub use proposal::{Proposal, ProposalModel, Status, VoteChoice, VoteError};

verus! {

/// Greets the caller by name.
pub fn greet(name: String) -> (r: String)
    ensures
        r@ == "Hello, "@ + name@ + "!"@,
{
    let out = "Hello, ".to_owned();
    out.concat(name.as_str()).concat("!")
}

} // verus!

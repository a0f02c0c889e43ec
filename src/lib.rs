//! A registry of proposals on which each identity may cast one yes/no vote.
//! Contracts speak of the abstract values in `proposal::ProposalModel` and
//! `registry::RegistryModel`; `laws` states what holds across calls.

pub mod laws;
pub mod proposal;
pub mod registry;

pub use proposal::{Proposal, ProposalId};
pub use registry::{ProposalRegistry, VoteError};

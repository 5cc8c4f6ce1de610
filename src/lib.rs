use vstd::prelude::*;

pub mod amount;
pub mod api;
pub mod entitlement;
pub mod error;
pub mod ledger;
pub mod payment;
pub mod plan;
pub mod quota;
pub mod text;
pub mod upload;
pub mod webhook;

verus! {

} // verus!

//! The six operations on the accounts of one envelope: create, claim and
//! delete, for a pool of native currency and for a pool of tokens.
//!
//! Each takes the accounts it works on as plain values, changes them as the
//! operation does, and returns what the caller has to move outside the
//! escrow. A failed operation changes nothing.
pub mod claim_sol_lifafa;
pub mod claim_spl_lifafa;
pub mod create_sol_lifafa;
pub mod create_spl_lifafa;
pub mod delete_sol_lifafa;
pub mod delete_spl_lifafa;

pub use claim_sol_lifafa::{claim_sol_lifafa, ClaimSolLifafa};
pub use claim_spl_lifafa::{claim_spl_lifafa, ClaimSplLifafa};
pub use create_sol_lifafa::{create_sol_lifafa, CreateSolLifafa};
pub use create_spl_lifafa::{create_spl_lifafa, CreateSplLifafa};
pub use delete_sol_lifafa::{delete_sol_lifafa, DeleteSolLifafa};
pub use delete_spl_lifafa::{delete_spl_lifafa, DeleteSplLifafa};

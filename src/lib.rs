//! A store for one profile record, kept in memory and mirrored to a backing
//! file as pretty-printed JSON, with the request handling that guards its
//! changes behind a shared secret.
use vstd::prelude::*;

pub mod gate;
pub mod json;
pub mod profile;
pub mod store;

pub use gate::{FileOp, Reply, Request, authorized, handle, read_reply};
pub use profile::Profile;
pub use store::ProfileManager;

verus! {

} // verus!

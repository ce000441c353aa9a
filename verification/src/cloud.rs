//! Cloud builders.
use vstd::prelude::*;

verus! {

/// What a build leaves to clean up when it ends.
#[derive(Debug)]
pub enum BuildCleanupData {
    /// Nothing to clean up.
    Server,
    /// The connection to Periphery.
    Url,
    /// The cloud instance.
    Aws { instance_id: String, region: String },
}

} // verus!

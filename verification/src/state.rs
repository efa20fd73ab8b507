//! What every request handler works on: the store and the configuration.

use vstd::prelude::*;
use crate::config::Config;
use crate::store::Store;

verus! {

/// The state shared by the request handlers.
pub struct AppState {
    pub store: Store,
    pub config: Config,
}

} // verus!

//! How the process was started, for the surrounding application to pick a
//! front end.
use vstd::prelude::*;

verus! {

/// Where the launch came from.
pub enum LaunchLocation {
    Terminal,
    UserClick,
}

} // verus!

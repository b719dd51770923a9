//! Service configuration.

use vstd::prelude::*;

verus! {

/// Where the surrounding service listens.  Read from a configuration
/// file by the surrounding program; this core only carries the values.
pub struct Config {
    pub host: String,
    pub port: u16,
}

} // verus!

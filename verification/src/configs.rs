//! The aggregate owning all three driver stores: one value standing in for
//! the process-wide configuration state, threaded explicitly through
//! callers.

use vstd::prelude::*;

use crate::console_config::ConsoleConfig;
use crate::keyboard_config::KeyboardConfig;
use crate::store::{ConfigRecord, ConfigStore};
use crate::timer_config::TimerConfig;

verus! {

/// The three driver configuration stores.  Each driver's store is fully
/// independent of the others': every operation of this library names the
/// one store it touches and leaves the other two exactly as they were.
///
/// The aggregate performs no synchronization of its own; a caller that
/// shares it across execution contexts must establish exclusive access
/// around each mutating operation.
pub struct DriverConfigs {
    /// The console driver's store.
    pub console: ConfigStore<ConsoleConfig>,
    /// The keyboard driver's store.
    pub keyboard: ConfigStore<KeyboardConfig>,
    /// The timer driver's store.
    pub timer: ConfigStore<TimerConfig>,
}

impl DriverConfigs {
    /// Every store starts out holding its driver's compiled-in default.
    pub fn new() -> (c: DriverConfigs)
        ensures
            c.console@ == ConsoleConfig::spec_default(),
            c.keyboard@ == KeyboardConfig::spec_default(),
            c.timer@ == TimerConfig::spec_default(),
    {
        DriverConfigs {
            console: ConfigStore::new(),
            keyboard: ConfigStore::new(),
            timer: ConfigStore::new(),
        }
    }
}

} // verus!

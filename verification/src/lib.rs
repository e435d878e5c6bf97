//! Driver configuration library.
//!
//! Each driver (console, keyboard, timer) owns one plain configuration
//! record with a compiled-in default.  A uniform four-operation pattern —
//! get, set, reset, get_default — reads and overwrites the record held in
//! a per-driver store.  Reads and writes take an `Option` so that an absent
//! argument is a silent no-op, and every operation is total: no validation,
//! no error path.  The stores live in an explicitly passed [`configs::DriverConfigs`]
//! value; callers that share it across execution contexts must provide
//! their own mutual exclusion.

pub mod configs;
pub mod console_config;
pub mod keyboard_config;
pub mod store;
pub mod timer_config;

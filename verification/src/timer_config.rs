//! Timer driver configuration: programmable-interval-timer interrupt
//! frequency and enabled state.

use vstd::prelude::*;

use crate::configs::DriverConfigs;
use crate::store::{ConfigRecord, ConfigStore, updated_record, written_record};

verus! {

/// Timer driver configuration record.
///
/// Field order and widths are part of the interface: external collaborators
/// read the record as a plain aggregate of sized scalars.  The enabled
/// field follows the non-zero-is-true convention; no operation of this
/// library validates it.
#[derive(Clone, Copy, PartialEq, Eq, Structural, Debug)]
pub struct TimerConfig {
    /// Desired timer interrupt frequency in Hz.
    pub frequency_hz: u32,
    /// Base oscillator frequency in Hz: a fixed hardware value, kept in
    /// the record for readers that derive divisors from it.
    pub base_frequency: u32,
    /// Non-zero to enable the timer interrupt.
    pub enabled: u8,
}

impl TimerConfig {
    /// The compiled-in default: 100 Hz interrupts from the 1 193 182 Hz
    /// oscillator, timer enabled.
    pub open spec fn spec_default() -> TimerConfig {
        TimerConfig { frequency_hz: 100, base_frequency: 1193182, enabled: 1 }
    }

    /// Default configuration: 100 Hz interrupts, timer enabled.
    pub fn default() -> (r: TimerConfig)
        ensures
            r == TimerConfig::spec_default(),
    {
        TimerConfig { frequency_hz: 100, base_frequency: 1193182, enabled: 1 }
    }
}

impl ConfigRecord for TimerConfig {
    open spec fn default_spec() -> TimerConfig {
        TimerConfig::spec_default()
    }

    fn default_record() -> (r: TimerConfig) {
        TimerConfig::default()
    }
}

/// Copies the current timer configuration into `dst`.
/// Does nothing when `dst` is absent.  Never mutates any store.
pub fn timer_config_get(configs: &DriverConfigs, dst: &mut Option<TimerConfig>)
    ensures
        *final(dst) == written_record(configs.timer@, *old(dst)),
{
    configs.timer.get(dst);
}

/// Replaces the current timer configuration with the record in `src`.
/// Does nothing when `src` is absent.  The console and keyboard stores are
/// untouched either way.
pub fn timer_config_set(configs: &mut DriverConfigs, src: Option<TimerConfig>)
    ensures
        final(configs).timer@ == updated_record(old(configs).timer@, src),
        final(configs).console@ == old(configs).console@,
        final(configs).keyboard@ == old(configs).keyboard@,
{
    configs.timer.set(src);
}

/// Resets the timer configuration to the compiled-in default.  The console
/// and keyboard stores are untouched.
pub fn timer_config_reset(configs: &mut DriverConfigs)
    ensures
        final(configs).timer@ == TimerConfig::spec_default(),
        final(configs).console@ == old(configs).console@,
        final(configs).keyboard@ == old(configs).keyboard@,
{
    configs.timer.reset();
}

/// Copies the compiled-in default timer configuration into `dst` without
/// touching any store.  Does nothing when `dst` is absent.
pub fn timer_config_get_default(dst: &mut Option<TimerConfig>)
    ensures
        *final(dst) == written_record(TimerConfig::spec_default(), *old(dst)),
{
    ConfigStore::<TimerConfig>::get_default(dst);
}

} // verus!

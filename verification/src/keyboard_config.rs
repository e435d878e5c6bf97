//! Keyboard driver configuration: layout selection, key-repeat timing,
//! initial caps-lock state, and input buffer capacity.

use vstd::prelude::*;

use crate::configs::DriverConfigs;
use crate::store::{ConfigRecord, ConfigStore, updated_record, written_record};

verus! {

/// Supported keyboard layouts.  The raw value stored in a record for each
/// layout comes from [`KeyboardLayout::code`].
#[derive(Clone, Copy, PartialEq, Eq, Structural, Debug)]
pub enum KeyboardLayout {
    QwertyUs,
    QwertyUk,
    Azerty,
    Qwertz,
}

impl KeyboardLayout {
    /// The raw configuration value of this layout.
    pub open spec fn spec_code(self) -> u8 {
        match self {
            KeyboardLayout::QwertyUs => 0,
            KeyboardLayout::QwertyUk => 1,
            KeyboardLayout::Azerty => 2,
            KeyboardLayout::Qwertz => 3,
        }
    }

    /// The raw configuration value of this layout.
    pub fn code(self) -> (r: u8)
        ensures
            r == self.spec_code(),
    {
        match self {
            KeyboardLayout::QwertyUs => 0,
            KeyboardLayout::QwertyUk => 1,
            KeyboardLayout::Azerty => 2,
            KeyboardLayout::Qwertz => 3,
        }
    }
}

/// Keyboard driver configuration record.
///
/// Field order and widths are part of the interface: external collaborators
/// read the record as a plain aggregate of sized scalars.  The layout field
/// holds a raw value and flag fields follow the non-zero-is-true
/// convention; no operation of this library validates either.
#[derive(Clone, Copy, PartialEq, Eq, Structural, Debug)]
pub struct KeyboardConfig {
    /// Active layout, as a raw [`KeyboardLayout`] value.
    pub layout: u8,
    /// Milliseconds before key repeat begins.
    pub repeat_delay_ms: u32,
    /// Milliseconds between successive key-repeat events.
    pub repeat_rate_ms: u32,
    /// Non-zero if caps lock is initially active.
    pub caps_lock_enabled: u8,
    /// Capacity of the keyboard input ring buffer in bytes.
    pub buffer_size: u32,
}

impl KeyboardConfig {
    /// The compiled-in default: US QWERTY, 500 ms repeat delay, 30 ms
    /// repeat rate, caps lock off, a 256-byte input buffer.
    pub open spec fn spec_default() -> KeyboardConfig {
        KeyboardConfig {
            layout: KeyboardLayout::QwertyUs.spec_code(),
            repeat_delay_ms: 500,
            repeat_rate_ms: 30,
            caps_lock_enabled: 0,
            buffer_size: 256,
        }
    }

    /// Default configuration matching typical firmware defaults.
    pub fn default() -> (r: KeyboardConfig)
        ensures
            r == KeyboardConfig::spec_default(),
    {
        KeyboardConfig {
            layout: KeyboardLayout::QwertyUs.code(),
            repeat_delay_ms: 500,
            repeat_rate_ms: 30,
            caps_lock_enabled: 0,
            buffer_size: 256,
        }
    }
}

impl ConfigRecord for KeyboardConfig {
    open spec fn default_spec() -> KeyboardConfig {
        KeyboardConfig::spec_default()
    }

    fn default_record() -> (r: KeyboardConfig) {
        KeyboardConfig::default()
    }
}

/// Copies the current keyboard configuration into `dst`.
/// Does nothing when `dst` is absent.  Never mutates any store.
pub fn keyboard_config_get(configs: &DriverConfigs, dst: &mut Option<KeyboardConfig>)
    ensures
        *final(dst) == written_record(configs.keyboard@, *old(dst)),
{
    configs.keyboard.get(dst);
}

/// Replaces the current keyboard configuration with the record in `src`.
/// Does nothing when `src` is absent.  The console and timer stores are
/// untouched either way.
pub fn keyboard_config_set(configs: &mut DriverConfigs, src: Option<KeyboardConfig>)
    ensures
        final(configs).keyboard@ == updated_record(old(configs).keyboard@, src),
        final(configs).console@ == old(configs).console@,
        final(configs).timer@ == old(configs).timer@,
{
    configs.keyboard.set(src);
}

/// Resets the keyboard configuration to the compiled-in default.  The
/// console and timer stores are untouched.
pub fn keyboard_config_reset(configs: &mut DriverConfigs)
    ensures
        final(configs).keyboard@ == KeyboardConfig::spec_default(),
        final(configs).console@ == old(configs).console@,
        final(configs).timer@ == old(configs).timer@,
{
    configs.keyboard.reset();
}

/// Copies the compiled-in default keyboard configuration into `dst` without
/// touching any store.  Does nothing when `dst` is absent.
pub fn keyboard_config_get_default(dst: &mut Option<KeyboardConfig>)
    ensures
        *final(dst) == written_record(KeyboardConfig::spec_default(), *old(dst)),
{
    ConfigStore::<KeyboardConfig>::get_default(dst);
}

} // verus!

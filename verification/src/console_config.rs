//! Console driver configuration: VGA text-mode dimensions, colors,
//! auto-scroll, and tab width.

use vstd::prelude::*;

use crate::configs::DriverConfigs;
use crate::store::{ConfigRecord, ConfigStore, updated_record, written_record};

verus! {

/// VGA 16-color palette.  The hardware register value of each color comes
/// from [`VgaColor::code`].
#[derive(Clone, Copy, PartialEq, Eq, Structural, Debug)]
pub enum VgaColor {
    Black,
    Blue,
    Green,
    Cyan,
    Red,
    Magenta,
    Brown,
    LightGrey,
    DarkGrey,
    LightBlue,
    LightGreen,
    LightCyan,
    LightRed,
    Pink,
    Yellow,
    White,
}

impl VgaColor {
    /// The VGA palette register value of this color.
    pub open spec fn spec_code(self) -> u8 {
        match self {
            VgaColor::Black => 0,
            VgaColor::Blue => 1,
            VgaColor::Green => 2,
            VgaColor::Cyan => 3,
            VgaColor::Red => 4,
            VgaColor::Magenta => 5,
            VgaColor::Brown => 6,
            VgaColor::LightGrey => 7,
            VgaColor::DarkGrey => 8,
            VgaColor::LightBlue => 9,
            VgaColor::LightGreen => 10,
            VgaColor::LightCyan => 11,
            VgaColor::LightRed => 12,
            VgaColor::Pink => 13,
            VgaColor::Yellow => 14,
            VgaColor::White => 15,
        }
    }

    /// The VGA palette register value of this color.
    pub fn code(self) -> (r: u8)
        ensures
            r == self.spec_code(),
    {
        match self {
            VgaColor::Black => 0,
            VgaColor::Blue => 1,
            VgaColor::Green => 2,
            VgaColor::Cyan => 3,
            VgaColor::Red => 4,
            VgaColor::Magenta => 5,
            VgaColor::Brown => 6,
            VgaColor::LightGrey => 7,
            VgaColor::DarkGrey => 8,
            VgaColor::LightBlue => 9,
            VgaColor::LightGreen => 10,
            VgaColor::LightCyan => 11,
            VgaColor::LightRed => 12,
            VgaColor::Pink => 13,
            VgaColor::Yellow => 14,
            VgaColor::White => 15,
        }
    }
}

/// Console driver configuration record.
///
/// Field order and widths are part of the interface: external collaborators
/// read the record as a plain aggregate of sized scalars.  Palette fields
/// hold raw indices and flag fields follow the non-zero-is-true convention;
/// no operation of this library validates either.
#[derive(Clone, Copy, PartialEq, Eq, Structural, Debug)]
pub struct ConsoleConfig {
    /// Number of text columns.
    pub width: u32,
    /// Number of text rows.
    pub height: u32,
    /// Foreground color index in the VGA palette.
    pub fg_color: u8,
    /// Background color index in the VGA palette.
    pub bg_color: u8,
    /// Non-zero enables automatic scrolling when the cursor reaches the
    /// last row.
    pub auto_scroll: u8,
    /// Number of spaces per tab stop.
    pub tab_width: u8,
}

impl ConsoleConfig {
    /// The compiled-in default: an 80x25 white-on-black console with
    /// auto-scroll on and four-space tabs.
    pub open spec fn spec_default() -> ConsoleConfig {
        ConsoleConfig {
            width: 80,
            height: 25,
            fg_color: VgaColor::White.spec_code(),
            bg_color: VgaColor::Black.spec_code(),
            auto_scroll: 1,
            tab_width: 4,
        }
    }

    /// Default configuration matching the hardware reset state.
    pub fn default() -> (r: ConsoleConfig)
        ensures
            r == ConsoleConfig::spec_default(),
    {
        ConsoleConfig {
            width: 80,
            height: 25,
            fg_color: VgaColor::White.code(),
            bg_color: VgaColor::Black.code(),
            auto_scroll: 1,
            tab_width: 4,
        }
    }
}

impl ConfigRecord for ConsoleConfig {
    open spec fn default_spec() -> ConsoleConfig {
        ConsoleConfig::spec_default()
    }

    fn default_record() -> (r: ConsoleConfig) {
        ConsoleConfig::default()
    }
}

/// Copies the current console configuration into `dst`.
/// Does nothing when `dst` is absent.  Never mutates any store.
pub fn console_config_get(configs: &DriverConfigs, dst: &mut Option<ConsoleConfig>)
    ensures
        *final(dst) == written_record(configs.console@, *old(dst)),
{
    configs.console.get(dst);
}

/// Replaces the current console configuration with the record in `src`.
/// Does nothing when `src` is absent.  The keyboard and timer stores are
/// untouched either way.
pub fn console_config_set(configs: &mut DriverConfigs, src: Option<ConsoleConfig>)
    ensures
        final(configs).console@ == updated_record(old(configs).console@, src),
        final(configs).keyboard@ == old(configs).keyboard@,
        final(configs).timer@ == old(configs).timer@,
{
    configs.console.set(src);
}

/// Resets the console configuration to the compiled-in default.  The
/// keyboard and timer stores are untouched.
pub fn console_config_reset(configs: &mut DriverConfigs)
    ensures
        final(configs).console@ == ConsoleConfig::spec_default(),
        final(configs).keyboard@ == old(configs).keyboard@,
        final(configs).timer@ == old(configs).timer@,
{
    configs.console.reset();
}

/// Copies the compiled-in default console configuration into `dst` without
/// touching any store.  Does nothing when `dst` is absent.
pub fn console_config_get_default(dst: &mut Option<ConsoleConfig>)
    ensures
        *final(dst) == written_record(ConsoleConfig::spec_default(), *old(dst)),
{
    ConfigStore::<ConsoleConfig>::get_default(dst);
}

} // verus!

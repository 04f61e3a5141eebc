//! The tunable configuration: physics coefficients and lighting, with the
//! flag that tells whether the values in memory have been saved.

use vstd::prelude::*;
use crate::units::UNIT;

verus! {

/// Upper end of the range that the control panel offers for `drag_c`.
pub const DRAG_C_MAX: i64 = 300_000;

/// Upper end of the range that the control panel offers for `floating_c`.
pub const FLOATING_C_MAX: i64 = 5_000_000;

/// Upper end of the range that the control panel offers for `drag_ang_c`.
pub const DRAG_ANG_C_MAX: i64 = 300_000;

/// Upper end of the range that the control panel offers for
/// `avg_boat_height`.
pub const AVG_BOAT_HEIGHT_MAX: i64 = 5_000_000;

/// Upper end of the range that the control panel offers for `light_dir_lum`.
pub const LIGHT_DIR_LUM_MAX: i64 = 100_000_000_000;

/// Upper end of the range that the control panel offers for `light_amb_lum`.
pub const LIGHT_AMB_LUM_MAX: i64 = 3_000_000;

/// A colour; each channel counts millionths, so `UNIT` is full intensity.
#[derive(Clone, Copy, Debug, PartialEq, Eq, Structural)]
pub struct Color {
    pub r: i64,
    pub g: i64,
    pub b: i64,
    pub a: i64,
}

impl Color {
    /// The opaque colour with the given red, green and blue channels.
    pub fn rgb(r: i64, g: i64, b: i64) -> (c: Color)
        ensures
            c == (Color { r, g, b, a: UNIT }),
    {
        Color { r, g, b, a: UNIT }
    }
}

/// The tunable values, in millionths of their units.
#[derive(Clone, Copy, Debug, PartialEq, Eq, Structural)]
pub struct ConfigValues {
    /// Linear drag coefficient.
    pub drag_c: i64,
    /// Draught at which buoyancy stops growing.
    pub avg_boat_height: i64,
    /// Buoyancy per unit of submersion depth.
    pub floating_c: i64,
    /// Angular drag coefficient.
    pub drag_ang_c: i64,
    /// Colour of the directional light.
    pub light_dir_color: Color,
    /// Colour of the ambient light.
    pub light_amb_color: Color,
    /// Illuminance of the directional light.
    pub light_dir_lum: i64,
    /// Brightness of the ambient light.
    pub light_amb_lum: i64,
}

impl ConfigValues {
    /// The values a fresh configuration starts with.
    pub open spec fn initial() -> ConfigValues {
        ConfigValues {
            drag_c: 50_000,
            avg_boat_height: 1_000_000,
            floating_c: 1_000_000,
            drag_ang_c: 50_000,
            light_dir_color: Color { r: 980_000, g: 970_000, b: 800_000, a: 1_000_000 },
            light_amb_color: Color { r: 500_000, g: 500_000, b: 800_000, a: 1_000_000 },
            light_dir_lum: 50_000_000_000,
            light_amb_lum: 1_000_000,
        }
    }

    /// Whether every value lies in the range that the control panel offers
    /// for it. Colours are not ranged: the panel edits them freely.
    pub open spec fn in_panel_range(self) -> bool {
        &&& 0 <= self.drag_c <= DRAG_C_MAX
        &&& 0 <= self.floating_c <= FLOATING_C_MAX
        &&& 0 <= self.drag_ang_c <= DRAG_ANG_C_MAX
        &&& 0 <= self.avg_boat_height <= AVG_BOAT_HEIGHT_MAX
        &&& 0 <= self.light_dir_lum <= LIGHT_DIR_LUM_MAX
        &&& 0 <= self.light_amb_lum <= LIGHT_AMB_LUM_MAX
    }

    /// Executable form of [`ConfigValues::in_panel_range`].
    pub fn is_in_panel_range(&self) -> (ok: bool)
        ensures
            ok == self.in_panel_range(),
    {
        0 <= self.drag_c && self.drag_c <= DRAG_C_MAX && 0 <= self.floating_c && self.floating_c
            <= FLOATING_C_MAX && 0 <= self.drag_ang_c && self.drag_ang_c <= DRAG_ANG_C_MAX && 0
            <= self.avg_boat_height && self.avg_boat_height <= AVG_BOAT_HEIGHT_MAX && 0
            <= self.light_dir_lum && self.light_dir_lum <= LIGHT_DIR_LUM_MAX && 0
            <= self.light_amb_lum && self.light_amb_lum <= LIGHT_AMB_LUM_MAX
    }
}

impl Default for ConfigValues {
    fn default() -> (values: ConfigValues)
        ensures
            values == ConfigValues::initial(),
    {
        ConfigValues {
            drag_c: 50_000,
            avg_boat_height: 1_000_000,
            floating_c: 1_000_000,
            drag_ang_c: 50_000,
            light_dir_color: Color::rgb(980_000, 970_000, 800_000),
            light_dir_lum: 50_000_000_000,
            light_amb_color: Color::rgb(500_000, 500_000, 800_000),
            light_amb_lum: 1_000_000,
        }
    }
}

/// The configuration in memory.
#[derive(Clone, Copy, Debug, PartialEq, Eq, Structural)]
pub struct Config {
    /// Whether `values` are the values last written to the configuration
    /// file (or nothing has been edited yet).
    pub saved: bool,
    pub values: ConfigValues,
}

impl Config {
    /// The configuration at start-up: the initial values, counted as saved.
    pub fn new() -> (config: Config)
        ensures
            config == (Config { saved: true, values: ConfigValues::initial() }),
    {
        Config { saved: true, values: ConfigValues::default() }
    }
}

/// Takes over the values read from the configuration file once loading has
/// ended. With no values (the file was missing or unreadable) the
/// configuration stays as it is and `missing` is set, for the caller to
/// report. The saved flag is left alone either way.
pub fn on_loaded_general(config: &mut Config, loaded: Option<ConfigValues>) -> (missing: bool)
    ensures
        missing == (loaded is None),
        final(config).saved == old(config).saved,
        final(config).values == (match loaded {
            Some(values) => values,
            None => old(config).values,
        }),
{
    match loaded {
        None => true,
        Some(values) => {
            config.values = values;
            false
        },
    }
}

/// Records the outcome of one attempt to write the configuration file: a
/// successful write marks the values as saved, a failed one leaves the flag
/// as it was, so that saving can be tried again. Returns whether the failure
/// is to be reported.
pub fn save_config(config: &mut Config, written: bool) -> (failed: bool)
    ensures
        failed == !written,
        final(config).values == old(config).values,
        final(config).saved == (written || old(config).saved),
{
    if written {
        config.saved = true;
    }
    !written
}

} // verus!

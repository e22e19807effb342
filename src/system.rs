//! The machine's configuration and state. Nothing in validation reads or changes it; it
//! holds the values that the machine starts with.
use vstd::prelude::*;

verus! {

/// A point in three-dimensional space, in the configured units. Coordinates may be
/// negative for locations out of bounds.
#[derive(Debug, Clone, Copy, PartialEq, Eq, Structural)]
pub struct Location {
    pub x: i64,
    pub y: i64,
    pub z: i64,
}

/// The unit of lengths.
#[derive(Debug, Clone, Copy, PartialEq, Eq, Structural)]
pub enum UnitsConfig {
    Millimeters,
    Inches,
}

/// Whether coordinates are absolute or relative to the current location.
#[derive(Debug, Clone, Copy, PartialEq, Eq, Structural)]
pub enum CoordinatesConfig {
    Absolute,
    Relative,
}

/// Settings that apply to every command.
#[derive(Debug, Clone, Copy, PartialEq, Eq, Structural)]
pub struct GlobalConfig {
    pub units_config: UnitsConfig,
    pub coordinates_config: CoordinatesConfig,
}

/// The print bed.
#[derive(Debug, Clone, Copy, PartialEq, Eq, Structural)]
pub struct BedConfig {
    /// Some once the origin is configured, None while it is pending.
    pub origin: Option<Location>,
    /// Some once the printing limit is configured, None while it is pending.
    pub limit: Option<Location>,
}

/// The extruder.
#[derive(Debug, Clone, Copy, PartialEq, Eq, Structural)]
pub struct ExtruderConfig {
    /// Off at start.
    pub fan_enabled: bool,
    /// Temperature in degrees.
    pub current_temp: i64,
    /// Relative to the origin; the machine starts at 0, 0, 0.
    pub current_location: Location,
}

/// The configuration and state of the whole machine.
#[derive(Debug, Clone, Copy, PartialEq, Eq, Structural)]
pub struct SystemConfig {
    pub bed_config: BedConfig,
    pub extruder_config: ExtruderConfig,
    pub global: GlobalConfig,
}

impl SystemConfig {
    /// The state at start: millimetres, absolute coordinates, bed not configured, fan
    /// off, temperature 0, extruder at the origin.
    pub open spec fn is_initial(&self) -> bool {
        &&& self.global == GlobalConfig {
            units_config: UnitsConfig::Millimeters,
            coordinates_config: CoordinatesConfig::Absolute,
        }
        &&& self.bed_config.origin is None
        &&& self.bed_config.limit is None
        &&& !self.extruder_config.fan_enabled
        &&& self.extruder_config.current_temp == 0
        &&& self.extruder_config.current_location == Location { x: 0, y: 0, z: 0 }
    }
}

impl Default for SystemConfig {
    fn default() -> (r: SystemConfig)
        ensures
            r.is_initial(),
    {
        let origin = Location { x: 0, y: 0, z: 0 };
        SystemConfig {
            bed_config: BedConfig { origin: None, limit: None },
            extruder_config: ExtruderConfig {
                fan_enabled: false,
                current_temp: 0,
                current_location: origin,
            },
            global: GlobalConfig {
                units_config: UnitsConfig::Millimeters,
                coordinates_config: CoordinatesConfig::Absolute,
            },
        }
    }
}

} // verus!

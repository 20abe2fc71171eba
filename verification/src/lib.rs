//! Conversion of theatre-local planar simulation coordinates to geographic
//! latitude/longitude, with degrees-minutes-seconds rendering.

pub mod coordinate;
pub mod digits;
pub mod dms;
pub mod projection;
pub mod registry;

pub use coordinate::LatLonCoordinate;
pub use coordinate::format_coordinate;
pub use coordinate::lat_lon_coordinate;
pub use dms::DMS;
pub use dms::decimal_to_dms;
pub use dms::format_dms;
pub use projection::projection_definition;
pub use projection::target_datum;
pub use registry::ConversionError;
pub use registry::FixedDecimal;
pub use registry::TransverseMercator;
pub use registry::projection_from_theatre;

use vstd::prelude::*;

verus! {

/// Milliarcseconds in one degree of arc: 60 minutes of 60 seconds of 1000
/// milliseconds each.
pub const MAS_PER_DEGREE: u64 = 3_600_000;

/// Milliarcseconds in one minute of arc.
pub const MAS_PER_MINUTE: u64 = 60_000;

/// A decimal angle in degrees, held as a signed count of milliarcseconds
/// (1/3_600_000 of a degree). Negative values mean south or west.
#[derive(Clone, Copy, PartialEq, Eq, Structural, Debug)]
pub struct DecimalAngle {
    pub milliarcseconds: i64,
}

impl DecimalAngle {
    /// The angle's magnitude in milliarcseconds.
    pub open spec fn abs_mas(self) -> nat {
        if self.milliarcseconds >= 0 {
            self.milliarcseconds as nat
        } else {
            (-(self.milliarcseconds as int)) as nat
        }
    }
}

} // verus!

//! The combined geographic coordinate value: one point in both decimal and
//! degrees-minutes-seconds form, and its display text.

use vstd::prelude::*;
use vstd::string::StringExecFns;

use crate::DecimalAngle;
use crate::dms::DMS;
use crate::dms::decimal_to_dms;
use crate::dms::dms_text;
use crate::dms::format_dms;
use crate::dms::spec_to_dms;

verus! {

/// A latitude/longitude pair in both decimal and degrees-minutes-seconds
/// form. Built once per conversion; the two forms describe the same point.
#[derive(Clone, Copy, PartialEq, Eq, Structural, Debug)]
pub struct LatLonCoordinate {
    pub lat_decimal: DecimalAngle,
    pub lon_decimal: DecimalAngle,
    pub lat_dms: DMS,
    pub lon_dms: DMS,
}

impl LatLonCoordinate {
    /// Both degrees-minutes-seconds fields are the encodings of the decimal
    /// fields, on the right axes.
    pub open spec fn wf(self) -> bool {
        &&& self.lat_dms == spec_to_dms(self.lat_decimal, true)
        &&& self.lon_dms == spec_to_dms(self.lon_decimal, false)
    }
}

/// Assembles the full coordinate for a converted point: keeps the decimal
/// angles and derives the degrees-minutes-seconds form of each, the latitude
/// with the N/S letter pair and the longitude with E/W.
pub fn lat_lon_coordinate(lat: DecimalAngle, lon: DecimalAngle) -> (c: LatLonCoordinate)
    ensures
        c.lat_decimal == lat,
        c.lon_decimal == lon,
        c.wf(),
{
    LatLonCoordinate {
        lat_decimal: lat,
        lon_decimal: lon,
        lat_dms: decimal_to_dms(lat, true),
        lon_dms: decimal_to_dms(lon, false),
    }
}

/// The display text of a full coordinate: the latitude and longitude
/// degrees-minutes-seconds texts joined by a single space.
pub open spec fn coordinate_text(c: LatLonCoordinate) -> Seq<char> {
    dms_text(c.lat_dms) + " "@ + dms_text(c.lon_dms)
}

/// Renders a full coordinate for display.
pub fn format_coordinate(coord: &LatLonCoordinate) -> (s: String)
    ensures
        s@ == coordinate_text(*coord),
{
    let mut s = format_dms(&coord.lat_dms);
    s.append(" ");
    s.append(format_dms(&coord.lon_dms).as_str());
    proof {
        assert(s@ =~= coordinate_text(*coord));
    }
    s
}

} // verus!

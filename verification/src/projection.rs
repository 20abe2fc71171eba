//! The transverse-Mercator projection definition handed to the external
//! projection engine. The definition text is a compatibility contract with
//! that engine and is reproduced here digit for digit.

use vstd::prelude::*;
use vstd::string::StringExecFns;

use crate::digits::dec_digits;
use crate::digits::i16_to_string;
use crate::digits::int_digits;
use crate::digits::padded_digits;
use crate::digits::padded_u64_to_string;
use crate::digits::u64_to_string;
use crate::registry::FixedDecimal;
use crate::registry::TransverseMercator;

verus! {

/// The decimal text of a fixed decimal: an optional minus sign, the integer
/// part without leading zeros, and, when there are fractional digits, a point
/// followed by exactly `frac_width` digits.
pub open spec fn fixed_text(f: FixedDecimal) -> Seq<char> {
    (if f.negative {
        seq!['-']
    } else {
        Seq::<char>::empty()
    }) + dec_digits(f.int_part as nat) + (if f.frac_width == 0 {
        Seq::<char>::empty()
    } else {
        "."@ + padded_digits(f.frac_digits as nat, f.frac_width as nat)
    })
}

/// Renders a fixed decimal as its decimal text.
pub fn fixed_to_string(f: &FixedDecimal) -> (s: String)
    ensures
        s@ == fixed_text(*f),
{
    let mut s: String = if f.negative {
        proof {
            reveal_strlit("-");
        }
        "-".to_owned()
    } else {
        String::new()
    };
    s.append(u64_to_string(f.int_part).as_str());
    if f.frac_width > 0 {
        s.append(".");
        s.append(padded_u64_to_string(f.frac_digits, f.frac_width).as_str());
    }
    proof {
        assert(s@ =~= fixed_text(*f));
    }
    s
}

/// The projection definition text for one parameter record: a transverse
/// Mercator with latitude origin zero, the record's central meridian, scale
/// factor, false easting and false northing.
pub open spec fn projection_definition_text(m: TransverseMercator) -> Seq<char> {
    "+proj=tmerc +lat_0=0 +lon_0="@ + int_digits(m.central_meridian as int) + " +k_0="@
        + fixed_text(m.scale_factor) + " +x_0="@ + fixed_text(m.false_easting) + " +y_0="@
        + fixed_text(m.false_northing)
}

/// Builds the projection definition string for the external engine. The
/// result must be handed to the engine together with the fixed target datum
/// of [`target_datum`].
pub fn projection_definition(m: &TransverseMercator) -> (s: String)
    ensures
        s@ == projection_definition_text(*m),
{
    let mut s: String = "+proj=tmerc +lat_0=0 +lon_0=".to_owned();
    s.append(i16_to_string(m.central_meridian).as_str());
    s.append(" +k_0=");
    s.append(fixed_to_string(&m.scale_factor).as_str());
    s.append(" +x_0=");
    s.append(fixed_to_string(&m.false_easting).as_str());
    s.append(" +y_0=");
    s.append(fixed_to_string(&m.false_northing).as_str());
    proof {
        assert(s@ =~= projection_definition_text(*m));
    }
    s
}

/// The fixed target geodetic datum every projection converts into.
pub fn target_datum() -> (s: &'static str)
    ensures
        s@ == "WGS84"@,
{
    "WGS84"
}

} // verus!

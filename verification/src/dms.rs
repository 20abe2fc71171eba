//! Degrees-minutes-seconds encoding of decimal angles and its canonical text
//! rendering.

use vstd::prelude::*;
use vstd::string::StringExecFns;

use crate::DecimalAngle;
use crate::MAS_PER_DEGREE;
use crate::MAS_PER_MINUTE;
use crate::digits::dec_digits;
use crate::digits::padded_digits;
use crate::digits::padded_u64_to_string;
use crate::digits::push_char;
use crate::digits::u64_to_string;

verus! {

/// An angle in degrees-minutes-seconds form. The sign of the source angle is
/// carried solely by `direction`; `degrees` is the truncated magnitude.
/// Seconds are held as milliarcseconds (`seconds_milli`), so `29.640` seconds
/// is `29_640`.
///
/// Holding whole milliarcseconds settles the boundary where seconds would
/// round to `60.000` at display precision: any rounding to the
/// milliarcsecond grid happens before encoding, a whole minute carries into
/// `minutes` arithmetically, and the rendered seconds are exact, so the
/// display can never read `60.000`.
#[derive(Clone, Copy, PartialEq, Eq, Structural, Debug)]
pub struct DMS {
    pub degrees: u64,
    pub minutes: u64,
    pub seconds_milli: u64,
    pub direction: char,
}

impl DMS {
    /// A well-formed encoding: minutes in [0, 59], seconds in [0, 60), and a
    /// cardinal direction letter. `degrees` is non-negative by type.
    pub open spec fn wf(self) -> bool {
        &&& self.minutes < 60
        &&& self.seconds_milli < MAS_PER_MINUTE
        &&& (self.direction == 'N' || self.direction == 'S' || self.direction == 'E'
            || self.direction == 'W')
    }
}

/// The degrees-minutes-seconds encoding of `value`: truncated magnitude split
/// at whole degrees and whole minutes, the rest as milliarcseconds of the
/// seconds part, and the direction letter chosen by axis and sign
/// (non-negative maps to north/east).
pub open spec fn spec_to_dms(value: DecimalAngle, is_latitude: bool) -> DMS {
    DMS {
        degrees: (value.abs_mas() / (MAS_PER_DEGREE as nat)) as u64,
        minutes: ((value.abs_mas() / (MAS_PER_MINUTE as nat)) % 60) as u64,
        seconds_milli: (value.abs_mas() % (MAS_PER_MINUTE as nat)) as u64,
        direction: if is_latitude {
            if value.milliarcseconds >= 0 {
                'N'
            } else {
                'S'
            }
        } else {
            if value.milliarcseconds >= 0 {
                'E'
            } else {
                'W'
            }
        },
    }
}

/// Converts a decimal angle to degrees-minutes-seconds. The axis flag selects
/// the direction-letter pair: latitude gives N/S, longitude gives E/W.
pub fn decimal_to_dms(value: DecimalAngle, is_latitude: bool) -> (d: DMS)
    ensures
        d == spec_to_dms(value, is_latitude),
        d.wf(),
{
    let mas: i64 = value.milliarcseconds;
    let magnitude: u64 = if mas >= 0 {
        mas as u64
    } else {
        (-(mas as i128)) as u64
    };
    proof {
        assert(magnitude as nat == value.abs_mas());
    }
    let degrees: u64 = magnitude / MAS_PER_DEGREE;
    let minutes: u64 = (magnitude / MAS_PER_MINUTE) % 60;
    let seconds_milli: u64 = magnitude % MAS_PER_MINUTE;
    let direction: char = if is_latitude {
        if mas >= 0 {
            'N'
        } else {
            'S'
        }
    } else {
        if mas >= 0 {
            'E'
        } else {
            'W'
        }
    };
    DMS { degrees, minutes, seconds_milli, direction }
}

/// The degrees-minutes-seconds encoding is faithful: its three components
/// reconstruct the magnitude of the source angle exactly, so no part of the
/// angle is lost or carried between fields.
pub proof fn lemma_dms_reconstructs_magnitude(value: DecimalAngle, is_latitude: bool)
    ensures
        ({
            let d = spec_to_dms(value, is_latitude);
            (d.degrees as nat) * (MAS_PER_DEGREE as nat) + (d.minutes as nat) * (
            MAS_PER_MINUTE as nat) + (d.seconds_milli as nat) == value.abs_mas()
        }),
{
    let a = value.abs_mas() as int;
    vstd::arithmetic::div_mod::lemma_fundamental_div_mod(a, 60_000);
    vstd::arithmetic::div_mod::lemma_fundamental_div_mod(a / 60_000, 60);
    vstd::arithmetic::div_mod::lemma_div_denominator(a, 60_000, 60);
    assert(a / 3_600_000 == (a / 60_000) / 60);
    assert(a == 60_000 * (60 * ((a / 60_000) / 60) + ((a / 60_000) % 60)) + a % 60_000);
    assert(60_000 * (60 * ((a / 60_000) / 60) + ((a / 60_000) % 60)) == 3_600_000 * ((a / 60_000)
        / 60) + 60_000 * ((a / 60_000) % 60)) by (nonlinear_arith);
}

/// The canonical display text of a degrees-minutes-seconds angle: unpadded
/// degrees, a degree sign, two-digit minutes, an apostrophe, seconds as two
/// digits, a point and three digits, a double quote, and the direction letter.
pub open spec fn dms_text(d: DMS) -> Seq<char> {
    dec_digits(d.degrees as nat) + "\u{00b0}"@ + padded_digits(d.minutes as nat, 2) + "'"@
        + padded_digits((d.seconds_milli as nat) / 1000, 2) + "."@ + padded_digits(
        (d.seconds_milli as nat) % 1000,
        3,
    ) + "\""@ + seq![d.direction]
}

/// Renders a degrees-minutes-seconds angle as its canonical display text.
pub fn format_dms(dms: &DMS) -> (s: String)
    ensures
        s@ == dms_text(*dms),
{
    let mut s = u64_to_string(dms.degrees);
    s.append("\u{00b0}");
    s.append(padded_u64_to_string(dms.minutes, 2).as_str());
    s.append("'");
    s.append(padded_u64_to_string(dms.seconds_milli / 1000, 2).as_str());
    s.append(".");
    s.append(padded_u64_to_string(dms.seconds_milli % 1000, 3).as_str());
    s.append("\"");
    push_char(&mut s, dms.direction);
    proof {
        assert(s@ =~= dms_text(*dms));
    }
    s
}

} // verus!

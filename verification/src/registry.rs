//! The per-theatre projection parameter table: a closed, immutable mapping
//! from theatre identifier to transverse-Mercator parameters.

use vstd::prelude::*;

verus! {

/// Ten to the power `w`.
pub open spec fn pow10(w: nat) -> nat
    decreases w,
{
    if w == 0 {
        1
    } else {
        10 * pow10((w - 1) as nat)
    }
}

/// A real number held exactly as decimal text would give it: an optional
/// sign, an integer part, and `frac_width` fractional digits whose value is
/// `frac_digits` (leading zeros included in the width). `frac_width` zero
/// means a whole number written without a decimal point.
#[derive(Clone, Copy, PartialEq, Eq, Structural, Debug)]
pub struct FixedDecimal {
    pub negative: bool,
    pub int_part: u64,
    pub frac_digits: u64,
    pub frac_width: u64,
}

impl FixedDecimal {
    /// The fractional digits fit the declared width.
    pub open spec fn wf(self) -> bool {
        (self.frac_digits as nat) < pow10(self.frac_width as nat)
    }
}

/// Transverse-Mercator projection parameters for one theatre.
#[derive(Clone, Copy, PartialEq, Eq, Structural, Debug)]
pub struct TransverseMercator {
    pub central_meridian: i16,
    pub false_easting: FixedDecimal,
    pub false_northing: FixedDecimal,
    pub scale_factor: FixedDecimal,
}

impl TransverseMercator {
    /// Every real-valued parameter is a well-formed fixed decimal.
    pub open spec fn wf(self) -> bool {
        self.false_easting.wf() && self.false_northing.wf() && self.scale_factor.wf()
    }
}

/// Why a conversion failed: an identifier outside the registry, a projection
/// definition the engine rejected, or a planar point outside the projection's
/// valid domain. The latter two are raised by callers that drive the external
/// engine; the registry itself only ever reports `UnknownTheatre`.
#[derive(PartialEq, Eq, Debug)]
pub enum ConversionError {
    UnknownTheatre(String),
    ProjectionInitFailed(String),
    OutOfDomain(String),
}

/// The common transverse-Mercator scale factor of every registered theatre.
pub open spec fn standard_scale_factor() -> FixedDecimal {
    FixedDecimal { negative: false, int_part: 0, frac_digits: 9996, frac_width: 4 }
}

/// Parameters of the PersianGulf theatre.
pub open spec fn persian_gulf_params() -> TransverseMercator {
    TransverseMercator {
        central_meridian: 57,
        false_easting: FixedDecimal {
            negative: false,
            int_part: 75755,
            frac_digits: 99999999645,
            frac_width: 11,
        },
        false_northing: FixedDecimal {
            negative: true,
            int_part: 2894933,
            frac_digits: 377,
            frac_width: 10,
        },
        scale_factor: standard_scale_factor(),
    }
}

/// Parameters of the Falklands theatre.
pub open spec fn falklands_params() -> TransverseMercator {
    TransverseMercator {
        central_meridian: -57i16,
        false_easting: FixedDecimal {
            negative: false,
            int_part: 147639,
            frac_digits: 99999997593,
            frac_width: 11,
        },
        false_northing: FixedDecimal {
            negative: false,
            int_part: 5815417,
            frac_digits: 32,
            frac_width: 9,
        },
        scale_factor: standard_scale_factor(),
    }
}

/// Parameters of the Caucasus theatre.
pub open spec fn caucasus_params() -> TransverseMercator {
    TransverseMercator {
        central_meridian: 33,
        false_easting: FixedDecimal {
            negative: true,
            int_part: 99516,
            frac_digits: 99999997322,
            frac_width: 11,
        },
        false_northing: FixedDecimal {
            negative: true,
            int_part: 4998114,
            frac_digits: 999999984,
            frac_width: 9,
        },
        scale_factor: standard_scale_factor(),
    }
}

/// Parameters of the MarianaIslands theatre.
pub open spec fn mariana_islands_params() -> TransverseMercator {
    TransverseMercator {
        central_meridian: 147,
        false_easting: FixedDecimal {
            negative: false,
            int_part: 238417,
            frac_digits: 99999989968,
            frac_width: 11,
        },
        false_northing: FixedDecimal {
            negative: true,
            int_part: 1491840,
            frac_digits: 48,
            frac_width: 9,
        },
        scale_factor: standard_scale_factor(),
    }
}

/// Parameters of the Nevada theatre.
pub open spec fn nevada_params() -> TransverseMercator {
    TransverseMercator {
        central_meridian: -117i16,
        false_easting: FixedDecimal {
            negative: true,
            int_part: 193996,
            frac_digits: 80999964548,
            frac_width: 11,
        },
        false_northing: FixedDecimal {
            negative: true,
            int_part: 4410028,
            frac_digits: 63999966,
            frac_width: 9,
        },
        scale_factor: standard_scale_factor(),
    }
}

/// Parameters of the Normandy theatre.
pub open spec fn normandy_params() -> TransverseMercator {
    TransverseMercator {
        central_meridian: -3i16,
        false_easting: FixedDecimal {
            negative: true,
            int_part: 195526,
            frac_digits: 204,
            frac_width: 11,
        },
        false_northing: FixedDecimal {
            negative: true,
            int_part: 5484812,
            frac_digits: 999999951,
            frac_width: 9,
        },
        scale_factor: standard_scale_factor(),
    }
}

/// Parameters of the Syria theatre.
pub open spec fn syria_params() -> TransverseMercator {
    TransverseMercator {
        central_meridian: 39,
        false_easting: FixedDecimal {
            negative: false,
            int_part: 282801,
            frac_digits: 3993,
            frac_width: 11,
        },
        false_northing: FixedDecimal {
            negative: true,
            int_part: 3879865,
            frac_digits: 9999999935,
            frac_width: 10,
        },
        scale_factor: standard_scale_factor(),
    }
}

/// Parameters of the SinaiMap theatre.
pub open spec fn sinai_params() -> TransverseMercator {
    TransverseMercator {
        central_meridian: 33,
        false_easting: FixedDecimal {
            negative: false,
            int_part: 169221,
            frac_digits: 9999999585,
            frac_width: 10,
        },
        false_northing: FixedDecimal {
            negative: true,
            int_part: 3325312,
            frac_digits: 9999999693,
            frac_width: 10,
        },
        scale_factor: standard_scale_factor(),
    }
}

/// The registry as a whole: the parameters registered under a theatre
/// identifier, or nothing when the identifier is outside the closed set.
pub open spec fn theatre_params(name: Seq<char>) -> Option<TransverseMercator> {
    if name == "PersianGulf"@ {
        Some(persian_gulf_params())
    } else if name == "Falklands"@ {
        Some(falklands_params())
    } else if name == "Caucasus"@ {
        Some(caucasus_params())
    } else if name == "MarianaIslands"@ {
        Some(mariana_islands_params())
    } else if name == "Nevada"@ {
        Some(nevada_params())
    } else if name == "Normandy"@ {
        Some(normandy_params())
    } else if name == "Syria"@ {
        Some(syria_params())
    } else if name == "SinaiMap"@ {
        Some(sinai_params())
    } else {
        None
    }
}

/// Relies on `<str as PartialEq>::eq` of std: two string slices are equal
/// exactly when they consist of the same characters.
#[verifier::external_body]
fn str_eq(a: &str, b: &str) -> (r: bool)
    ensures
        r == (a@ == b@),
{
    a == b
}

/// The shared scale factor, as an executable value.
fn standard_scale() -> (f: FixedDecimal)
    ensures
        f == standard_scale_factor(),
{
    FixedDecimal { negative: false, int_part: 0, frac_digits: 9996, frac_width: 4 }
}

/// Looks a theatre identifier up in the registry by exact match. Returns the
/// registered parameters, or `UnknownTheatre` carrying the offending
/// identifier when it is outside the registered set.
pub fn projection_from_theatre(theatre: &str) -> (r: Result<TransverseMercator, ConversionError>)
    ensures
        match r {
            Ok(m) => theatre_params(theatre@) == Some(m) && m.wf(),
            Err(e) => {
                &&& theatre_params(theatre@) is None
                &&& e matches ConversionError::UnknownTheatre(id) && id@ == theatre@
            },
        },
{
    proof {
        lemma_registry_params_wf();
    }
    if str_eq(theatre, "PersianGulf") {
        Ok(TransverseMercator {
            central_meridian: 57,
            false_easting: FixedDecimal {
                negative: false,
                int_part: 75755,
                frac_digits: 99999999645,
                frac_width: 11,
            },
            false_northing: FixedDecimal {
                negative: true,
                int_part: 2894933,
                frac_digits: 377,
                frac_width: 10,
            },
            scale_factor: standard_scale(),
        })
    } else if str_eq(theatre, "Falklands") {
        Ok(TransverseMercator {
            central_meridian: -57i16,
            false_easting: FixedDecimal {
                negative: false,
                int_part: 147639,
                frac_digits: 99999997593,
                frac_width: 11,
            },
            false_northing: FixedDecimal {
                negative: false,
                int_part: 5815417,
                frac_digits: 32,
                frac_width: 9,
            },
            scale_factor: standard_scale(),
        })
    } else if str_eq(theatre, "Caucasus") {
        Ok(TransverseMercator {
            central_meridian: 33,
            false_easting: FixedDecimal {
                negative: true,
                int_part: 99516,
                frac_digits: 99999997322,
                frac_width: 11,
            },
            false_northing: FixedDecimal {
                negative: true,
                int_part: 4998114,
                frac_digits: 999999984,
                frac_width: 9,
            },
            scale_factor: standard_scale(),
        })
    } else if str_eq(theatre, "MarianaIslands") {
        Ok(TransverseMercator {
            central_meridian: 147,
            false_easting: FixedDecimal {
                negative: false,
                int_part: 238417,
                frac_digits: 99999989968,
                frac_width: 11,
            },
            false_northing: FixedDecimal {
                negative: true,
                int_part: 1491840,
                frac_digits: 48,
                frac_width: 9,
            },
            scale_factor: standard_scale(),
        })
    } else if str_eq(theatre, "Nevada") {
        Ok(TransverseMercator {
            central_meridian: -117i16,
            false_easting: FixedDecimal {
                negative: true,
                int_part: 193996,
                frac_digits: 80999964548,
                frac_width: 11,
            },
            false_northing: FixedDecimal {
                negative: true,
                int_part: 4410028,
                frac_digits: 63999966,
                frac_width: 9,
            },
            scale_factor: standard_scale(),
        })
    } else if str_eq(theatre, "Normandy") {
        Ok(TransverseMercator {
            central_meridian: -3i16,
            false_easting: FixedDecimal {
                negative: true,
                int_part: 195526,
                frac_digits: 204,
                frac_width: 11,
            },
            false_northing: FixedDecimal {
                negative: true,
                int_part: 5484812,
                frac_digits: 999999951,
                frac_width: 9,
            },
            scale_factor: standard_scale(),
        })
    } else if str_eq(theatre, "Syria") {
        Ok(TransverseMercator {
            central_meridian: 39,
            false_easting: FixedDecimal {
                negative: false,
                int_part: 282801,
                frac_digits: 3993,
                frac_width: 11,
            },
            false_northing: FixedDecimal {
                negative: true,
                int_part: 3879865,
                frac_digits: 9999999935,
                frac_width: 10,
            },
            scale_factor: standard_scale(),
        })
    } else if str_eq(theatre, "SinaiMap") {
        Ok(TransverseMercator {
            central_meridian: 33,
            false_easting: FixedDecimal {
                negative: false,
                int_part: 169221,
                frac_digits: 9999999585,
                frac_width: 10,
            },
            false_northing: FixedDecimal {
                negative: true,
                int_part: 3325312,
                frac_digits: 9999999693,
                frac_width: 10,
            },
            scale_factor: standard_scale(),
        })
    } else {
        Err(ConversionError::UnknownTheatre(theatre.to_owned()))
    }
}

/// Every parameter record in the registry is well-formed.
pub proof fn lemma_registry_params_wf()
    ensures
        persian_gulf_params().wf(),
        falklands_params().wf(),
        caucasus_params().wf(),
        mariana_islands_params().wf(),
        nevada_params().wf(),
        normandy_params().wf(),
        syria_params().wf(),
        sinai_params().wf(),
{
    reveal_with_fuel(pow10, 12);
}

} // verus!

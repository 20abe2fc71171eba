use dcs_projections::ConversionError;
use dcs_projections::FixedDecimal;
use dcs_projections::TransverseMercator;
use dcs_projections::projection_from_theatre;

fn fixed(negative: bool, int_part: u64, frac_digits: u64, frac_width: u64) -> FixedDecimal {
    FixedDecimal { negative, int_part, frac_digits, frac_width }
}

fn scale() -> FixedDecimal {
    fixed(false, 0, 9996, 4)
}

#[test]
fn lookup_returns_exact_parameters_for_every_theatre() {
    let table: Vec<(&str, TransverseMercator)> = vec![
        (
            "PersianGulf",
            TransverseMercator {
                central_meridian: 57,
                false_easting: fixed(false, 75755, 99999999645, 11),
                false_northing: fixed(true, 2894933, 377, 10),
                scale_factor: scale(),
            },
        ),
        (
            "Falklands",
            TransverseMercator {
                central_meridian: -57,
                false_easting: fixed(false, 147639, 99999997593, 11),
                false_northing: fixed(false, 5815417, 32, 9),
                scale_factor: scale(),
            },
        ),
        (
            "Caucasus",
            TransverseMercator {
                central_meridian: 33,
                false_easting: fixed(true, 99516, 99999997322, 11),
                false_northing: fixed(true, 4998114, 999999984, 9),
                scale_factor: scale(),
            },
        ),
        (
            "MarianaIslands",
            TransverseMercator {
                central_meridian: 147,
                false_easting: fixed(false, 238417, 99999989968, 11),
                false_northing: fixed(true, 1491840, 48, 9),
                scale_factor: scale(),
            },
        ),
        (
            "Nevada",
            TransverseMercator {
                central_meridian: -117,
                false_easting: fixed(true, 193996, 80999964548, 11),
                false_northing: fixed(true, 4410028, 63999966, 9),
                scale_factor: scale(),
            },
        ),
        (
            "Normandy",
            TransverseMercator {
                central_meridian: -3,
                false_easting: fixed(true, 195526, 204, 11),
                false_northing: fixed(true, 5484812, 999999951, 9),
                scale_factor: scale(),
            },
        ),
        (
            "Syria",
            TransverseMercator {
                central_meridian: 39,
                false_easting: fixed(false, 282801, 3993, 11),
                false_northing: fixed(true, 3879865, 9999999935, 10),
                scale_factor: scale(),
            },
        ),
        (
            "SinaiMap",
            TransverseMercator {
                central_meridian: 33,
                false_easting: fixed(false, 169221, 9999999585, 10),
                false_northing: fixed(true, 3325312, 9999999693, 10),
                scale_factor: scale(),
            },
        ),
    ];
    for (name, expected) in table {
        let found = projection_from_theatre(name)
            .unwrap_or_else(|_| panic!("{} should be registered", name));
        assert_eq!(found, expected, "parameters differ for {}", name);
    }
}

#[test]
fn lookup_rejects_unknown_identifiers() {
    for name in ["Atlantis", "persiangulf", "PersianGulf ", "", "Moon"] {
        match projection_from_theatre(name) {
            Err(ConversionError::UnknownTheatre(id)) => assert_eq!(id, name),
            other => panic!("{:?} instead of UnknownTheatre for {:?}", other, name),
        }
    }
}

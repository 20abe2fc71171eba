use dcs_projections::projection_definition;
use dcs_projections::projection_from_theatre;
use dcs_projections::target_datum;

#[test]
fn definition_string_for_persian_gulf_is_exact() {
    let m = projection_from_theatre("PersianGulf").unwrap();
    assert_eq!(
        projection_definition(&m),
        "+proj=tmerc +lat_0=0 +lon_0=57 +k_0=0.9996 +x_0=75755.99999999645 +y_0=-2894933.0000000377"
    );
}

#[test]
fn definition_string_with_negative_meridian_is_exact() {
    let m = projection_from_theatre("Nevada").unwrap();
    assert_eq!(
        projection_definition(&m),
        "+proj=tmerc +lat_0=0 +lon_0=-117 +k_0=0.9996 +x_0=-193996.80999964548 +y_0=-4410028.063999966"
    );
}

#[test]
fn definition_strings_match_float_display_for_every_theatre() {
    // The fixed-decimal parameters must render exactly as the display form of
    // the corresponding binary floating-point constants, since that rendering
    // is the compatibility contract with the projection engine.
    let table: Vec<(&str, i16, f64, f64, f64)> = vec![
        ("PersianGulf", 57, 0.9996, 75755.99999999645, -2894933.0000000377),
        ("Falklands", -57, 0.9996, 147639.99999997593, 5815417.000000032),
        ("Caucasus", 33, 0.9996, -99516.99999997323, -4998114.999999984),
        ("MarianaIslands", 147, 0.9996, 238417.99999989968, -1491840.000000048),
        ("Nevada", -117, 0.9996, -193996.80999964548, -4410028.063999966),
        ("Normandy", -3, 0.9996, -195526.00000000204, -5484812.999999951),
        ("Syria", 39, 0.9996, 282801.00000003993, -3879865.9999999935),
        ("SinaiMap", 33, 0.9996, 169221.9999999585, -3325312.9999999693),
    ];
    for (name, meridian, k, x, y) in table {
        let m = projection_from_theatre(name).unwrap();
        let expected = format!(
            "+proj=tmerc +lat_0=0 +lon_0={} +k_0={} +x_0={} +y_0={}",
            meridian, k, x, y
        );
        assert_eq!(projection_definition(&m), expected, "definition differs for {}", name);
    }
}

#[test]
fn target_datum_is_wgs84() {
    assert_eq!(target_datum(), "WGS84");
}

use dcs_projections::DecimalAngle;
use dcs_projections::format_coordinate;
use dcs_projections::lat_lon_coordinate;

fn angle_from_degrees(degrees: f64) -> DecimalAngle {
    DecimalAngle { milliarcseconds: (degrees * 3_600_000.0).round() as i64 }
}

#[test]
fn coordinate_combines_both_axes() {
    let lat = angle_from_degrees(37.7749);
    let lon = angle_from_degrees(-122.4194);
    let coord = lat_lon_coordinate(lat, lon);
    assert_eq!(coord.lat_decimal, lat);
    assert_eq!(coord.lon_decimal, lon);
    assert_eq!(coord.lat_dms.degrees, 37);
    assert_eq!(coord.lat_dms.direction, 'N');
    assert_eq!(coord.lon_dms.degrees, 122);
    assert_eq!(coord.lon_dms.direction, 'W');
}

#[test]
fn coordinate_formats_lat_then_lon_with_one_space() {
    let coord = lat_lon_coordinate(angle_from_degrees(37.7749), angle_from_degrees(-122.4194));
    assert_eq!(
        format_coordinate(&coord),
        "37\u{00b0}46'29.640\"N 122\u{00b0}25'09.840\"W"
    );
}

#[test]
fn coordinate_of_converted_persian_gulf_point() {
    // Decimal angles as the forward conversion of planar
    // (-100594.371094, -88875.371094) in the PersianGulf theatre yields them.
    let coord = lat_lon_coordinate(angle_from_degrees(55.3652612), angle_from_degrees(25.25637587));
    assert_eq!(coord.lat_dms.degrees, 55);
    assert_eq!(coord.lat_dms.minutes, 21);
    assert_eq!(coord.lat_dms.direction, 'N');
    assert_eq!(coord.lon_dms.degrees, 25);
    assert_eq!(coord.lon_dms.minutes, 15);
    assert_eq!(coord.lon_dms.direction, 'E');
}

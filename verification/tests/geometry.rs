use gfx_window_any::geometry::LogicalSize;
use gfx_window_any::geometry::ScaleFactor;
use gfx_window_any::geometry::WindowTargets;
use gfx_window_any::geometry::SUBUNITS_PER_UNIT;

fn targets(size: LogicalSize, hidpi_factor: ScaleFactor) -> WindowTargets<u8, u8> {
    WindowTargets::new(0u8, 0u8, size, hidpi_factor)
}

#[test]
fn aspect_ratio_is_width_over_height() {
    // 1920 x 1080 logical units.
    let size = LogicalSize { width: 1920 * SUBUNITS_PER_UNIT, height: 1080 * SUBUNITS_PER_UNIT };
    let r = targets(size, ScaleFactor { units: SUBUNITS_PER_UNIT }).aspect_ratio();
    assert_eq!(r.numer, 1920 * SUBUNITS_PER_UNIT);
    assert_eq!(r.denom, 1080 * SUBUNITS_PER_UNIT);
    // As a rational, 1920:1080 cross-multiplies against 16:9.
    assert_eq!(r.numer as u128 * 9, r.denom as u128 * 16);
}

#[test]
fn aspect_ratio_of_noninteger_size() {
    // 800.5 x 600 logical units: the width is not a whole number of units.
    let width = 800 * SUBUNITS_PER_UNIT + SUBUNITS_PER_UNIT / 2;
    let size = LogicalSize { width, height: 600 * SUBUNITS_PER_UNIT };
    let r = targets(size, ScaleFactor { units: SUBUNITS_PER_UNIT }).aspect_ratio();
    assert_eq!(r.numer, 52461568);
    assert_eq!(r.denom, 39321600);
    // 800.5 / 600 == 1601 / 1200.
    assert_eq!(r.numer as u128 * 1200, r.denom as u128 * 1601);
}

#[test]
fn physical_size_is_logical_times_factor() {
    // 1920 x 1080 logical units at a factor of 1.5.
    let size = LogicalSize { width: 1920 * SUBUNITS_PER_UNIT, height: 1080 * SUBUNITS_PER_UNIT };
    let factor = ScaleFactor { units: SUBUNITS_PER_UNIT + SUBUNITS_PER_UNIT / 2 };
    let p = targets(size, factor).physical_size();
    assert_eq!(p.width, 12369505812480);
    assert_eq!(p.height, 6957847019520);
    // Read back in whole physical units: 2880 x 1620.
    let sub = SUBUNITS_PER_UNIT as u128;
    assert_eq!(p.width / (sub * sub), 2880);
    assert_eq!(p.height / (sub * sub), 1620);
}

#[test]
fn physical_size_at_unit_factor_is_identity() {
    let size = LogicalSize { width: 640 * SUBUNITS_PER_UNIT, height: 480 * SUBUNITS_PER_UNIT };
    let p = targets(size, ScaleFactor { units: SUBUNITS_PER_UNIT }).physical_size();
    assert_eq!(p.width, size.width as u128 * SUBUNITS_PER_UNIT as u128);
    assert_eq!(p.height, size.height as u128 * SUBUNITS_PER_UNIT as u128);
}

#[test]
fn physical_size_of_largest_values_does_not_overflow() {
    let size = LogicalSize { width: u64::MAX, height: u64::MAX };
    let p = targets(size, ScaleFactor { units: u64::MAX }).physical_size();
    assert_eq!(p.width, u64::MAX as u128 * u64::MAX as u128);
    assert_eq!(p.height, u64::MAX as u128 * u64::MAX as u128);
}

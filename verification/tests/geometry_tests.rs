use radar_chart::angle::axis_angle;
use radar_chart::fixed::scaled_radius;
use radar_chart::geometry::cardinal_dir;
use radar_chart::geometry::polar_to_cartesian;
use radar_chart::geometry::rot_back_quarter;
use radar_chart::geometry::rot_quarter;
use radar_chart::geometry::Cardinal;
use radar_chart::geometry::UnitDir;
use radar_chart::geometry::Vec2;
use radar_chart::sqrt::isqrt;

#[test]
fn utils_test_polar_to_cartesian() {
    // Center (100, 100), radius 10, in milli-units.
    let center = Vec2 {
        x: 100_000,
        y: 100_000,
    };

    // Right direction (0 degrees)
    let p = polar_to_cartesian(10_000, cardinal_dir(Cardinal::Right), center);
    assert_eq!(p.x / 1000, 110);
    assert_eq!(p.y / 1000, 100);

    // Up direction (270 degrees or -90 degrees)
    let p = polar_to_cartesian(10_000, cardinal_dir(Cardinal::Up), center);
    assert_eq!(p.x / 1000, 100);
    assert_eq!(p.y / 1000, 90);

    // Left direction (180 degrees)
    let p = polar_to_cartesian(10_000, cardinal_dir(Cardinal::Left), center);
    assert_eq!(p.x / 1000, 90);
    assert_eq!(p.y / 1000, 100);

    // Down direction (90 degrees)
    let p = polar_to_cartesian(10_000, cardinal_dir(Cardinal::Down), center);
    assert_eq!(p.x / 1000, 100);
    assert_eq!(p.y / 1000, 110);
}

#[test]
fn radar_graph_test_polar_to_cartesian() {
    let center = Vec2 {
        x: 100_000,
        y: 100_000,
    };

    let p = polar_to_cartesian(10_000, cardinal_dir(Cardinal::Right), center);
    assert_eq!((p.x, p.y), (110_000, 100_000));

    let p = polar_to_cartesian(10_000, cardinal_dir(Cardinal::Up), center);
    assert_eq!((p.x, p.y), (100_000, 90_000));

    let p = polar_to_cartesian(10_000, cardinal_dir(Cardinal::Left), center);
    assert_eq!((p.x, p.y), (90_000, 100_000));

    let p = polar_to_cartesian(10_000, cardinal_dir(Cardinal::Down), center);
    assert_eq!((p.x, p.y), (100_000, 110_000));
}

#[test]
fn cardinal_offsets_are_exact() {
    let center = Vec2 { x: 7000, y: -3000 };
    let r = 123_456;
    let right = polar_to_cartesian(r, cardinal_dir(Cardinal::Right), center);
    assert_eq!(right, Vec2 { x: center.x + r, y: center.y });
    let up = polar_to_cartesian(r, cardinal_dir(Cardinal::Up), center);
    assert_eq!(up, Vec2 { x: center.x, y: center.y - r });
    let left = polar_to_cartesian(r, cardinal_dir(Cardinal::Left), center);
    assert_eq!(left, Vec2 { x: center.x - r, y: center.y });
    let down = polar_to_cartesian(r, cardinal_dir(Cardinal::Down), center);
    assert_eq!(down, Vec2 { x: center.x, y: center.y + r });
}

#[test]
fn axis_angles_evenly_spaced() {
    // Five axes: angle i is (-90*5 + 360*i) / 5 degrees.
    let n = 5;
    let first = axis_angle(0, n);
    assert_eq!(first.num, -450);
    assert_eq!(first.den, 5);
    // -90 degrees exactly: num/den == -90.
    assert_eq!(first.num, -90 * first.den);
    for i in 0..n - 1 {
        let a = axis_angle(i, n);
        let b = axis_angle(i + 1, n);
        assert_eq!(b.num - a.num, 360);
        assert_eq!(a.den, b.den);
    }
    // Seven axes, where 360/7 is not a whole number of degrees.
    let a0 = axis_angle(0, 7);
    let a1 = axis_angle(1, 7);
    assert_eq!(a0.num, -630);
    assert_eq!(a1.num - a0.num, 360);
    assert_eq!(a1.den, 7);
}

#[test]
fn values_clamp_at_the_rim_and_the_center() {
    let radius = 80_000;
    let max = 100_000;
    // Twice the maximum renders exactly where the maximum does.
    assert_eq!(scaled_radius(radius, 200_000, max), scaled_radius(radius, max, max));
    assert_eq!(scaled_radius(radius, 200_000, max), radius);
    // A negative value renders at the center.
    assert_eq!(scaled_radius(radius, -50_000, max), 0);
    // An in-range value renders proportionally.
    assert_eq!(scaled_radius(radius, 50_000, max), 40_000);
}

#[test]
fn isqrt_exact_values() {
    assert_eq!(isqrt(0), 0);
    assert_eq!(isqrt(1), 1);
    assert_eq!(isqrt(3), 1);
    assert_eq!(isqrt(4), 2);
    assert_eq!(isqrt(144), 12);
    assert_eq!(isqrt(145), 12);
    assert_eq!(isqrt(25_000_000), 5_000);
}

#[test]
fn unit_dir_quarter_turns() {
    let up = UnitDir { ux: 0, uy: -1000 };
    // Up turned a quarter forward points right; a quarter back points left.
    assert_eq!(rot_quarter(up), UnitDir { ux: 1000, uy: 0 });
    assert_eq!(rot_back_quarter(up), UnitDir { ux: -1000, uy: 0 });
}

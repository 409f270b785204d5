use radar_chart::geometry::UnitDir;
use radar_chart::geometry::Vec2;
use radar_chart::path::build_smooth_path;
use radar_chart::path::PathCmd;

/// The smoothed path of `n` points is one closed subpath: a move to
/// point 0, exactly `n` cubic segments, the last ending back at point 0,
/// and a close.
fn assert_single_closed_subpath(pts: &Vec<Vec2>, dirs: &Vec<UnitDir>) {
    let n = pts.len();
    let cmds = build_smooth_path(pts, dirs);
    assert_eq!(cmds.len(), n + 2);
    assert_eq!(cmds[0], PathCmd::MoveTo(pts[0]));
    for i in 0..n {
        match cmds[i + 1] {
            PathCmd::CubicTo { end, .. } => assert_eq!(end, pts[(i + 1) % n]),
            ref other => panic!("segment {i} should be a cubic, got {other:?}"),
        }
    }
    match cmds[n] {
        PathCmd::CubicTo { end, .. } => assert_eq!(end, pts[0], "the path must close on point 0"),
        ref other => panic!("the last segment should be a cubic, got {other:?}"),
    }
    assert_eq!(cmds[n + 1], PathCmd::ClosePath);
}

#[test]
fn smooth_paths_are_single_closed_subpaths() {
    let up = UnitDir { ux: 0, uy: -1000 };
    let right = UnitDir { ux: 1000, uy: 0 };
    let down = UnitDir { ux: 0, uy: 1000 };
    let left = UnitDir { ux: -1000, uy: 0 };

    let one = vec![Vec2 { x: 5_000, y: 5_000 }];
    assert_single_closed_subpath(&one, &vec![up]);

    let triangle = vec![
        Vec2 { x: 100_000, y: 20_000 },
        Vec2 { x: 160_000, y: 140_000 },
        Vec2 { x: 40_000, y: 140_000 },
    ];
    let dirs3 = vec![up, UnitDir { ux: 866, uy: 500 }, UnitDir { ux: -866, uy: 500 }];
    assert_single_closed_subpath(&triangle, &dirs3);

    let square = vec![
        Vec2 { x: 100_000, y: 40_000 },
        Vec2 { x: 160_000, y: 100_000 },
        Vec2 { x: 100_000, y: 160_000 },
        Vec2 { x: 40_000, y: 100_000 },
    ];
    assert_single_closed_subpath(&square, &vec![up, right, down, left]);
}

#[test]
fn control_points_leave_along_the_tangents() {
    // Two points 120 units apart vertically; the control distance is
    // three tenths of the chord, 36 units, along the quarter-turned
    // axis directions.
    let pts = vec![Vec2 { x: 0, y: 0 }, Vec2 { x: 0, y: 120_000 }];
    let dirs = vec![UnitDir { ux: 0, uy: -1000 }, UnitDir { ux: 0, uy: 1000 }];
    let cmds = build_smooth_path(&pts, &dirs);
    match cmds[1] {
        PathCmd::CubicTo { c1, c2, end } => {
            assert_eq!(c1, Vec2 { x: 36_000, y: 0 });
            assert_eq!(c2, Vec2 { x: 36_000, y: 120_000 });
            assert_eq!(end, Vec2 { x: 0, y: 120_000 });
        }
        ref other => panic!("expected a cubic, got {other:?}"),
    }
}

#[test]
fn a_degenerate_chord_pins_the_controls_to_the_points() {
    // Two coincident points: chord 0, control distance 0.
    let pts = vec![Vec2 { x: 7_000, y: 7_000 }, Vec2 { x: 7_000, y: 7_000 }];
    let dirs = vec![UnitDir { ux: 0, uy: -1000 }, UnitDir { ux: 0, uy: 1000 }];
    let cmds = build_smooth_path(&pts, &dirs);
    match cmds[1] {
        PathCmd::CubicTo { c1, c2, end } => {
            assert_eq!(c1, pts[0]);
            assert_eq!(c2, pts[1]);
            assert_eq!(end, pts[1]);
        }
        ref other => panic!("expected a cubic, got {other:?}"),
    }
}

use radar_chart::axis::TextAnchor;
use radar_chart::axis::VertAlign;
use radar_chart::chart::RadarChart;
use radar_chart::chart::RadarContainerProps;
use radar_chart::data::DataPoint;
use radar_chart::data::RadarCurve;
use radar_chart::geometry::UnitDir;
use radar_chart::geometry::Vec2;
use radar_chart::path::PathCmd;
use radar_chart::scene::render_curve;
use radar_chart::scene::CurveRender;
use radar_chart::validate::validate;
use radar_chart::validate::RadarError;

fn point(label: &str, value: i64) -> DataPoint {
    DataPoint {
        value,
        label: label.to_string(),
    }
}

fn curve(name: &str, color: &str, values: &[(&str, i64)]) -> RadarCurve {
    RadarCurve {
        name: name.to_string(),
        color: color.to_string(),
        data_points: values.iter().map(|(l, v)| point(l, *v)).collect(),
    }
}

fn axes(list: &[&str]) -> Vec<String> {
    list.iter().map(|s| s.to_string()).collect()
}

#[test]
fn validation_reports_the_first_mismatched_curve() {
    // Three axes, a curve with two data points.
    let a = axes(&["Speed", "Power", "Range"]);
    let curves = vec![curve("Model A", "#3366CC", &[("Speed", 50_000), ("Power", 60_000)])];
    match validate(&a, &curves) {
        Err(RadarError::DataPointCountMismatch {
            curve_name,
            expected,
            actual,
        }) => {
            assert_eq!(curve_name, "Model A");
            assert_eq!(expected, 3);
            assert_eq!(actual, 2);
        }
        other => panic!("expected a count mismatch, got {other:?}"),
    }
}

#[test]
fn validation_rejects_empty_axes_and_empty_curves() {
    let no_axes: Vec<String> = Vec::new();
    let one = vec![curve("A", "#000", &[("x", 1_000)])];
    assert!(matches!(validate(&no_axes, &one), Err(RadarError::NoAxesProvided)));

    let a = axes(&["Speed"]);
    let none: Vec<RadarCurve> = Vec::new();
    assert!(matches!(validate(&a, &none), Err(RadarError::NoCurvesProvided)));

    assert!(validate(&a, &one).is_ok());
}

#[test]
fn props_new_applies_defaults_and_validates() {
    let props = RadarContainerProps::new(
        axes(&["Speed"]),
        vec![curve("A", "#000", &[("Speed", 10_000)])],
        None,
        None,
        None,
    )
    .expect("a well-shaped configuration");
    assert_eq!(props.max_value, 100_000);
    assert_eq!(props.width, 600);
    assert_eq!(props.height, 500);

    let err = RadarContainerProps::new(Vec::new(), Vec::new(), None, None, None);
    assert!(matches!(err, Err(RadarError::NoAxesProvided)));
}

#[test]
fn set_data_is_all_or_nothing() {
    let mut props = RadarContainerProps::new(
        axes(&["Speed", "Power"]),
        vec![curve("A", "#000", &[("Speed", 10_000), ("Power", 20_000)])],
        None,
        None,
        None,
    )
    .unwrap();
    // A mismatched replacement leaves everything as it was.
    let bad = props.set_data(
        axes(&["Speed", "Power", "Range"]),
        vec![curve("B", "#111", &[("Speed", 1_000)])],
    );
    assert!(matches!(
        bad,
        Err(RadarError::DataPointCountMismatch { expected: 3, actual: 1, .. })
    ));
    assert_eq!(props.axes().len(), 2);
    assert_eq!(props.curves()[0].name, "A");
    // A well-shaped replacement goes through whole.
    props
        .set_data(
            axes(&["Speed"]),
            vec![curve("B", "#111", &[("Speed", 1_000)])],
        )
        .expect("well-shaped data");
    assert_eq!(props.axes().len(), 1);
    assert_eq!(props.curves()[0].name, "B");
}

/// Axes `["Speed", "Power"]`, one curve with values 50 and 100 of 100,
/// rim radius 80: point 0 projects 40 above the center, point 1 a full
/// 80 below it.
#[test]
fn two_axis_chart_end_to_end() {
    // Width and height of 200 units put the center at (100, 100) and the
    // rim radius at 80 units.
    let props = RadarContainerProps::new(
        axes(&["Speed", "Power"]),
        vec![curve("Model A", "#3366CC", &[("Speed", 50_000), ("Power", 100_000)])],
        Some(100_000),
        Some(200),
        Some(200),
    )
    .unwrap();
    let chart = RadarChart::new(props);
    let (center, radius) = chart.frame();
    assert_eq!(center, Vec2 { x: 100_000, y: 100_000 });
    assert_eq!(radius, 80_000);

    // Axis 0 points straight up (-90 degrees), axis 1 straight down.
    let dirs = vec![UnitDir { ux: 0, uy: -1000 }, UnitDir { ux: 0, uy: 1000 }];
    let scene = chart.build_scene(&dirs, 5);

    assert_eq!(scene.curves.len(), 1);
    match &scene.curves[0] {
        CurveRender::Path { name, cmds, markers, .. } => {
            assert_eq!(name, "Model A");
            // Point 0: half the scale at radius 80 -> 40 above center.
            assert_eq!(markers[0].pos, Vec2 { x: 100_000, y: 60_000 });
            // Point 1: the full scale -> 80 below center.
            assert_eq!(markers[1].pos, Vec2 { x: 100_000, y: 180_000 });
            assert_eq!(markers[0].curve_index, 0);
            assert_eq!(markers[0].point_index, 0);
            assert_eq!(markers[1].point_index, 1);
            // One closed subpath: a move, one cubic per point, a close,
            // the last cubic ending back at point 0.
            assert_eq!(cmds.len(), 4);
            assert_eq!(cmds[0], PathCmd::MoveTo(Vec2 { x: 100_000, y: 60_000 }));
            // The chord between the points is 120 units, so the control
            // distance is three tenths of that: 36. The tangents at both
            // ends of the first segment point right, at both ends of the
            // second segment left.
            match cmds[1] {
                PathCmd::CubicTo { c1, c2, end } => {
                    assert_eq!(c1, Vec2 { x: 136_000, y: 60_000 });
                    assert_eq!(c2, Vec2 { x: 136_000, y: 180_000 });
                    assert_eq!(end, Vec2 { x: 100_000, y: 180_000 });
                }
                ref other => panic!("expected a cubic, got {other:?}"),
            }
            match cmds[2] {
                PathCmd::CubicTo { c1, c2, end } => {
                    assert_eq!(c1, Vec2 { x: 64_000, y: 180_000 });
                    assert_eq!(c2, Vec2 { x: 64_000, y: 60_000 });
                    assert_eq!(end, Vec2 { x: 100_000, y: 60_000 });
                }
                ref other => panic!("expected a cubic, got {other:?}"),
            }
            assert_eq!(cmds[3], PathCmd::ClosePath);
        }
        CurveRender::Diagnostic { name } => panic!("unexpected diagnostic for {name}"),
    }
}

#[test]
fn grid_rings_divide_radius_and_scale_evenly() {
    let props = RadarContainerProps::new(
        axes(&["Speed"]),
        vec![curve("A", "#000", &[("Speed", 10_000)])],
        Some(100_000),
        Some(200),
        Some(200),
    )
    .unwrap();
    let chart = RadarChart::new(props);
    let dirs = vec![UnitDir { ux: 0, uy: -1000 }];
    let scene = chart.build_scene(&dirs, 5);
    assert_eq!(scene.rings.len(), 5);
    for (k, ring) in scene.rings.iter().enumerate() {
        let level = k as i64 + 1;
        assert_eq!(ring.radius, 80_000 * level / 5);
        assert_eq!(ring.value, 100_000 * level / 5);
        // The label sits at the top of its ring.
        assert_eq!(ring.label_pos, Vec2 { x: 100_000, y: 100_000 - ring.radius });
    }
    // Zero levels mean no rings.
    let empty = chart.build_scene(&dirs, 0);
    assert!(empty.rings.is_empty());
}

#[test]
fn axis_labels_anchor_away_from_the_center() {
    let props = RadarContainerProps::new(
        axes(&["N", "E", "S", "W"]),
        vec![curve(
            "A",
            "#000",
            &[("N", 1_000), ("E", 1_000), ("S", 1_000), ("W", 1_000)],
        )],
        Some(100_000),
        Some(200),
        Some(200),
    )
    .unwrap();
    let chart = RadarChart::new(props);
    // Up, right, down, left.
    let dirs = vec![
        UnitDir { ux: 0, uy: -1000 },
        UnitDir { ux: 1000, uy: 0 },
        UnitDir { ux: 0, uy: 1000 },
        UnitDir { ux: -1000, uy: 0 },
    ];
    let scene = chart.build_scene(&dirs, 5);
    assert_eq!(scene.spokes.len(), 4);
    // The label sits a tenth past the rim: radius 80 -> 88 units out.
    assert_eq!(scene.spokes[0].end, Vec2 { x: 100_000, y: 20_000 });
    assert_eq!(scene.spokes[0].label_pos, Vec2 { x: 100_000, y: 12_000 });
    // Top: horizontally centered, raised above.
    assert_eq!(scene.spokes[0].anchor, TextAnchor::Middle);
    assert_eq!(scene.spokes[0].valign, VertAlign::Above);
    // Right: anchored at its start, vertically centered.
    assert_eq!(scene.spokes[1].anchor, TextAnchor::Start);
    assert_eq!(scene.spokes[1].valign, VertAlign::Middle);
    // Bottom: dropped below.
    assert_eq!(scene.spokes[2].anchor, TextAnchor::Middle);
    assert_eq!(scene.spokes[2].valign, VertAlign::Below);
    // Left: anchored at its end.
    assert_eq!(scene.spokes[3].anchor, TextAnchor::End);
    assert_eq!(scene.spokes[3].valign, VertAlign::Middle);
    assert_eq!(scene.spokes[3].label, "W");
}

#[test]
fn a_mismatched_curve_degrades_to_a_diagnostic_alone() {
    // Two axes; one curve carries only one point - say, after an
    // unchecked mutation slipped past the initial validation.
    let center = Vec2 { x: 100_000, y: 100_000 };
    let radius = 80_000;
    let dirs = vec![UnitDir { ux: 0, uy: -1000 }, UnitDir { ux: 0, uy: 1000 }];
    let bad = curve("Bad", "#000", &[("Speed", 10_000)]);
    let good = curve("Good", "#111", &[("Speed", 10_000), ("Power", 20_000)]);
    match render_curve(&bad, 0, 2, &dirs, center, radius, 100_000) {
        CurveRender::Diagnostic { name } => assert_eq!(name, "Bad"),
        CurveRender::Path { .. } => panic!("a mismatched curve must not draw a path"),
    }
    // The healthy curve still renders normally: the failure is isolated.
    assert!(matches!(
        render_curve(&good, 1, 2, &dirs, center, radius, 100_000),
        CurveRender::Path { .. }
    ));
}

#[test]
fn hidden_curves_leave_the_scene_but_keep_their_index() {
    let props = RadarContainerProps::new(
        axes(&["Speed"]),
        vec![
            curve("A", "#000", &[("Speed", 10_000)]),
            curve("B", "#111", &[("Speed", 20_000)]),
        ],
        Some(100_000),
        Some(200),
        Some(200),
    )
    .unwrap();
    let mut chart = RadarChart::new(props);
    chart.toggle_curve(&"A".to_string());
    let visible = chart.visible_curves();
    assert_eq!(visible.len(), 1);
    assert_eq!(visible[0].name, "B");
    let dirs = vec![UnitDir { ux: 0, uy: -1000 }];
    let scene = chart.build_scene(&dirs, 5);
    assert_eq!(scene.curves.len(), 1);
    match &scene.curves[0] {
        CurveRender::Path { name, markers, .. } => {
            assert_eq!(name, "B");
            // The marker still addresses curve 1 of the configuration.
            assert_eq!(markers[0].curve_index, 1);
        }
        CurveRender::Diagnostic { name } => panic!("unexpected diagnostic for {name}"),
    }
    // Toggling back restores the scene.
    chart.toggle_curve(&"A".to_string());
    assert_eq!(chart.visible_curves().len(), 2);
}

#[test]
fn replacing_data_reconciles_visibility_by_name() {
    let props = RadarContainerProps::new(
        axes(&["Speed"]),
        vec![
            curve("A", "#000", &[("Speed", 10_000)]),
            curve("B", "#111", &[("Speed", 20_000)]),
        ],
        None,
        None,
        None,
    )
    .unwrap();
    let mut chart = RadarChart::new(props);
    chart.toggle_curve(&"A".to_string());
    chart
        .set_data(
            axes(&["Speed"]),
            vec![
                curve("A", "#000", &[("Speed", 11_000)]),
                curve("C", "#222", &[("Speed", 30_000)]),
            ],
        )
        .unwrap();
    // A kept its hidden flag; the new C starts visible; B is gone.
    let visible = chart.visible_curves();
    assert_eq!(visible.len(), 1);
    assert_eq!(visible[0].name, "C");
}

#[test]
fn out_of_range_point_edits_are_silent_no_ops() {
    let props = RadarContainerProps::new(
        axes(&["Speed"]),
        vec![curve("A", "#000", &[("Speed", 10_000)])],
        None,
        None,
        None,
    )
    .unwrap();
    let mut chart = RadarChart::new(props);
    chart.set_data_point_value(5, 0, 99_000);
    chart.set_data_point_value(0, 7, 99_000);
    assert_eq!(chart.config().curves()[0].data_points[0].value, 10_000);
    chart.set_data_point_value(0, 0, 99_000);
    assert_eq!(chart.config().curves()[0].data_points[0].value, 99_000);
}

#[test]
fn an_edit_commits_into_the_configuration() {
    let props = RadarContainerProps::new(
        axes(&["Speed", "Power"]),
        vec![curve("Model A", "#3366CC", &[("Speed", 50_000), ("Power", 100_000)])],
        Some(100_000),
        Some(200),
        Some(200),
    )
    .unwrap();
    let mut chart = RadarChart::new(props);
    let pos = Vec2 { x: 100_000, y: 60_000 };
    chart.point_pointer_enter(0, 0, pos);
    chart.point_click(0, 0, pos);
    chart.start_edit();
    chart.set_edit_input("60".to_string());
    let commit = chart.commit_edit().expect("a numeric commit");
    assert_eq!((commit.curve_index, commit.point_index, commit.value), (0, 0, 60_000));
    assert_eq!(chart.config().curves()[0].data_points[0].value, 60_000);
    let tooltip = chart.tooltip_machine().state.as_ref().unwrap();
    assert_eq!(tooltip.value, 60_000);
    assert_eq!(tooltip.label, "Speed: 60");
    assert!(tooltip.pinned);
    assert!(!tooltip.editing);
}

#[test]
fn a_failed_edit_leaves_the_configuration_alone() {
    let props = RadarContainerProps::new(
        axes(&["Speed"]),
        vec![curve("A", "#000", &[("Speed", 10_000)])],
        None,
        None,
        None,
    )
    .unwrap();
    let mut chart = RadarChart::new(props);
    let pos = Vec2 { x: 0, y: 0 };
    chart.point_click(0, 0, pos);
    chart.start_edit();
    chart.set_edit_input("not a number".to_string());
    assert!(chart.commit_edit().is_none());
    assert_eq!(chart.config().curves()[0].data_points[0].value, 10_000);
    let tooltip = chart.tooltip_machine().state.as_ref().unwrap();
    assert!(tooltip.pinned);
    assert!(!tooltip.editing);
}

#[test]
fn legend_rows_mirror_curves_and_flags() {
    let props = RadarContainerProps::new(
        axes(&["Speed"]),
        vec![
            curve("A", "#000", &[("Speed", 10_000)]),
            curve("B", "#111", &[("Speed", 20_000)]),
        ],
        None,
        None,
        None,
    )
    .unwrap();
    let mut chart = RadarChart::new(props);
    chart.toggle_curve(&"B".to_string());
    let rows = chart.legend_entries();
    assert_eq!(rows.len(), 2);
    assert_eq!((rows[0].name.as_str(), rows[0].color.as_str(), rows[0].visible), ("A", "#000", true));
    assert_eq!((rows[1].name.as_str(), rows[1].color.as_str(), rows[1].visible), ("B", "#111", false));
}

#[test]
fn the_scene_carries_the_active_tooltip() {
    let props = RadarContainerProps::new(
        axes(&["Speed"]),
        vec![curve("A", "#000", &[("Speed", 70_000)])],
        Some(100_000),
        Some(200),
        Some(200),
    )
    .unwrap();
    let mut chart = RadarChart::new(props);
    let dirs = vec![UnitDir { ux: 0, uy: -1000 }];
    assert!(chart.build_scene(&dirs, 5).tooltip.is_none());
    chart.point_pointer_enter(0, 0, Vec2 { x: 100_000, y: 44_000 });
    let overlay = chart.build_scene(&dirs, 5).tooltip.expect("a hover shows a tooltip");
    assert_eq!(overlay.label, "Speed: 70");
    assert_eq!((overlay.x, overlay.y), (100_000, 44_000));
}

#[test]
fn tooltip_payload_joins_label_and_value() {
    let props = RadarContainerProps::new(
        axes(&["Speed"]),
        vec![curve("A", "#abc", &[("Speed", 70_000)])],
        None,
        None,
        None,
    )
    .unwrap();
    let mut chart = RadarChart::new(props);
    chart.point_pointer_enter(0, 0, Vec2 { x: 1_000, y: 2_000 });
    let tooltip = chart.tooltip_machine().state.as_ref().unwrap();
    assert_eq!(tooltip.label, "Speed: 70");
    assert_eq!(tooltip.color, "#abc");
    assert_eq!((tooltip.x, tooltip.y), (1_000, 2_000));
    assert!(!tooltip.pinned);
}

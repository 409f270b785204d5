use radar_chart::tooltip::TooltipData;
use radar_chart::tooltip::TooltipMachine;

fn payload(curve: usize, point: usize, label: &str, value: i64) -> TooltipData {
    TooltipData {
        curve_index: curve,
        point_index: point,
        label: label.to_string(),
        value,
        x: 100_000,
        y: 60_000,
        color: "#3366CC".to_string(),
        pinned: false,
        editing: false,
    }
}

fn active(machine: &TooltipMachine) -> &TooltipData {
    machine.state.as_ref().expect("a tooltip should be active")
}

#[test]
fn hovering_shows_and_leaving_hides() {
    let mut m = TooltipMachine::new();
    m.pointer_enter(payload(0, 1, "Speed: 70", 70_000));
    assert_eq!(active(&m).point_index, 1);
    assert!(!active(&m).pinned);
    m.pointer_leave();
    assert!(m.state.is_none());
}

#[test]
fn a_pin_survives_pointer_leave() {
    let mut m = TooltipMachine::new();
    m.pointer_enter(payload(0, 1, "Speed: 70", 70_000));
    m.click(payload(0, 1, "Speed: 70", 70_000));
    assert!(active(&m).pinned);
    m.pointer_leave();
    assert!(active(&m).pinned, "pin must survive pointer-leave");
}

#[test]
fn pin_blocks_hover_and_only_a_click_moves_it() {
    let mut m = TooltipMachine::new();
    m.click(payload(0, 1, "Speed: 70", 70_000));
    assert!(active(&m).pinned);
    // Hovering another point changes nothing while a pin is held.
    m.pointer_enter(payload(1, 2, "Power: 85", 85_000));
    assert_eq!(active(&m).curve_index, 0);
    assert_eq!(active(&m).point_index, 1);
    assert!(active(&m).pinned);
    // A click on the other point moves the pin there.
    m.click(payload(1, 2, "Power: 85", 85_000));
    assert_eq!(active(&m).curve_index, 1);
    assert_eq!(active(&m).point_index, 2);
    assert!(active(&m).pinned);
}

#[test]
fn clicking_the_pinned_point_unpins() {
    let mut m = TooltipMachine::new();
    m.click(payload(0, 1, "Speed: 70", 70_000));
    m.click(payload(0, 1, "Speed: 70", 70_000));
    assert!(m.state.is_none());
}

#[test]
fn editing_starts_from_the_current_value() {
    let mut m = TooltipMachine::new();
    m.click(payload(0, 1, "Speed: 70", 70_000));
    m.start_edit();
    assert!(active(&m).editing);
    assert_eq!(m.buffer, "70");
}

#[test]
fn editing_is_only_reachable_while_pinned() {
    let mut m = TooltipMachine::new();
    m.pointer_enter(payload(0, 1, "Speed: 70", 70_000));
    m.start_edit();
    assert!(!active(&m).editing);
}

#[test]
fn committing_a_decimal_updates_value_and_label() {
    let mut m = TooltipMachine::new();
    m.click(payload(0, 1, "Speed: 70", 70_000));
    m.start_edit();
    m.set_input("42.5".to_string());
    let commit = m.commit().expect("a numeric commit should report back");
    assert_eq!(commit.curve_index, 0);
    assert_eq!(commit.point_index, 1);
    assert_eq!(commit.value, 42_500);
    assert_eq!(active(&m).value, 42_500);
    assert_eq!(active(&m).label, "Speed: 42.5");
    assert!(active(&m).pinned);
    assert!(!active(&m).editing);
}

#[test]
fn committing_non_numeric_input_reverts_and_pins() {
    let mut m = TooltipMachine::new();
    m.click(payload(0, 1, "Speed: 70", 70_000));
    m.start_edit();
    m.set_input("abc".to_string());
    let commit = m.commit();
    assert!(commit.is_none(), "no value change may be reported");
    assert_eq!(active(&m).value, 70_000, "the value must stay what it was");
    assert!(active(&m).pinned);
    assert!(!active(&m).editing, "the machine must land in pinned, not editing");
    assert_eq!(m.buffer, "70", "the buffer reverts to the pre-edit value");
}

#[test]
fn blur_commits_like_an_explicit_commit() {
    let mut m = TooltipMachine::new();
    m.click(payload(0, 1, "Speed: 70", 70_000));
    m.start_edit();
    m.set_input("55".to_string());
    let commit = m.blur().expect("blur with a numeric buffer commits");
    assert_eq!(commit.value, 55_000);
    assert_eq!(active(&m).value, 55_000);
    assert!(!active(&m).editing);
}

#[test]
fn cancel_keeps_the_value() {
    let mut m = TooltipMachine::new();
    m.click(payload(0, 1, "Speed: 70", 70_000));
    m.start_edit();
    m.set_input("999".to_string());
    m.cancel();
    assert_eq!(active(&m).value, 70_000);
    assert!(active(&m).pinned);
    assert!(!active(&m).editing);
    assert_eq!(m.buffer, "70");
}

#[test]
fn moving_the_pin_resets_the_edit_identity() {
    let mut m = TooltipMachine::new();
    m.click(payload(0, 0, "Speed: 70", 70_000));
    m.start_edit();
    m.set_input("1".to_string());
    // Clicking a different point while the edit box is open moves the pin
    // and closes the edit; a fresh edit starts from the new point's value.
    m.click(payload(1, 1, "Power: 85", 85_000));
    assert!(!active(&m).editing);
    m.start_edit();
    assert_eq!(m.buffer, "85", "the buffer must not leak across data points");
}

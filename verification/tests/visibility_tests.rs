use radar_chart::visibility::VisibilityMap;

fn names(list: &[&str]) -> Vec<String> {
    list.iter().map(|s| s.to_string()).collect()
}

fn entries(map: &VisibilityMap) -> Vec<(String, bool)> {
    map.entries
        .iter()
        .map(|e| (e.name.clone(), e.visible))
        .collect()
}

#[test]
fn toggling_twice_restores_the_registry() {
    let mut map = VisibilityMap::new_all_visible(&names(&["A", "B", "C"]));
    let before = entries(&map);
    let name = "B".to_string();
    map.toggle(&name);
    assert_eq!(entries(&map)[1], ("B".to_string(), false));
    map.toggle(&name);
    assert_eq!(entries(&map), before);
}

#[test]
fn toggling_flips_only_the_named_curve() {
    let mut map = VisibilityMap::new_all_visible(&names(&["A", "B"]));
    map.toggle(&"A".to_string());
    assert_eq!(
        entries(&map),
        vec![("A".to_string(), false), ("B".to_string(), true)]
    );
}

#[test]
fn reconciliation_preserves_known_flags() {
    // Registry {A: false, B: true}; new curve set [A, C].
    let mut map = VisibilityMap::new_all_visible(&names(&["A", "B"]));
    map.toggle(&"A".to_string());
    map.reconcile(&names(&["A", "C"]));
    assert_eq!(
        entries(&map),
        vec![("A".to_string(), false), ("C".to_string(), true)]
    );
}

#[test]
fn reconciliation_with_unchanged_names_keeps_the_registry() {
    let mut map = VisibilityMap::new_all_visible(&names(&["A", "B"]));
    map.toggle(&"B".to_string());
    let before = entries(&map);
    map.reconcile(&names(&["A", "B"]));
    assert_eq!(entries(&map), before);
}

#[test]
fn unknown_names_look_up_visible() {
    let map = VisibilityMap::new_all_visible(&names(&["A"]));
    assert!(map.lookup(&"Z".to_string()));
    assert!(map.lookup(&"A".to_string()));
}

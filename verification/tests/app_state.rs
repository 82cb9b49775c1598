use tempmon::app_state::{AppState, SensorReading, ThermalStatus, HISTORY};

fn reading(celsius: Option<i32>, critical: Option<i32>) -> SensorReading {
    SensorReading { label: "s".to_string(), celsius, critical, max_seen: 0 }
}

fn raw(label: &str, celsius: Option<i32>, critical: Option<i32>) -> (String, Option<i32>, Option<i32>) {
    (label.to_string(), celsius, critical)
}

#[test]
fn status_bands_with_default_critical() {
    assert_eq!(reading(None, None).status(), ThermalStatus::Unknown);
    assert_eq!(reading(Some(-5_000), None).status(), ThermalStatus::Cool);
    assert_eq!(reading(Some(59_999), None).status(), ThermalStatus::Cool);
    assert_eq!(reading(Some(60_000), None).status(), ThermalStatus::Warm);
    assert_eq!(reading(Some(79_999), None).status(), ThermalStatus::Warm);
    assert_eq!(reading(Some(80_000), None).status(), ThermalStatus::Hot);
    assert_eq!(reading(Some(89_999), None).status(), ThermalStatus::Hot);
    assert_eq!(reading(Some(90_000), None).status(), ThermalStatus::Critical);
}

#[test]
fn status_uses_reported_critical_level() {
    assert_eq!(reading(Some(75_000), Some(70_000)).status(), ThermalStatus::Critical);
    assert_eq!(reading(Some(95_000), Some(100_000)).status(), ThermalStatus::Hot);
    assert_eq!(reading(Some(100_000), Some(100_000)).status(), ThermalStatus::Critical);
    assert_eq!(reading(None, Some(10_000)).status(), ThermalStatus::Unknown);
}

#[test]
fn new_state_is_empty() {
    let s = AppState::new();
    assert!(s.sensors.is_empty());
    assert_eq!(s.tick, 0);
    assert!(!s.should_quit);
    assert_eq!(s.selected_idx, 0);
    assert!(s.temp_history.is_empty());
    assert!(s.sensor_max.is_empty());
}

#[test]
fn update_builds_sensors_and_counts_ticks() {
    let mut s = AppState::new();
    s.update(vec![raw("cpu", Some(45_000), Some(95_000)), raw("gpu", None, None)]);
    assert_eq!(s.tick, 1);
    assert_eq!(s.sensors.len(), 2);
    assert_eq!(s.sensors[0].label, "cpu");
    assert_eq!(s.sensors[0].celsius, Some(45_000));
    assert_eq!(s.sensors[0].critical, Some(95_000));
    assert_eq!(s.sensors[0].max_seen, 45_000);
    assert_eq!(s.sensors[1].label, "gpu");
    assert_eq!(s.sensors[1].max_seen, 0);
    assert_eq!(s.sensor_max, vec![45_000, 0]);
    assert_eq!(s.temp_history.iter().copied().collect::<Vec<i32>>(), vec![45_000]);
}

#[test]
fn update_keeps_peaks_when_temperature_falls() {
    let mut s = AppState::new();
    s.update(vec![raw("a", Some(50_000), None)]);
    s.update(vec![raw("a", Some(40_000), None)]);
    assert_eq!(s.sensors[0].celsius, Some(40_000));
    assert_eq!(s.sensors[0].max_seen, 50_000);
    s.update(vec![raw("a", Some(61_000), None)]);
    assert_eq!(s.sensors[0].max_seen, 61_000);
    assert_eq!(s.tick, 3);
}

#[test]
fn update_keeps_peaks_of_slots_no_longer_read() {
    let mut s = AppState::new();
    s.update(vec![raw("a", Some(10_000), None), raw("b", Some(20_000), None)]);
    s.update(vec![raw("a", Some(5_000), None)]);
    assert_eq!(s.sensors.len(), 1);
    assert_eq!(s.sensor_max, vec![10_000, 20_000]);
    s.update(vec![raw("a", None, None), raw("b", Some(1_000), None), raw("c", Some(-3_000), None)]);
    assert_eq!(s.sensor_max, vec![10_000, 20_000, 0]);
    assert_eq!(s.sensors[2].max_seen, 0);
}

#[test]
fn update_samples_zero_without_selected_temperature() {
    let mut s = AppState::new();
    s.update(vec![raw("a", None, None)]);
    s.selected_idx = 4;
    s.update(vec![raw("a", Some(30_000), None)]);
    assert_eq!(s.temp_history.iter().copied().collect::<Vec<i32>>(), vec![0, 0]);
}

#[test]
fn history_keeps_the_last_sixty_samples() {
    let mut s = AppState::new();
    for i in 0..(HISTORY as i32 + 5) {
        s.update(vec![raw("a", Some(i), None)]);
        assert!(s.temp_history.len() <= HISTORY);
    }
    assert_eq!(s.temp_history.len(), HISTORY);
    assert_eq!(*s.temp_history.front().unwrap(), 5);
    assert_eq!(*s.temp_history.back().unwrap(), HISTORY as i32 + 4);
}

#[test]
fn select_next_wraps_and_clears_history() {
    let mut s = AppState::new();
    s.update(vec![raw("a", Some(1), None), raw("b", Some(2), None), raw("c", Some(3), None)]);
    assert_eq!(s.temp_history.len(), 1);
    s.select_next();
    assert_eq!(s.selected_idx, 1);
    assert!(s.temp_history.is_empty());
    s.select_next();
    s.select_next();
    assert_eq!(s.selected_idx, 0);
}

#[test]
fn select_prev_wraps_and_clears_history() {
    let mut s = AppState::new();
    s.update(vec![raw("a", Some(1), None), raw("b", Some(2), None), raw("c", Some(3), None)]);
    s.select_prev();
    assert_eq!(s.selected_idx, 2);
    assert!(s.temp_history.is_empty());
    s.select_prev();
    assert_eq!(s.selected_idx, 1);
}

#[test]
fn selection_without_sensors_changes_nothing() {
    let mut s = AppState::new();
    s.temp_history.push_back(7);
    s.select_next();
    s.select_prev();
    assert_eq!(s.selected_idx, 0);
    assert_eq!(s.temp_history.len(), 1);
}

#[test]
fn stale_selection_moves_like_the_formulas() {
    let mut s = AppState::new();
    s.update(vec![raw("a", None, None), raw("b", None, None), raw("c", None, None)]);
    s.selected_idx = 5;
    s.select_next();
    assert_eq!(s.selected_idx, 0);
    s.selected_idx = 5;
    s.select_prev();
    assert_eq!(s.selected_idx, 4);
    s.selected_idx = usize::MAX;
    s.select_next();
    assert_eq!(s.selected_idx, ((usize::MAX % 3) + 1) % 3);
}

#[test]
fn next_then_prev_returns_to_start() {
    let mut s = AppState::new();
    s.update(vec![raw("a", None, None), raw("b", None, None), raw("c", None, None), raw("d", None, None)]);
    for start in 0..4 {
        s.selected_idx = start;
        s.select_next();
        s.select_prev();
        assert_eq!(s.selected_idx, start);
        s.select_prev();
        s.select_next();
        assert_eq!(s.selected_idx, start);
    }
}

#[test]
fn has_critical_sees_any_critical_sensor() {
    let mut s = AppState::new();
    s.update(vec![raw("a", Some(50_000), None), raw("b", None, None)]);
    assert!(!s.has_critical());
    s.update(vec![raw("a", Some(50_000), None), raw("b", Some(71_000), Some(70_000))]);
    assert!(s.has_critical());
    let empty = AppState::new();
    assert!(!empty.has_critical());
}

#[test]
fn hottest_is_the_last_of_the_hottest() {
    let mut s = AppState::new();
    s.update(vec![
        raw("a", Some(50_000), None),
        raw("b", None, None),
        raw("c", Some(70_000), None),
        raw("d", Some(70_000), None),
        raw("e", Some(60_000), None),
    ]);
    assert_eq!(s.hottest().unwrap().label, "d");
}

#[test]
fn hottest_is_none_without_temperatures() {
    let mut s = AppState::new();
    assert!(s.hottest().is_none());
    s.update(vec![raw("a", None, None), raw("b", None, None)]);
    assert!(s.hottest().is_none());
    s.update(vec![raw("a", None, None), raw("b", Some(-10_000), None)]);
    assert_eq!(s.hottest().unwrap().label, "b");
}

fn consistent(s: &AppState) -> bool {
    let peak = s.sensor_max.get(s.selected_idx).copied().unwrap_or(0);
    s.sensors.len() <= s.sensor_max.len()
        && s.sensors.iter().zip(&s.sensor_max).all(|(r, m)| r.max_seen == *m)
        && s.sensor_max.iter().all(|m| *m >= 0)
        && s.temp_history.len() <= HISTORY
        && s.temp_history.iter().all(|v| *v <= peak)
}

#[test]
fn every_operation_keeps_the_state_consistent() {
    let mut s = AppState::new();
    assert!(consistent(&s));
    s.update(vec![raw("a", Some(-20_000), None), raw("b", Some(70_000), None)]);
    assert!(consistent(&s));
    s.select_next();
    s.update(vec![raw("a", Some(10_000), None), raw("b", Some(50_000), None)]);
    assert!(consistent(&s));
    s.update(vec![raw("a", Some(10_000), None)]);
    assert!(consistent(&s));
    s.select_prev();
    s.update(vec![raw("a", None, None), raw("b", Some(90_000), None), raw("c", Some(1_000), None)]);
    assert!(consistent(&s));
    assert_eq!(s.sensor_max, vec![10_000, 90_000, 1_000]);
    assert_eq!(s.sensors[1].max_seen, 90_000);
}

#[test]
fn peak_is_the_running_maximum_of_a_slot() {
    let mut s = AppState::new();
    let series = [Some(30_000), None, Some(55_000), Some(20_000), None];
    let mut expected = 0;
    for t in series {
        s.update(vec![raw("a", t, None)]);
        if let Some(v) = t {
            expected = expected.max(v);
        }
        assert_eq!(s.sensors[0].max_seen, expected);
    }
}

#[test]
fn n_moves_cycle_through_all_sensors() {
    let mut s = AppState::new();
    s.update(vec![raw("a", None, None), raw("b", None, None), raw("c", None, None)]);
    s.selected_idx = 1;
    let mut seen = vec![s.selected_idx];
    for _ in 0..2 {
        s.select_next();
        assert_ne!(s.selected_idx, 1);
        seen.push(s.selected_idx);
    }
    s.select_next();
    assert_eq!(s.selected_idx, 1);
    seen.sort();
    assert_eq!(seen, vec![0, 1, 2]);
}

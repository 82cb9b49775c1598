use tempmon::app_state::{AppState, SensorReading, ThermalStatus};
use tempmon::ui::{
    chart_view, fill_cells, footer_text, gauge_view, header_view, list_title, sensor_row,
    sensor_rows, share, status_color, status_text, temperature_bar, Color,
};

fn sensor(label: &str, celsius: Option<i32>, critical: Option<i32>, max_seen: i32) -> SensorReading {
    SensorReading { label: label.to_string(), celsius, critical, max_seen }
}

#[test]
fn colors_of_statuses() {
    assert_eq!(status_color(&ThermalStatus::Cool), Color::Cyan);
    assert_eq!(status_color(&ThermalStatus::Warm), Color::Green);
    assert_eq!(status_color(&ThermalStatus::Hot), Color::Yellow);
    assert_eq!(status_color(&ThermalStatus::Critical), Color::Red);
    assert_eq!(status_color(&ThermalStatus::Unknown), Color::DarkGray);
}

#[test]
fn captions_of_statuses() {
    assert_eq!(status_text(&ThermalStatus::Cool), "✓ Normal");
    assert_eq!(status_text(&ThermalStatus::Warm), "~ Ilık");
    assert_eq!(status_text(&ThermalStatus::Hot), "⚡ Sıcak");
    assert_eq!(status_text(&ThermalStatus::Critical), "⚠ KRİTİK");
    assert_eq!(status_text(&ThermalStatus::Unknown), "? Bilinmiyor");
}

#[test]
fn fill_cells_share_of_critical_level() {
    assert_eq!(fill_cells(45_000, 90_000, 10), 5);
    assert_eq!(fill_cells(89_999, 90_000, 10), 9);
    assert_eq!(fill_cells(90_000, 90_000, 10), 10);
    assert_eq!(fill_cells(95_000, 90_000, 10), 10);
    assert_eq!(fill_cells(0, 90_000, 10), 0);
    assert_eq!(fill_cells(-1, 90_000, 10), 0);
    assert_eq!(fill_cells(45_500, 90_000, 1000), 505);
}

#[test]
fn fill_cells_odd_critical_levels() {
    assert_eq!(fill_cells(1, 0, 10), 10);
    assert_eq!(fill_cells(0, 0, 10), 0);
    assert_eq!(fill_cells(-1, 0, 10), 0);
    assert_eq!(fill_cells(45_000, -90_000, 10), 0);
    assert_eq!(fill_cells(-45_000, -90_000, 10), 5);
    assert_eq!(fill_cells(i32::MAX, i32::MIN, u32::MAX), 0);
    assert_eq!(fill_cells(i32::MAX - 1, i32::MAX, u32::MAX), u32::MAX - 3);
}

#[test]
fn bars() {
    assert_eq!(temperature_bar(Some(45_000), None), "[█████░░░░░]");
    assert_eq!(temperature_bar(Some(100_000), Some(90_000)), "[██████████]");
    assert_eq!(temperature_bar(Some(-3_000), None), "[░░░░░░░░░░]");
    assert_eq!(temperature_bar(None, Some(90_000)), "[──────────]");
}

#[test]
fn row_of_selected_sensor() {
    let row = sensor_row(&sensor("CPU", Some(45_500), None, 50_000), true);
    assert_eq!(row.line, "▶   45.5°C [█████░░░░░] ↑50°");
    assert_eq!(row.label, "   CPU");
    assert_eq!(row.color, Color::Cyan);
    assert_eq!(row.label_color, Color::White);
    assert!(row.selected);
}

#[test]
fn row_of_unread_sensor() {
    let row = sensor_row(&sensor("a very long sensor label that goes on", None, None, 0), false);
    assert_eq!(row.line, "      N/A  [──────────]       ");
    assert_eq!(row.label, "   a very long sensor label that…");
    assert_eq!(row.color, Color::DarkGray);
    assert_eq!(row.label_color, Color::DarkGray);
    assert!(!row.selected);
}

#[test]
fn rows_mark_the_selection() {
    let mut s = AppState::new();
    s.update(vec![("a".to_string(), Some(85_000), None), ("b".to_string(), Some(95_000), None)]);
    s.select_next();
    let rows = sensor_rows(&s);
    assert_eq!(rows.len(), 2);
    assert!(!rows[0].selected);
    assert!(rows[1].selected);
    assert_eq!(rows[0].color, Color::Yellow);
    assert_eq!(rows[1].color, Color::Red);
    assert_eq!(rows[1].line, "▶   95.0°C [██████████] ↑95°");
}

#[test]
fn titles_and_footer() {
    assert_eq!(list_title(3), " 🌡 Sensörler (3)  [↑↓ seç] ");
    assert_eq!(footer_text(2), "  [↑↓ / j k] Sensör seç  │  2 sensör  │  [Q] Çıkış");
}

#[test]
fn header_with_alert() {
    let mut s = AppState::new();
    s.update(vec![("a".to_string(), Some(45_500), None), ("b".to_string(), Some(71_000), Some(70_000))]);
    let h = header_view(&s);
    assert!(h.critical);
    assert_eq!(h.border, Color::Red);
    assert_eq!(h.hottest, "  en sıcak: b 71.0°C  │");
    assert_eq!(h.ticks, "  tick #1  │  2000ms ");
}

#[test]
fn header_without_temperatures() {
    let mut s = AppState::new();
    s.update(vec![("a".to_string(), None, None)]);
    let h = header_view(&s);
    assert!(!h.critical);
    assert_eq!(h.border, Color::Cyan);
    assert_eq!(h.hottest, "");
}

#[test]
fn chart_of_selected_sensor() {
    let mut s = AppState::new();
    s.update(vec![("a".to_string(), Some(45_500), None)]);
    let c = chart_view(&s);
    assert_eq!(c.label, "a");
    assert_eq!(c.color, Color::Cyan);
    assert_eq!(c.critical, 90_000);
    assert_eq!(c.top, 100_000);
    assert_eq!(c.title, " 📈 Geçmiş — a ");
    assert_eq!(c.mid_label, "50°");
    assert_eq!(c.top_label, "100°");
}

#[test]
fn chart_top_follows_the_peak() {
    let mut s = AppState::new();
    s.update(vec![("a".to_string(), Some(95_000), Some(80_000))]);
    let c = chart_view(&s);
    assert_eq!(c.critical, 80_000);
    assert_eq!(c.top, 105_000);
    assert_eq!(c.mid_label, "52°");
    assert_eq!(c.top_label, "105°");
    assert_eq!(c.color, Color::Red);
}

#[test]
fn chart_without_selection() {
    let s = AppState::new();
    let c = chart_view(&s);
    assert_eq!(c.label, "—");
    assert_eq!(c.color, Color::DarkGray);
    assert_eq!(c.critical, 90_000);
    assert_eq!(c.top, 110_000);
    assert_eq!(c.mid_label, "55°");
    assert_eq!(c.top_label, "110°");
}

#[test]
fn gauge_of_selected_sensor() {
    let mut s = AppState::new();
    s.update(vec![("a".to_string(), Some(45_500), None)]);
    let g = gauge_view(&s).unwrap();
    assert_eq!((g.share_num, g.share_den), (45_500, 90_000));
    assert_eq!(g.label, "45.5°C  /  kritik 90°C  /  max 45.5°C");
    assert_eq!(g.title, " a — ✓ Normal ");
    assert_eq!(g.color, Color::Cyan);
}

#[test]
fn gauge_of_unread_sensor_and_none() {
    let mut s = AppState::new();
    assert!(gauge_view(&s).is_none());
    s.update(vec![("gpu".to_string(), None, None)]);
    let g = gauge_view(&s).unwrap();
    assert_eq!((g.share_num, g.share_den), (0, 1));
    assert_eq!(g.label, "Okunamadı");
    assert_eq!(g.title, " gpu — ? Bilinmiyor ");
    assert_eq!(g.color, Color::DarkGray);
}

#[test]
fn shares_are_exact_fractions() {
    assert_eq!(share(10_000, 30_000), (10_000, 30_000));
    assert_eq!(share(45_000, 30_000), (30_000, 30_000));
    assert_eq!(share(-1, 30_000), (0, 30_000));
    assert_eq!(share(1, 0), (1, 1));
    assert_eq!(share(0, 0), (0, 1));
    assert_eq!(share(-10_000, -30_000), (10_000, 30_000));
    assert_eq!(share(10_000, -30_000), (0, 30_000));
    assert_eq!(share(i32::MIN, i32::MIN), (1u32 << 31, 1u32 << 31));
}

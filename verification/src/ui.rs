//! What each part of the screen shows: texts, colours, bars, and the
//! bounds of the chart and gauge, computed from the state.
use crate::app_state::{
    any_critical, is_hottest, AppState, SensorReading, ThermalStatus, DEFAULT_CRITICAL, TICK_MS,
};
use crate::laws::law_hottest_unique;
use crate::text::{
    can_truncate, decimal_digits, fixed_text, pad_left, padded_left, push_char, push_decimal,
    push_fixed, trunc, truncated,
};
use vstd::prelude::*;
use vstd::string::*;

verus! {

/// The colours that the screen uses.
#[derive(Clone, Copy, Debug, PartialEq, Eq, Structural)]
pub enum Color {
    Black,
    Red,
    Green,
    Yellow,
    Cyan,
    White,
    DarkGray,
}

/// Number of cells of a sensor's temperature bar.
pub const BAR_CELLS: u32 = 10;

/// Colour of each status.
pub open spec fn color_of(s: ThermalStatus) -> Color {
    match s {
        ThermalStatus::Cool => Color::Cyan,
        ThermalStatus::Warm => Color::Green,
        ThermalStatus::Hot => Color::Yellow,
        ThermalStatus::Critical => Color::Red,
        ThermalStatus::Unknown => Color::DarkGray,
    }
}

/// Caption of each status.
pub open spec fn text_of(s: ThermalStatus) -> Seq<char> {
    match s {
        ThermalStatus::Cool => "✓ Normal"@,
        ThermalStatus::Warm => "~ Ilık"@,
        ThermalStatus::Hot => "⚡ Sıcak"@,
        ThermalStatus::Critical => "⚠ KRİTİK"@,
        ThermalStatus::Unknown => "? Bilinmiyor"@,
    }
}

/// How many of `cells` cells a temperature `t` fills against a critical
/// level `crit`: the share `t / crit`, held to `[0, 1]`, times `cells`,
/// rounded down. With `crit == 0` a positive `t` fills all, any other none.
pub open spec fn filled_cells(t: int, crit: int, cells: int) -> int {
    if crit == 0 {
        if t > 0 {
            cells
        } else {
            0
        }
    } else {
        let n = if crit > 0 {
            t
        } else {
            -t
        };
        let d = if crit > 0 {
            crit
        } else {
            -crit
        };
        if n <= 0 {
            0
        } else if n >= d {
            cells
        } else {
            (n * cells) / d
        }
    }
}

/// The share `t / crit` held to `[0, 1]`, as a fraction `(num, den)`:
/// with `n / d` the same quotient over a positive `d`, `num / den` is `0`
/// for `n <= 0`, `1` for `n >= d`, and `n / d` between. With `crit == 0`
/// a positive `t` gives `1`, any other `0`.
pub open spec fn share_of(t: int, crit: int) -> (int, int) {
    if crit == 0 {
        (if t > 0 {
            1
        } else {
            0
        }, 1)
    } else {
        let n = if crit > 0 {
            t
        } else {
            -t
        };
        let d = if crit > 0 {
            crit
        } else {
            -crit
        };
        if n <= 0 {
            (0, d)
        } else if n >= d {
            (d, d)
        } else {
            (n, d)
        }
    }
}

/// `k` copies of the character `c`.
pub open spec fn repeated(c: char, k: nat) -> Seq<char> {
    Seq::new(k, |i: int| c)
}

/// The bar drawn for a reading: `[`, one full cell per filled cell, light
/// cells for the rest, `]`; a row of dashes when there is no temperature.
pub open spec fn bar_text(celsius: Option<i32>, critical: Option<i32>) -> Seq<char> {
    match celsius {
        Some(t) => {
            let crit = match critical {
                Some(c) => c,
                None => DEFAULT_CRITICAL,
            };
            let k = filled_cells(t as int, crit as int, BAR_CELLS as int);
            seq!['['] + repeated('█', k as nat) + repeated('░', (BAR_CELLS - k) as nat) + seq![']']
        },
        None => seq!['['] + repeated('─', BAR_CELLS as nat) + seq![']'],
    }
}

/// The colour in which a status is drawn.
pub fn status_color(s: &ThermalStatus) -> (c: Color)
    ensures
        c == color_of(*s),
{
    match s {
        ThermalStatus::Cool => Color::Cyan,
        ThermalStatus::Warm => Color::Green,
        ThermalStatus::Hot => Color::Yellow,
        ThermalStatus::Critical => Color::Red,
        ThermalStatus::Unknown => Color::DarkGray,
    }
}

/// The caption of a status.
pub fn status_text(s: &ThermalStatus) -> (r: &'static str)
    ensures
        r@ == text_of(*s),
{
    match s {
        ThermalStatus::Cool => "✓ Normal",
        ThermalStatus::Warm => "~ Ilık",
        ThermalStatus::Hot => "⚡ Sıcak",
        ThermalStatus::Critical => "⚠ KRİTİK",
        ThermalStatus::Unknown => "? Bilinmiyor",
    }
}

/// How many of `cells` cells a temperature fills against a critical level.
pub fn fill_cells(celsius: i32, critical: i32, cells: u32) -> (k: u32)
    ensures
        k == filled_cells(celsius as int, critical as int, cells as int),
        k <= cells,
{
    if critical == 0 {
        if celsius > 0 {
            cells
        } else {
            0
        }
    } else {
        let n: i64 = if critical > 0 {
            celsius as i64
        } else {
            -(celsius as i64)
        };
        let d: i64 = if critical > 0 {
            critical as i64
        } else {
            -(critical as i64)
        };
        if n <= 0 {
            0
        } else if n >= d {
            cells
        } else {
            assert(0 <= n * cells <= d * cells) by (nonlinear_arith)
                requires
                    0 < n < d,
                    cells >= 0,
            ;
            assert(d * cells <= 0x8000_0000 * 0xffff_ffff) by (nonlinear_arith)
                requires
                    0 < d <= 0x8000_0000,
                    0 <= cells <= 0xffff_ffff,
            ;
            let prod: i64 = n * (cells as i64);
            let k = prod / d;
            assert(k <= cells) by (nonlinear_arith)
                requires
                    k == prod / d,
                    prod == n * cells,
                    0 < n < d,
                    cells >= 0,
            ;
            k as u32
        }
    }
}

/// The share of the critical level that a temperature reaches, held to
/// `[0, 1]`, as an exact fraction.
pub fn share(celsius: i32, critical: i32) -> (r: (u32, u32))
    ensures
        (r.0 as int, r.1 as int) == share_of(celsius as int, critical as int),
        r.1 > 0,
        r.0 <= r.1,
{
    if critical == 0 {
        (if celsius > 0 {
            1
        } else {
            0
        }, 1)
    } else {
        let n: i64 = if critical > 0 {
            celsius as i64
        } else {
            -(celsius as i64)
        };
        let d: i64 = if critical > 0 {
            critical as i64
        } else {
            -(critical as i64)
        };
        if n <= 0 {
            (0, d as u32)
        } else if n >= d {
            (d as u32, d as u32)
        } else {
            (n as u32, d as u32)
        }
    }
}

/// Appends `k` copies of `c`.
fn push_repeated(out: &mut String, c: char, k: u32)
    ensures
        final(out)@ == old(out)@ + repeated(c, k as nat),
{
    let ghost start = out@;
    let mut i: u32 = 0;
    while i < k
        invariant
            i <= k,
            out@ == start + repeated(c, i as nat),
        decreases k - i,
    {
        push_char(out, c);
        i = i + 1;
        assert(out@ =~= start + repeated(c, i as nat));
    }
}

/// The bar drawn for a reading (ten cells filled in proportion to the
/// temperature's share of the critical level).
pub fn temperature_bar(celsius: Option<i32>, critical: Option<i32>) -> (r: String)
    ensures
        r@ == bar_text(celsius, critical),
{
    let mut r = String::new();
    push_char(&mut r, '[');
    match celsius {
        Some(t) => {
            let crit = critical.unwrap_or(DEFAULT_CRITICAL);
            let k = fill_cells(t, crit, BAR_CELLS);
            push_repeated(&mut r, '█', k);
            push_repeated(&mut r, '░', BAR_CELLS - k);
        },
        None => {
            push_repeated(&mut r, '─', BAR_CELLS);
        },
    }
    push_char(&mut r, ']');
    assert(r@ =~= bar_text(celsius, critical));
    r
}

/// Room, in m°C, left above the higher of a sensor's peak and critical
/// level at the top of its chart (10 °C).
pub const CHART_HEADROOM: i32 = 10_000;

/// Top of the chart when no sensor is selected (110 °C).
pub const CHART_DEFAULT_TOP: i64 = 110_000;


/// A temperature as a list row shows it: one decimal, right-aligned in six
/// places, then `°C`; `N/A` when there is none.
pub open spec fn temperature_text(celsius: Option<i32>) -> Seq<char> {
    match celsius {
        Some(t) => padded_left(fixed_text(t as int, 100, true), 6) + "°C"@,
        None => "    N/A "@,
    }
}

/// A sensor's peak as a list row shows it: `↑` and whole degrees when it is
/// above zero, else blank.
pub open spec fn peak_text(max_seen: i32) -> Seq<char> {
    if max_seen > 0 {
        " ↑"@ + fixed_text(max_seen as int, 1000, false) + "°"@
    } else {
        "       "@
    }
}

/// The first line of a sensor's row: a marker when it is selected, its
/// temperature, its bar and its peak.
pub open spec fn row_line(s: SensorReading, selected: bool) -> Seq<char> {
    (if selected {
        "▶ "@
    } else {
        "  "@
    }) + temperature_text(s.celsius) + seq![' '] + bar_text(s.celsius, s.critical) + peak_text(
        s.max_seen,
    )
}

/// The second line of a sensor's row: its label cut to 30 bytes.
pub open spec fn row_label(s: SensorReading) -> Seq<char> {
    "   "@ + truncated(s.label@, 30)
}

/// What the header says of the hottest sensor.
pub open spec fn hottest_line(s: SensorReading) -> Seq<char> {
    "  en sıcak: "@ + truncated(s.label@, 20) + seq![' '] + fixed_text(
        match s.celsius {
            Some(t) => t as int,
            None => 0,
        },
        100,
        true,
    ) + "°C  │"@
}

/// The header's count of reads and its refresh period.
pub open spec fn tick_line(tick: u64) -> Seq<char> {
    "  tick #"@ + decimal_digits(tick as nat) + "  │  "@ + decimal_digits(TICK_MS as nat) + "ms "@
}

/// The title of the sensor list.
pub open spec fn list_title_text(count: nat) -> Seq<char> {
    " 🌡 Sensörler ("@ + decimal_digits(count) + ")  [↑↓ seç] "@
}

/// The footer.
pub open spec fn footer_line(count: nat) -> Seq<char> {
    "  [↑↓ / j k] Sensör seç  │  "@ + decimal_digits(count) + " sensör  │  [Q] Çıkış"@
}

/// The selected sensor, when the selection points at one.
pub open spec fn selected_sensor(s: &AppState) -> Option<SensorReading> {
    if s.selected_idx < s.sensors@.len() {
        Some(s.sensors@[s.selected_idx as int])
    } else {
        None
    }
}

/// A sensor's critical level, or the default one.
pub open spec fn critical_level(critical: Option<i32>) -> i32 {
    match critical {
        Some(c) => c,
        None => DEFAULT_CRITICAL,
    }
}

/// The colour of the chart: that of the selected sensor's status, grey
/// without a selection.
pub open spec fn chart_color(sel: Option<SensorReading>) -> Color {
    match sel {
        Some(s) => color_of(s.spec_status()),
        None => Color::DarkGray,
    }
}

/// The level of the chart's critical line.
pub open spec fn chart_critical(sel: Option<SensorReading>) -> i32 {
    match sel {
        Some(s) => critical_level(s.critical),
        None => DEFAULT_CRITICAL,
    }
}

/// The share of its critical level that the gauge shows for a sensor.
pub open spec fn gauge_share(s: SensorReading) -> (int, int) {
    match s.celsius {
        Some(t) => share_of(t as int, critical_level(s.critical) as int),
        None => (0, 1),
    }
}

/// The top of the chart: the higher of the peak and the critical level,
/// plus the headroom.
pub open spec fn chart_top(sel: Option<SensorReading>) -> int {
    match sel {
        Some(s) => {
            let crit = critical_level(s.critical);
            (if s.max_seen >= crit {
                s.max_seen as int
            } else {
                crit as int
            }) + CHART_HEADROOM
        },
        None => CHART_DEFAULT_TOP as int,
    }
}

/// The label of the chart's series: the selected sensor's label cut to 24
/// bytes, or a dash.
pub open spec fn chart_label_text(sel: Option<SensorReading>) -> Seq<char> {
    match sel {
        Some(s) => truncated(s.label@, 24),
        None => "—"@,
    }
}

/// The gauge's caption for a temperature.
pub open spec fn gauge_line(s: SensorReading) -> Seq<char> {
    match s.celsius {
        Some(t) => fixed_text(t as int, 100, true) + "°C  /  kritik "@ + fixed_text(
            critical_level(s.critical) as int,
            1000,
            false,
        ) + "°C  /  max "@ + fixed_text(s.max_seen as int, 100, true) + "°C"@,
        None => "Okunamadı"@,
    }
}

/// The gauge's title: the label cut to 28 bytes and the status caption.
pub open spec fn gauge_title_text(s: SensorReading) -> Seq<char> {
    " "@ + truncated(s.label@, 28) + " — "@ + text_of(s.spec_status()) + " "@
}

/// One row of the sensor list.
pub struct SensorRow {
    /// Marker, temperature, bar and peak.
    pub line: String,
    /// The label, indented.
    pub label: String,
    /// Colour of the first line: that of the status.
    pub color: Color,
    /// Colour of the label: white when selected, else grey.
    pub label_color: Color,
    /// Whether this is the selected sensor (drawn bold).
    pub selected: bool,
}

/// What the header shows.
pub struct HeaderView {
    /// Whether some sensor is critical (an alert is shown).
    pub critical: bool,
    /// The hottest sensor, or empty when no sensor has a temperature.
    pub hottest: String,
    /// Count of reads and refresh period.
    pub ticks: String,
    /// Colour of the frame: red on an alert, else cyan.
    pub border: Color,
}

/// What the history chart shows, besides the samples themselves.
pub struct ChartView {
    /// Name of the series.
    pub label: String,
    /// Colour of the series and frame.
    pub color: Color,
    /// Level of the critical line (m°C).
    pub critical: i32,
    /// Top of the value axis (m°C).
    pub top: i64,
    /// Title of the frame.
    pub title: String,
    /// Axis label at half the top.
    pub mid_label: String,
    /// Axis label at the top.
    pub top_label: String,
}

/// What the gauge of the selected sensor shows.
pub struct GaugeView {
    pub color: Color,
    /// Share of the critical level reached, held to `[0, 1]`, as the
    /// fraction `share_num / share_den`.
    pub share_num: u32,
    pub share_den: u32,
    pub label: String,
    pub title: String,
}

/// Appends the text of `s`.
fn append_string(out: &mut String, s: String)
    ensures
        final(out)@ == old(out)@ + s@,
{
    out.append(s.as_str());
}

/// The text of `value / unit` (see `push_fixed`).
fn fixed(value: i64, unit: u64, one_decimal: bool) -> (r: String)
    requires
        unit > 0,
    ensures
        r@ == fixed_text(value as int, unit as nat, one_decimal),
{
    let mut r = String::new();
    push_fixed(&mut r, value, unit, one_decimal);
    assert(r@ =~= fixed_text(value as int, unit as nat, one_decimal));
    r
}

/// The row that the list shows for a sensor.
pub fn sensor_row(sensor: &SensorReading, selected: bool) -> (row: SensorRow)
    requires
        can_truncate(sensor.label@, 30),
    ensures
        row.line@ == row_line(*sensor, selected),
        row.label@ == row_label(*sensor),
        row.color == color_of(sensor.spec_status()),
        row.label_color == (if selected {
            Color::White
        } else {
            Color::DarkGray
        }),
        row.selected == selected,
{
    let mut line = String::new();
    if selected {
        line.append("▶ ");
    } else {
        line.append("  ");
    }
    match sensor.celsius {
        Some(t) => {
            let num = fixed(t as i64, 100, true);
            let padded = pad_left(num.as_str(), 6);
            append_string(&mut line, padded);
            line.append("°C");
        },
        None => {
            line.append("    N/A ");
        },
    }
    push_char(&mut line, ' ');
    append_string(&mut line, temperature_bar(sensor.celsius, sensor.critical));
    if sensor.max_seen > 0 {
        line.append(" ↑");
        append_string(&mut line, fixed(sensor.max_seen as i64, 1000, false));
        line.append("°");
    } else {
        line.append("       ");
    }
    assert(line@ =~= row_line(*sensor, selected));
    let mut label = String::new();
    label.append("   ");
    append_string(&mut label, trunc(sensor.label.as_str(), 30));
    assert(label@ =~= row_label(*sensor));
    let status = sensor.status();
    SensorRow {
        line,
        label,
        color: status_color(&status),
        label_color: if selected {
            Color::White
        } else {
            Color::DarkGray
        },
        selected,
    }
}

/// The rows of the sensor list, the selected one marked.
pub fn sensor_rows(s: &AppState) -> (rows: Vec<SensorRow>)
    requires
        forall|i: int|
            0 <= i < s.sensors@.len() ==> can_truncate(
                (#[trigger] s.sensors@[i]).label@,
                30,
            ),
    ensures
        rows@.len() == s.sensors@.len(),
        forall|i: int|
            0 <= i < rows@.len() ==> {
                let sel = i == s.selected_idx;
                &&& (#[trigger] rows@[i]).line@ == row_line(s.sensors@[i], sel)
                &&& rows@[i].label@ == row_label(s.sensors@[i])
                &&& rows@[i].color == color_of(s.sensors@[i].spec_status())
                &&& rows@[i].label_color == (if sel {
                    Color::White
                } else {
                    Color::DarkGray
                })
                &&& rows@[i].selected == sel
            },
{
    let mut rows: Vec<SensorRow> = Vec::new();
    let mut i: usize = 0;
    while i < s.sensors.len()
        invariant
            i <= s.sensors@.len(),
            rows@.len() == i,
            forall|j: int|
                0 <= j < s.sensors@.len() ==> can_truncate(
                    (#[trigger] s.sensors@[j]).label@,
                    30,
                ),
            forall|j: int|
                0 <= j < i ==> {
                    let sel = j == s.selected_idx;
                    &&& (#[trigger] rows@[j]).line@ == row_line(s.sensors@[j], sel)
                    &&& rows@[j].label@ == row_label(s.sensors@[j])
                    &&& rows@[j].color == color_of(s.sensors@[j].spec_status())
                    &&& rows@[j].label_color == (if sel {
                        Color::White
                    } else {
                        Color::DarkGray
                    })
                    &&& rows@[j].selected == sel
                },
        decreases s.sensors@.len() - i,
    {
        let row = sensor_row(&s.sensors[i], i == s.selected_idx);
        rows.push(row);
        i = i + 1;
    }
    rows
}

/// The title of the sensor list.
pub fn list_title(count: usize) -> (r: String)
    ensures
        r@ == list_title_text(count as nat),
{
    let mut r = String::new();
    r.append(" 🌡 Sensörler (");
    push_decimal(&mut r, count as u64);
    r.append(")  [↑↓ seç] ");
    r
}

/// The footer line.
pub fn footer_text(count: usize) -> (r: String)
    ensures
        r@ == footer_line(count as nat),
{
    let mut r = String::new();
    r.append("  [↑↓ / j k] Sensör seç  │  ");
    push_decimal(&mut r, count as u64);
    r.append(" sensör  │  [Q] Çıkış");
    r
}

/// What the header shows: the alert, the hottest sensor, the count of
/// reads and the frame's colour.
pub fn header_view(s: &AppState) -> (h: HeaderView)
    requires
        forall|k: int|
            #[trigger] is_hottest(s.sensors@, k) ==> can_truncate(s.sensors@[k].label@, 20),
    ensures
        h.critical == any_critical(s.sensors@),
        h.border == (if h.critical {
            Color::Red
        } else {
            Color::Cyan
        }),
        (forall|j: int| 0 <= j < s.sensors@.len() ==> (#[trigger] s.sensors@[j].celsius) is None)
            ==> h.hottest@ == Seq::<char>::empty(),
        forall|k: int| #[trigger]
            is_hottest(s.sensors@, k) ==> h.hottest@ == hottest_line(s.sensors@[k]),
        h.ticks@ == tick_line(s.tick),
{
    let critical = s.has_critical();
    let mut hottest = String::new();
    match s.hottest() {
        Some(h) => {
            proof {
                let k = choose|k: int| #[trigger]
                    is_hottest(s.sensors@, k) && *h == s.sensors@[k];
                law_hottest_unique(s.sensors@, k);
            }
            hottest.append("  en sıcak: ");
            append_string(&mut hottest, trunc(h.label.as_str(), 20));
            push_char(&mut hottest, ' ');
            append_string(&mut hottest, fixed(h.celsius.unwrap_or(0) as i64, 100, true));
            hottest.append("°C  │");
            proof {
                let k = choose|k: int| #[trigger]
                    is_hottest(s.sensors@, k) && *h == s.sensors@[k];
                assert(hottest@ =~= hottest_line(s.sensors@[k]));
            }
        },
        None => {
            proof {
                assert forall|k: int| #[trigger] is_hottest(s.sensors@, k) implies false by {
                    assert(s.sensors@[k].celsius is Some);
                }
            }
        },
    }
    let mut ticks = String::new();
    ticks.append("  tick #");
    push_decimal(&mut ticks, s.tick);
    ticks.append("  │  ");
    push_decimal(&mut ticks, TICK_MS);
    ticks.append("ms ");
    HeaderView {
        critical,
        hottest,
        ticks,
        border: if critical {
            Color::Red
        } else {
            Color::Cyan
        },
    }
}

/// What the history chart shows of the selected sensor.
pub fn chart_view(s: &AppState) -> (c: ChartView)
    requires
        selected_sensor(s) matches Some(sel) ==> can_truncate(sel.label@, 24),
    ensures
        c.label@ == chart_label_text(selected_sensor(s)),
        c.color == chart_color(selected_sensor(s)),
        c.critical == chart_critical(selected_sensor(s)),
        c.top == chart_top(selected_sensor(s)),
        c.title@ == " 📈 Geçmiş — "@ + c.label@ + " "@,
        c.mid_label@ == fixed_text(c.top as int, 2000, false) + "°"@,
        c.top_label@ == fixed_text(c.top as int, 1000, false) + "°"@,
{
    let sel = s.sensors.get(s.selected_idx);
    let (label, color, critical, top) = match sel {
        Some(x) => {
            let crit = x.critical.unwrap_or(DEFAULT_CRITICAL);
            let high: i64 = if x.max_seen >= crit {
                x.max_seen as i64
            } else {
                crit as i64
            };
            let status = x.status();
            (trunc(x.label.as_str(), 24), status_color(&status), crit, high + CHART_HEADROOM as i64)
        },
        None => {
            let mut dash = String::new();
            dash.append("—");
            (dash, Color::DarkGray, DEFAULT_CRITICAL, CHART_DEFAULT_TOP)
        },
    };
    let mut title = String::new();
    title.append(" 📈 Geçmiş — ");
    title.append(label.as_str());
    title.append(" ");
    let mut mid_label = fixed(top, 2000, false);
    mid_label.append("°");
    let mut top_label = fixed(top, 1000, false);
    top_label.append("°");
    ChartView { label, color, critical, top, title, mid_label, top_label }
}

/// What the gauge shows of the selected sensor, if there is one.
pub fn gauge_view(s: &AppState) -> (g: Option<GaugeView>)
    requires
        selected_sensor(s) matches Some(sel) ==> can_truncate(sel.label@, 28),
    ensures
        g is None <==> selected_sensor(s) is None,
        g matches Some(v) ==> {
            let sel = selected_sensor(s)->0;
            &&& v.color == color_of(sel.spec_status())
            &&& (v.share_num as int, v.share_den as int) == gauge_share(sel)
            &&& v.label@ == gauge_line(sel)
            &&& v.title@ == gauge_title_text(sel)
        },
{
    let sensor = match s.sensors.get(s.selected_idx) {
        Some(x) => x,
        None => return None,
    };
    let status = sensor.status();
    let crit = sensor.critical.unwrap_or(DEFAULT_CRITICAL);
    let mut label = String::new();
    let (share_num, share_den) = match sensor.celsius {
        Some(t) => {
            append_string(&mut label, fixed(t as i64, 100, true));
            label.append("°C  /  kritik ");
            append_string(&mut label, fixed(crit as i64, 1000, false));
            label.append("°C  /  max ");
            append_string(&mut label, fixed(sensor.max_seen as i64, 100, true));
            label.append("°C");
            share(t, crit)
        },
        None => {
            label.append("Okunamadı");
            (0, 1)
        },
    };
    assert(label@ =~= gauge_line(*sensor));
    let mut title = String::new();
    title.append(" ");
    append_string(&mut title, trunc(sensor.label.as_str(), 28));
    title.append(" — ");
    title.append(status_text(&status));
    title.append(" ");
    assert(title@ =~= gauge_title_text(*sensor));
    Some(GaugeView { color: status_color(&status), share_num, share_den, label, title })
}

} // verus!

//! Properties that span the library's functions.
use crate::app_state::{
    any_critical, history_sample, is_hottest, next_index, next_peaks, padded_peaks, prev_index, push_sample,
    raise_peak, sensors_from, status_of, RawReading, SensorReading, ThermalStatus, HISTORY,
};
use crate::text::{
    can_truncate, decimal_digits, digit_char, fixed_text, padded_left, rounded_quotient, truncated,
};
use crate::input_handler::{key_action, KeyAction, KeyCode, KeyEvent, KeyEventKind};
use crate::ui::{
    bar_text, chart_color, chart_critical, chart_label_text, chart_top, color_of, filled_cells, footer_line,
    gauge_line, gauge_share, gauge_title_text, hottest_line, list_title_text, row_label, row_line, share_of,
    text_of, tick_line, Color,
};
use vstd::prelude::*;
use vstd::utf8::*;

verus! {

/// Rank of a status on the scale from cool to critical.
pub open spec fn severity(s: ThermalStatus) -> int {
    match s {
        ThermalStatus::Cool => 0,
        ThermalStatus::Warm => 1,
        ThermalStatus::Hot => 2,
        ThermalStatus::Critical => 3,
        ThermalStatus::Unknown => -1,
    }
}

/// The history never holds more than `HISTORY` samples, and the sample
/// just taken is its newest.
pub proof fn law_history_bounded(history: Seq<i32>, sample: i32)
    requires
        history.len() <= HISTORY,
    ensures
        push_sample(history, sample).len() <= HISTORY,
        push_sample(history, sample).last() == sample,
{
}

/// A read never lowers the peak of a slot, nor drops a slot.
pub proof fn law_peaks_never_fall(peaks: Seq<i32>, readings: Seq<RawReading>)
    ensures
        next_peaks(peaks, readings).len() >= peaks.len(),
        next_peaks(peaks, readings).len() >= readings.len(),
        forall|i: int|
            0 <= i < peaks.len() ==> #[trigger] next_peaks(peaks, readings)[i] >= peaks[i],
{
}

/// After a read, the peak of each read slot is at least the temperature
/// just read there.
pub proof fn law_peak_covers_reading(peaks: Seq<i32>, readings: Seq<RawReading>, i: int)
    requires
        0 <= i < readings.len(),
        readings[i].1 is Some,
    ensures
        next_peaks(peaks, readings)[i] >= readings[i].1->0,
{
    let p = padded_peaks(peaks, readings.len());
    assert(next_peaks(peaks, readings)[i] == raise_peak(p[i], readings[i].1));
}

/// Moving the selection keeps it on a sensor when it was on one.
pub proof fn law_selection_in_range(idx: int, len: int)
    requires
        0 <= idx < len,
    ensures
        0 <= next_index(idx, len) < len,
        0 <= prev_index(idx, len) < len,
{
}

/// Selecting the next sensor and then the previous one (or the other way
/// round) comes back to the sensor selected at first.
pub proof fn law_next_prev_inverse(idx: int, len: int)
    requires
        0 <= idx < len,
    ensures
        prev_index(next_index(idx, len), len) == idx,
        next_index(prev_index(idx, len), len) == idx,
{
    if idx + 1 < len {
        vstd::arithmetic::div_mod::lemma_small_mod((idx + 1) as nat, len as nat);
    } else {
        vstd::arithmetic::div_mod::lemma_mod_self_0(len);
    }
    if idx == 0 {
        vstd::arithmetic::div_mod::lemma_mod_self_0(len);
    } else {
        vstd::arithmetic::div_mod::lemma_small_mod(idx as nat, len as nat);
    }
}

/// A hotter reading never has a milder status, for the same critical
/// level; a reading has a known status exactly when it has a temperature.
pub proof fn law_status_monotone(t1: i32, t2: i32, critical: Option<i32>)
    requires
        t1 <= t2,
    ensures
        severity(status_of(Some(t1), critical)) <= severity(status_of(Some(t2), critical)),
        severity(status_of(Some(t1), critical)) >= 0,
        status_of(None, critical) == ThermalStatus::Unknown,
{
}

/// A bar is never over-full; it is full from the critical level up and
/// empty at zero and below (for a positive critical level), and it grows
/// with the temperature.
pub proof fn law_bar_bounds(t1: int, t2: int, crit: int, cells: int)
    requires
        cells >= 0,
        t1 <= t2,
    ensures
        0 <= filled_cells(t1, crit, cells) <= cells,
        crit > 0 && t1 >= crit ==> filled_cells(t1, crit, cells) == cells,
        crit > 0 && t1 <= 0 ==> filled_cells(t1, crit, cells) == 0,
        crit > 0 ==> filled_cells(t1, crit, cells) <= filled_cells(t2, crit, cells),
{
    if crit > 0 && 0 < t1 && t2 < crit {
        assert((t1 * cells) / crit <= (t2 * cells) / crit) by (nonlinear_arith)
            requires
                0 < t1 <= t2,
                crit > 0,
                cells >= 0,
        {
            assert(t1 * cells <= t2 * cells);
            vstd::arithmetic::div_mod::lemma_div_is_ordered(t1 * cells, t2 * cells, crit);
        }
    }
    if crit != 0 {
        let n = if crit > 0 {
            t1
        } else {
            -t1
        };
        let d = if crit > 0 {
            crit
        } else {
            -crit
        };
        if 0 < n < d {
            assert(0 <= (n * cells) / d <= cells) by (nonlinear_arith)
                requires
                    0 < n < d,
                    cells >= 0,
            {
                vstd::arithmetic::div_mod::lemma_div_is_ordered(n * cells, d * cells, d);
                vstd::arithmetic::div_mod::lemma_div_multiples_vanish(cells, d);
            }
        }
    }
}

/// Decoding never yields more characters than there are bytes.
proof fn lemma_decode_not_longer(bytes: Seq<u8>)
    requires
        valid_utf8(bytes),
    ensures
        decode_utf8(bytes).len() <= bytes.len(),
    decreases bytes.len(),
{
    if bytes.len() > 0 {
        let rest = pop_first_scalar(bytes);
        assert(1 <= length_of_first_scalar(bytes) <= bytes.len());
        assert(rest.len() == bytes.len() - length_of_first_scalar(bytes));
        lemma_decode_not_longer(rest);
    }
}

/// A cut label is at most `max` characters long, and it is the label's
/// beginning followed by an ellipsis; a label of at most `max` bytes is kept
/// whole.
pub proof fn law_truncated_fits(s: Seq<char>, max: nat)
    requires
        can_truncate(s, max),
    ensures
        truncated(s, max).len() <= max,
        encode_utf8(s).len() <= max ==> truncated(s, max) == s,
        encode_utf8(s).len() > max ==> exists|k: int|
            0 <= k < s.len() && truncated(s, max) == #[trigger] s.take(k).push('…'),
{
    broadcast use encode_utf8_valid_utf8, encode_utf8_decode_utf8;

    let bytes = encode_utf8(s);
    lemma_decode_not_longer(bytes);
    if bytes.len() > max {
        let cut = (max - 1) as int;
        valid_utf8_split(bytes, cut);
        decode_utf8_split(bytes, cut);
        let head = decode_utf8(bytes.subrange(0, cut));
        let tail = decode_utf8(bytes.subrange(cut, bytes.len() as int));
        lemma_decode_not_longer(bytes.subrange(0, cut));
        lemma_decode_not_longer(bytes.subrange(cut, bytes.len() as int));
        assert(s == head + tail);
        assert(head == s.take(head.len() as int));
        assert(tail.len() > 0) by {
            if tail.len() == 0 {
                assert(bytes.subrange(cut, bytes.len() as int).len() > 0);
                assert(decode_utf8(bytes.subrange(cut, bytes.len() as int)).len() > 0);
            }
        }
    }
}

/// At most one sensor is reported as the hottest, and none is hotter.
pub proof fn law_hottest_unique(sensors: Seq<SensorReading>, k: int)
    requires
        is_hottest(sensors, k),
    ensures
        forall|j: int| #[trigger] is_hottest(sensors, j) ==> j == k,
        forall|j: int|
            0 <= j < sensors.len() && (#[trigger] sensors[j].celsius) is Some
                ==> sensors[j].celsius->0 <= sensors[k].celsius->0,
        forall|j: int|
            k < j < sensors.len() && (#[trigger] sensors[j].celsius) is Some
                ==> sensors[j].celsius->0 < sensors[k].celsius->0,
        sensors[k].celsius is Some,
{
    assert forall|j: int| #[trigger] is_hottest(sensors, j) implies j == k by {
        if j < k {
            assert(sensors[k].celsius is Some);
        } else if j > k {
            assert(sensors[j].celsius is Some);
        }
    }
}

/// Rounding picks an integer at most half a unit away from the exact
/// quotient.
pub proof fn law_rounding_nearest(a: nat, b: nat)
    requires
        b > 0,
    ensures
        2 * (a - rounded_quotient(a, b) * b) <= b,
        2 * (rounded_quotient(a, b) * b - a) <= b,
{
    vstd::arithmetic::div_mod::lemma_fundamental_div_mod(a as int, b as int);
    let q = (a / b) as int;
    let r = (a % b) as int;
    assert(a == b * q + r);
    assert(0 <= r < b);
    if rounded_quotient(a, b) == q + 1 {
        assert((q + 1) * b == q * b + b) by (nonlinear_arith);
    }
    assert(q * b == b * q) by (nonlinear_arith);
}

/// The number that a string of decimal digits denotes.
pub open spec fn digits_value(s: Seq<char>) -> int
    decreases s.len(),
{
    if s.len() == 0 {
        0
    } else {
        digits_value(s.drop_last()) * 10 + (s.last() as int - 48)
    }
}

/// The decimal notation of `n` is made of digits, starts with a nonzero
/// one unless `n` is zero, and denotes `n`.
pub proof fn law_decimal_digits_value(n: nat)
    ensures
        digits_value(decimal_digits(n)) == n,
        decimal_digits(n).len() >= 1,
        forall|i: int|
            0 <= i < decimal_digits(n).len() ==> '0' <= #[trigger] decimal_digits(n)[i] <= '9',
        n > 0 ==> decimal_digits(n)[0] != '0',
    decreases n,
{
    if n < 10 {
        assert(decimal_digits(n) == seq![digit_char(n)]);
        assert(seq![digit_char(n)].drop_last() =~= Seq::<char>::empty());
        assert(digit_char(n) as int == 48 + n);
        assert(digits_value(Seq::<char>::empty()) == 0);
        assert(digits_value(seq![digit_char(n)]) == n);
    } else {
        law_decimal_digits_value(n / 10);
        let d = decimal_digits(n);
        assert(d.drop_last() =~= decimal_digits(n / 10));
        assert(d[0] == decimal_digits(n / 10)[0]);
        assert(d.last() == digit_char(n % 10));
        assert(digit_char(n % 10) as int == 48 + n % 10);
        vstd::arithmetic::div_mod::lemma_fundamental_div_mod(n as int, 10);
        assert(digits_value(d) == digits_value(d.drop_last()) * 10 + (d.last() as int - 48));
    }
}

/// The slot peaks after a series of reads, starting from none.
pub open spec fn peaks_after(reads: Seq<Seq<RawReading>>) -> Seq<i32>
    decreases reads.len(),
{
    if reads.len() == 0 {
        Seq::empty()
    } else {
        next_peaks(peaks_after(reads.drop_last()), reads.last())
    }
}

/// After a series of reads there is a slot for every sensor read so far.
proof fn lemma_peaks_after_len(reads: Seq<Seq<RawReading>>)
    ensures
        forall|j: int| 0 <= j < reads.len() ==> (#[trigger] reads[j]).len() <= peaks_after(reads).len(),
    decreases reads.len(),
{
    if reads.len() > 0 {
        let prev = reads.drop_last();
        lemma_peaks_after_len(prev);
        assert forall|j: int| 0 <= j < reads.len() implies (#[trigger] reads[j]).len()
            <= peaks_after(reads).len() by {
            if j < reads.len() - 1 {
                assert(reads[j] == prev[j]);
            }
        }
    }
}

/// After any series of reads (selection moves leave peaks alone), the peak
/// of a slot is the largest of zero and every temperature read in it.
pub proof fn law_running_peak(reads: Seq<Seq<RawReading>>, i: int)
    requires
        0 <= i < peaks_after(reads).len(),
    ensures
        peaks_after(reads)[i] >= 0,
        forall|j: int|
            0 <= j < reads.len() && i < reads[j].len() && (#[trigger] reads[j][i]).1 is Some
                ==> peaks_after(reads)[i] >= reads[j][i].1->0,
        peaks_after(reads)[i] == 0 || exists|j: int|
            0 <= j < reads.len() && i < reads[j].len() && (#[trigger] reads[j][i]).1 == Some(
                peaks_after(reads)[i],
            ),
    decreases reads.len(),
{
    let prev = reads.drop_last();
    let r = reads.last();
    let old_p = peaks_after(prev);
    let p = padded_peaks(old_p, r.len());
    let now = peaks_after(reads);
    lemma_peaks_after_len(prev);
    if i < old_p.len() {
        law_running_peak(prev, i);
        assert(p[i] == old_p[i]);
    } else {
        assert(p[i] == 0);
    }
    assert forall|j: int|
        0 <= j < reads.len() && i < reads[j].len() && (#[trigger] reads[j][i]).1 is Some implies now[i]
        >= reads[j][i].1->0 by {
        if j < reads.len() - 1 {
            assert(reads[j] == prev[j]);
            assert(prev[j].len() <= old_p.len());
        }
    }
    if now[i] != 0 {
        if i < r.len() && r[i].1 is Some && now[i] == r[i].1->0 {
            assert(reads[reads.len() - 1] == r);
        } else {
            assert(now[i] == p[i]);
            let j = choose|j: int|
                0 <= j < prev.len() && i < prev[j].len() && (#[trigger] prev[j][i]).1 == Some(
                    old_p[i],
                );
            assert(reads[j] == prev[j]);
        }
    }
}

/// Moving the selection `m` times to the next sensor.
pub open spec fn next_times(idx: int, m: nat, len: int) -> int
    decreases m,
{
    if m == 0 {
        idx
    } else {
        next_index(next_times(idx, (m - 1) as nat, len), len)
    }
}

proof fn lemma_next_times(idx: int, m: nat, len: int)
    requires
        0 <= idx < len,
    ensures
        next_times(idx, m, len) == (idx + m) % len,
    decreases m,
{
    if m == 0 {
        vstd::arithmetic::div_mod::lemma_small_mod(idx as nat, len as nat);
    } else {
        lemma_next_times(idx, (m - 1) as nat, len);
        vstd::arithmetic::div_mod::lemma_add_mod_noop_right(1, idx + m - 1, len);
    }
}

/// On a ring of `n` sensors, `n` moves to the next sensor come back to the
/// start and fewer moves do not: each sensor is visited once per round.
pub proof fn law_selection_cycles(idx: int, n: int)
    requires
        0 <= idx < n,
    ensures
        next_times(idx, n as nat, n) == idx,
        forall|m: nat| 0 < m < n ==> #[trigger] next_times(idx, m, n) != idx,
{
    lemma_next_times(idx, n as nat, n);
    vstd::arithmetic::div_mod::lemma_mod_multiples_vanish(1, idx, n);
    vstd::arithmetic::div_mod::lemma_small_mod(idx as nat, n as nat);
    assert forall|m: nat| 0 < m < n implies #[trigger] next_times(idx, m, n) != idx by {
        lemma_next_times(idx, m, n);
        if idx + m < n {
            vstd::arithmetic::div_mod::lemma_small_mod((idx + m) as nat, n as nat);
        } else {
            vstd::arithmetic::div_mod::lemma_mod_multiples_vanish(1, idx + m - n, n);
            vstd::arithmetic::div_mod::lemma_small_mod((idx + m - n) as nat, n as nat);
        }
    }
}

/// Encoding a concatenation encodes each part in turn.
proof fn lemma_encode_concat(a: Seq<char>, b: Seq<char>)
    ensures
        encode_utf8(a + b) == encode_utf8(a) + encode_utf8(b),
    decreases a.len(),
{
    if a.len() == 0 {
        assert(a + b =~= b);
    } else {
        lemma_encode_concat(a.drop_first(), b);
        assert((a + b).drop_first() =~= a.drop_first() + b);
        assert((a + b)[0] == a[0]);
    }
}

/// Cutting a label that is already cut changes nothing, and cannot fail.
pub proof fn law_truncated_idempotent(s: Seq<char>, max: nat)
    requires
        can_truncate(s, max),
    ensures
        can_truncate(truncated(s, max), max),
        truncated(truncated(s, max), max) == truncated(s, max),
{
    broadcast use encode_utf8_valid_utf8, encode_utf8_decode_utf8;

    let bytes = encode_utf8(s);
    if bytes.len() > max {
        let cut = (max - 1) as int;
        let head_bytes = bytes.subrange(0, cut);
        valid_utf8_split(bytes, cut);
        decode_utf8_encode_utf8(head_bytes);
        let head = decode_utf8(head_bytes);
        let t = head.push('…');
        let e = encode_utf8(seq!['…']);
        assert(t == head + seq!['…']);
        lemma_encode_concat(head, seq!['…']);
        let tb = encode_utf8(t);
        assert(tb == head_bytes + e);
        if tb.len() > max {
            encode_utf8_first_scalar(seq!['…']);
            assert(tb[cut] == e[0]);
            is_char_boundary_iff_not_is_continuation_byte(tb, cut);
            assert(tb.subrange(0, cut) =~= head_bytes);
        }
    }
}

/// The gauge's share is a fraction in `[0, 1]`, exactly `t / crit` when it
/// lies strictly between; a bar's cell count is that share times the
/// number of cells, rounded down.
pub proof fn law_share_exact(t: int, crit: int, cells: int)
    requires
        cells >= 0,
    ensures
        share_of(t, crit).1 > 0,
        0 <= share_of(t, crit).0 <= share_of(t, crit).1,
        0 < share_of(t, crit).0 < share_of(t, crit).1 ==> share_of(t, crit).0 * crit
            == share_of(t, crit).1 * t,
        filled_cells(t, crit, cells) == (share_of(t, crit).0 * cells) / share_of(t, crit).1,
{
    let (num, den) = share_of(t, crit);
    if 0 < num < den {
        if crit > 0 {
            assert(t * crit == crit * t) by (nonlinear_arith);
        } else {
            assert((-t) * crit == (-crit) * t) by (nonlinear_arith);
        }
    }
    if crit == 0 {
    } else if num == 0 {
        assert(0 * cells == 0) by (nonlinear_arith);
    } else if num == den {
        assert((den * cells) / den == cells) by (nonlinear_arith)
            requires
                den > 0,
        {
            vstd::arithmetic::div_mod::lemma_div_multiples_vanish(cells, den);
        }
    }
}

/// The sample that a read adds to the history is the temperature just read
/// at the selected index, or 0 when there is no reading there or it has no
/// temperature; the peaks of the slots play no part in it.
pub proof fn law_sample_is_current_temperature(
    history: Seq<i32>,
    readings: Seq<RawReading>,
    peaks: Seq<i32>,
    idx: int,
)
    ensures
        push_sample(history, history_sample(sensors_from(readings, peaks), idx)).last() == (if 0
            <= idx < readings.len() {
            match readings[idx].1 {
                Some(t) => t,
                None => 0i32,
            }
        } else {
            0i32
        }),
{
}

/// Below its critical level a reading's band depends on its temperature
/// alone: `Hot` from 80 °C, `Warm` from 60 °C, `Cool` below, whatever
/// critical level is reported; at or above the critical level it is
/// `Critical`.
pub proof fn law_status_bands(t: i32, critical: Option<i32>)
    ensures
        ({
            let c = match critical {
                Some(c) => c,
                None => 90_000i32,
            };
            &&& t >= c ==> status_of(Some(t), critical) == ThermalStatus::Critical
            &&& t < c && t >= 80_000 ==> status_of(Some(t), critical) == ThermalStatus::Hot
            &&& t < c && 60_000 <= t < 80_000 ==> status_of(Some(t), critical)
                == ThermalStatus::Warm
            &&& t < c && t < 60_000 ==> status_of(Some(t), critical) == ThermalStatus::Cool
        }),
{
}

/// `a` is at most `x / c` exactly when `a * c` is at most `x`.
proof fn lemma_le_div(a: int, x: int, c: int)
    requires
        c > 0,
    ensures
        (a <= x / c) <==> (a * c <= x),
{
    vstd::arithmetic::div_mod::lemma_fundamental_div_mod(x, c);
    let q = x / c;
    let r = x % c;
    assert(x == c * q + r && 0 <= r < c);
    if a <= q {
        assert(a * c <= q * c) by (nonlinear_arith)
            requires
                a <= q,
                c > 0,
        ;
        assert(q * c == c * q) by (nonlinear_arith);
    } else {
        assert(a * c >= (q + 1) * c) by (nonlinear_arith)
            requires
                a >= q + 1,
                c > 0,
        ;
        assert((q + 1) * c == c * q + c) by (nonlinear_arith);
    }
}

/// A sensor's bar is measured against its own critical level (90 °C only
/// when it reports none): of its ten cells, cell `j` is full exactly when
/// `(j + 1) / 10` of that level is reached; without a temperature it is a
/// row of dashes.
pub proof fn law_bar_against_critical(t: i32, critical: Option<i32>)
    ensures
        ({
            let c = match critical {
                Some(c) => c,
                None => 90_000i32,
            };
            let bar = bar_text(Some(t), critical);
            c > 0 ==> {
                &&& bar.len() == 12
                &&& bar[0] == '['
                &&& bar[11] == ']'
                &&& forall|j: int|
                    0 <= j < 10 ==> #[trigger] bar[1 + j] == (if (j + 1) * c <= 10 * t {
                        '█'
                    } else {
                        '░'
                    })
            }
        }),
        bar_text(None, critical) == seq!['['] + Seq::new(10, |i: int| '─') + seq![']'],
{
    let c = match critical {
        Some(c) => c,
        None => 90_000i32,
    };
    let bar = bar_text(Some(t), critical);
    if c > 0 {
        let k = filled_cells(t as int, c as int, 10);
        assert(0 <= k <= 10) by {
            law_bar_bounds(t as int, t as int, c as int, 10);
        }
        assert forall|j: int| 0 <= j < 10 implies #[trigger] bar[1 + j] == (if (j + 1) * c <= 10
            * t {
            '█'
        } else {
            '░'
        }) by {
            if t <= 0 {
                assert((j + 1) * c > 0) by (nonlinear_arith)
                    requires
                        j >= 0,
                        c > 0,
                ;
            } else if t >= c {
                assert((j + 1) * c <= 10 * c) by (nonlinear_arith)
                    requires
                        j < 10,
                        c > 0,
                ;
            } else {
                lemma_le_div(j + 1, t * 10, c as int);
            }
            assert((j < k) <==> ((j + 1) * c <= 10 * t));
            if j < k {
                assert(bar[1 + j] == '█');
            } else {
                assert(bar[1 + j] == '░');
            }
        }
    }
    assert(bar_text(None, critical) =~= seq!['['] + Seq::new(10, |i: int| '─') + seq![']']);
}

/// The gauge's caption starts with the current temperature and ends with
/// the sensor's peak, each to one decimal and followed by `°C`; after a
/// falling reading the two differ.
pub proof fn law_gauge_caption_ends(s: SensorReading)
    requires
        s.celsius is Some,
    ensures
        ({
            let line = gauge_line(s);
            let head = fixed_text(s.celsius->0 as int, 100, true) + "°C  /  kritik "@;
            let tail = "°C  /  max "@ + fixed_text(s.max_seen as int, 100, true) + "°C"@;
            &&& line.len() >= head.len() + tail.len()
            &&& line.subrange(0, head.len() as int) == head
            &&& line.subrange(line.len() - tail.len(), line.len() as int) == tail
        }),
{
    let line = gauge_line(s);
    let head = fixed_text(s.celsius->0 as int, 100, true) + "°C  /  kritik "@;
    let tail = "°C  /  max "@ + fixed_text(s.max_seen as int, 100, true) + "°C"@;
    assert(line.subrange(0, head.len() as int) =~= head);
    assert(line.subrange(line.len() - tail.len(), line.len() as int) =~= tail);
}

/// The header shows the hottest sensor with the very temperature by which
/// it was chosen: its text ends with that temperature to one decimal and
/// `°C  │`.
pub proof fn law_header_shows_hottest_temperature(sensors: Seq<SensorReading>, k: int)
    requires
        is_hottest(sensors, k),
    ensures
        ({
            let line = hottest_line(sensors[k]);
            let tail = fixed_text(sensors[k].celsius->0 as int, 100, true) + "°C  │"@;
            &&& line.len() >= tail.len()
            &&& line.subrange(line.len() - tail.len(), line.len() as int) == tail
            &&& forall|j: int|
                0 <= j < sensors.len() && (#[trigger] sensors[j].celsius) is Some
                    ==> sensors[j].celsius->0 <= sensors[k].celsius->0
        }),
{
    let line = hottest_line(sensors[k]);
    let tail = fixed_text(sensors[k].celsius->0 as int, 100, true) + "°C  │"@;
    assert(line.subrange(line.len() - tail.len(), line.len() as int) =~= tail);
}

/// When the history is full the oldest sample goes: the new history is
/// the earlier samples, newest last, without the first, then the new one.
pub proof fn law_history_drops_oldest(history: Seq<i32>, sample: i32)
    ensures
        ({
            let r = push_sample(history, sample);
            &&& r.len() == (if history.len() >= 60 {
                history.len()
            } else {
                history.len() + 1
            })
            &&& r[r.len() - 1] == sample
            &&& forall|i: int|
                0 <= i < r.len() - 1 ==> #[trigger] r[i] == history[history.len() - (r.len() - 1)
                    + i]
        }),
{
}

/// The sensors that a read gives keep each reading's label, temperature and
/// critical level, in order, and show the peak of their slot.
pub proof fn law_sensors_mirror_readings(readings: Seq<RawReading>, peaks: Seq<i32>, i: int)
    requires
        0 <= i < readings.len(),
    ensures
        sensors_from(readings, peaks).len() == readings.len(),
        sensors_from(readings, peaks)[i].label == readings[i].0,
        sensors_from(readings, peaks)[i].celsius == readings[i].1,
        sensors_from(readings, peaks)[i].critical == readings[i].2,
        sensors_from(readings, peaks)[i].max_seen == peaks[i],
{
}

/// Some sensor is critical exactly when some sensor's temperature reaches
/// its critical level (90 °C when it reports none).
pub proof fn law_critical_alert(sensors: Seq<SensorReading>)
    ensures
        any_critical(sensors) <==> exists|i: int|
            0 <= i < sensors.len() && (#[trigger] sensors[i].celsius) is Some
                && sensors[i].celsius->0 >= (match sensors[i].critical {
                Some(c) => c,
                None => 90_000i32,
            }),
{
    if any_critical(sensors) {
        let i = choose|i: int|
            0 <= i < sensors.len() && (#[trigger] sensors[i]).spec_status()
                == ThermalStatus::Critical;
        assert(sensors[i].celsius is Some);
    }
    if exists|i: int|
        0 <= i < sensors.len() && (#[trigger] sensors[i].celsius) is Some
            && sensors[i].celsius->0 >= (match sensors[i].critical {
            Some(c) => c,
            None => 90_000i32,
        }) {
        let i = choose|i: int|
            0 <= i < sensors.len() && (#[trigger] sensors[i].celsius) is Some
                && sensors[i].celsius->0 >= (match sensors[i].critical {
                Some(c) => c,
                None => 90_000i32,
            });
        assert(sensors[i].spec_status() == ThermalStatus::Critical);
    }
}

/// Only presses act: `q`, `Q` and Esc quit, Down and `j` select the next
/// sensor, Up and `k` the previous one, and every other key does nothing.
pub proof fn law_key_bindings(key: KeyEvent)
    ensures
        key.kind != KeyEventKind::Press ==> key_action(key) is Ignore,
        key.kind == KeyEventKind::Press ==> {
            &&& key_action(key) is Quit <==> (key.code == KeyCode::Char('q') || key.code
                == KeyCode::Char('Q') || key.code == KeyCode::Esc)
            &&& key_action(key) is Next <==> (key.code == KeyCode::Down || key.code
                == KeyCode::Char('j'))
            &&& key_action(key) is Prev <==> (key.code == KeyCode::Up || key.code
                == KeyCode::Char('k'))
        },
{
}

/// A list row shows, in order: the selection marker, the temperature to one
/// decimal right-aligned in six places (or `N/A`), the bar against the
/// sensor's own critical level, and the sensor's peak in whole degrees when
/// above zero; its second line is the label cut to 30 bytes.
pub proof fn law_row_contents(s: SensorReading, selected: bool)
    ensures
        row_line(s, selected) == (if selected {
            "▶ "@
        } else {
            "  "@
        }) + (match s.celsius {
            Some(t) => padded_left(fixed_text(t as int, 100, true), 6) + "°C"@,
            None => "    N/A "@,
        }) + seq![' '] + bar_text(s.celsius, s.critical) + (if s.max_seen > 0 {
            " ↑"@ + fixed_text(s.max_seen as int, 1000, false) + "°"@
        } else {
            "       "@
        }),
        row_label(s) == "   "@ + truncated(s.label@, 30),
{
}

/// The chart of a sensor is coloured by its status, draws its critical
/// level (90 °C when it reports none), and its top is 10 °C above the
/// higher of that level and the sensor's peak; without a selection it is
/// grey, with the line at 90 °C and the top at 110 °C.
pub proof fn law_chart_bounds(sel: Option<SensorReading>)
    ensures
        sel is None ==> chart_color(sel) == Color::DarkGray && chart_critical(sel) == 90_000
            && chart_top(sel) == 110_000,
        sel matches Some(s) ==> {
            let c = match s.critical {
                Some(c) => c,
                None => 90_000i32,
            };
            &&& chart_color(sel) == color_of(status_of(s.celsius, s.critical))
            &&& chart_critical(sel) == c
            &&& chart_top(sel) >= s.max_seen + 10_000
            &&& chart_top(sel) >= c + 10_000
            &&& (chart_top(sel) == s.max_seen + 10_000 || chart_top(sel) == c + 10_000)
        },
{
}

/// The gauge of a sensor with a positive critical level `c` (90 °C when it
/// reports none) is filled to `t / c` held to `[0, 1]`: as a fraction over
/// `c`, its numerator is the temperature clamped to `[0, c]`; an unread
/// sensor's gauge is empty.
pub proof fn law_gauge_share(s: SensorReading)
    ensures
        s.celsius is None ==> gauge_share(s).0 == 0 && gauge_share(s).1 > 0,
        s.celsius matches Some(t) ==> {
            let c = match s.critical {
                Some(c) => c,
                None => 90_000i32,
            };
            c > 0 ==> {
                &&& gauge_share(s).1 == c
                &&& gauge_share(s).0 == (if t <= 0 {
                    0
                } else if t >= c {
                    c as int
                } else {
                    t as int
                })
            }
        },
{
}

/// The header, the list title and the footer show the counts they are
/// given in decimal.
pub proof fn law_counts_shown(tick: u64, count: nat)
    ensures
        tick_line(tick).subrange(8, 8 + decimal_digits(tick as nat).len() as int) == decimal_digits(
            tick as nat,
        ),
        list_title_text(count).subrange(14, 14 + decimal_digits(count).len() as int)
            == decimal_digits(count),
        footer_line(count).subrange(28, 28 + decimal_digits(count).len() as int)
            == decimal_digits(count),
{
    reveal_strlit("  tick #");
    reveal_strlit(" 🌡 Sensörler (");
    reveal_strlit("  [↑↓ / j k] Sensör seç  │  ");
    let d = decimal_digits(tick as nat);
    assert(tick_line(tick).subrange(8, 8 + d.len() as int) =~= d);
    let e = decimal_digits(count);
    assert(list_title_text(count).subrange(14, 14 + e.len() as int) =~= e);
    assert(footer_line(count).subrange(28, 28 + e.len() as int) =~= e);
}

/// Each status has its colour, from cyan for cool through green and yellow
/// to red for critical, grey when unknown.
pub proof fn law_status_colors()
    ensures
        color_of(ThermalStatus::Cool) == Color::Cyan,
        color_of(ThermalStatus::Warm) == Color::Green,
        color_of(ThermalStatus::Hot) == Color::Yellow,
        color_of(ThermalStatus::Critical) == Color::Red,
        color_of(ThermalStatus::Unknown) == Color::DarkGray,
        forall|a: ThermalStatus, b: ThermalStatus| a != b ==> color_of(a) != color_of(b),
{
}

/// Labels are cut to 20 bytes in the header, 24 in the chart and 28 in the
/// gauge's title, which also names the sensor's status.
pub proof fn law_label_cuts(s: SensorReading)
    ensures
        hottest_line(s).subrange(0, 12 + truncated(s.label@, 20).len() as int) == "  en sıcak: "@
            + truncated(s.label@, 20),
        chart_label_text(Some(s)) == truncated(s.label@, 24),
        gauge_title_text(s) == " "@ + truncated(s.label@, 28) + " — "@ + text_of(
            status_of(s.celsius, s.critical),
        ) + " "@,
{
    reveal_strlit("  en sıcak: ");
    let head = "  en sıcak: "@ + truncated(s.label@, 20);
    assert(hottest_line(s).subrange(0, 12 + truncated(s.label@, 20).len() as int) =~= head);
}

} // verus!

//! The monitor's state: the sensors as last read, the peak of each sensor
//! slot, the selection and the history of the selected sensor.
//!
//! Temperatures are held in thousandths of a degree Celsius (m°C).
use std::collections::VecDeque;
use vstd::prelude::*;

verus! {

/// Number of samples kept in the history of the selected sensor.
pub const HISTORY: usize = 60;

/// Milliseconds between two sensor reads.
pub const TICK_MS: u64 = 2000;

/// Critical level assumed for a sensor that reports none (90 °C).
pub const DEFAULT_CRITICAL: i32 = 90_000;

/// Lower bound of the `Hot` band (80 °C).
pub const HOT_LEVEL: i32 = 80_000;

/// Lower bound of the `Warm` band (60 °C).
pub const WARM_LEVEL: i32 = 60_000;

/// How a sensor's reading compares with its thresholds.
#[derive(Clone, Copy, Debug, PartialEq, Eq, Structural)]
pub enum ThermalStatus {
    Cool,
    Warm,
    Hot,
    Critical,
    Unknown,
}

/// One sensor as last read.
#[derive(Clone, Debug)]
pub struct SensorReading {
    pub label: String,
    /// Current temperature, if the sensor could be read (m°C).
    pub celsius: Option<i32>,
    /// Critical temperature that the sensor reports, if any (m°C).
    pub critical: Option<i32>,
    /// Highest temperature seen on this sensor's slot so far (m°C).
    pub max_seen: i32,
}

/// Status of a reading: `Unknown` without a temperature; else measured
/// against the critical level (the reported one, or the default) and the
/// fixed bands.
pub open spec fn status_of(celsius: Option<i32>, critical: Option<i32>) -> ThermalStatus {
    match celsius {
        None => ThermalStatus::Unknown,
        Some(t) => {
            let crit = match critical {
                Some(c) => c,
                None => DEFAULT_CRITICAL,
            };
            if t >= crit {
                ThermalStatus::Critical
            } else if t >= HOT_LEVEL {
                ThermalStatus::Hot
            } else if t >= WARM_LEVEL {
                ThermalStatus::Warm
            } else {
                ThermalStatus::Cool
            }
        },
    }
}

impl SensorReading {
    /// The status of this reading.
    pub open spec fn spec_status(&self) -> ThermalStatus {
        status_of(self.celsius, self.critical)
    }

    /// Classifies the reading: `Unknown` without a temperature, else
    /// `Critical` at or above the critical level, then `Hot` from 80 °C and
    /// `Warm` from 60 °C, `Cool` below.
    pub fn status(&self) -> (r: ThermalStatus)
        ensures
            r == self.spec_status(),
    {
        match self.celsius {
            None => ThermalStatus::Unknown,
            Some(t) => {
                let crit = self.critical.unwrap_or(DEFAULT_CRITICAL);
                if t >= crit {
                    ThermalStatus::Critical
                } else if t >= HOT_LEVEL {
                    ThermalStatus::Hot
                } else if t >= WARM_LEVEL {
                    ThermalStatus::Warm
                } else {
                    ThermalStatus::Cool
                }
            },
        }
    }
}

/// What one read of a sensor gives: its label, its temperature and its
/// critical level (m°C), the last two when the sensor reports them.
pub type RawReading = (String, Option<i32>, Option<i32>);

/// State of the monitor between two reads.
pub struct AppState {
    pub sensors: Vec<SensorReading>,
    /// Number of reads so far.
    pub tick: u64,
    pub should_quit: bool,
    /// Index of the sensor whose history is kept and shown.
    pub selected_idx: usize,
    /// Samples of the selected sensor, oldest first (m°C).
    pub temp_history: VecDeque<i32>,
    /// Highest temperature seen on each sensor slot (m°C).
    pub sensor_max: Vec<i32>,
}

/// A slot's peak after one more reading: it rises to the temperature when
/// that is higher.
pub open spec fn raise_peak(peak: i32, celsius: Option<i32>) -> i32 {
    match celsius {
        Some(t) => if t > peak { t } else { peak },
        None => peak,
    }
}

/// The peaks, padded with zeros up to `n` slots.
pub open spec fn padded_peaks(peaks: Seq<i32>, n: nat) -> Seq<i32> {
    if peaks.len() < n {
        peaks + Seq::new((n - peaks.len()) as nat, |i: int| 0i32)
    } else {
        peaks
    }
}

/// The peaks after a read: padded to the number of readings, then each
/// slot with a reading raised by it; slots past the readings keep theirs.
pub open spec fn next_peaks(peaks: Seq<i32>, readings: Seq<RawReading>) -> Seq<i32> {
    let p = padded_peaks(peaks, readings.len());
    Seq::new(
        p.len(),
        |i: int| if i < readings.len() { raise_peak(p[i], readings[i].1) } else { p[i] },
    )
}

/// The sensors that a read produces, each with the peak of its slot.
pub open spec fn sensors_from(readings: Seq<RawReading>, peaks: Seq<i32>) -> Seq<SensorReading> {
    Seq::new(
        readings.len(),
        |i: int|
            SensorReading {
                label: readings[i].0,
                celsius: readings[i].1,
                critical: readings[i].2,
                max_seen: peaks[i],
            },
    )
}

/// The sample recorded for the selected sensor: its temperature, or 0 when
/// there is no such sensor or it has none.
pub open spec fn history_sample(sensors: Seq<SensorReading>, idx: int) -> i32 {
    if 0 <= idx < sensors.len() {
        match sensors[idx].celsius {
            Some(t) => t,
            None => 0,
        }
    } else {
        0
    }
}

/// The history with one more sample; the oldest goes when it was full.
pub open spec fn push_sample(history: Seq<i32>, sample: i32) -> Seq<i32> {
    if history.len() >= HISTORY {
        history.drop_first().push(sample)
    } else {
        history.push(sample)
    }
}

/// Whether some sensor is critical.
pub open spec fn any_critical(sensors: Seq<SensorReading>) -> bool {
    exists|i: int|
        0 <= i < sensors.len() && (#[trigger] sensors[i]).spec_status() == ThermalStatus::Critical
}

/// Whether sensor `k` is the one reported as hottest: it has a temperature,
/// none is higher, and every later sensor with a temperature is cooler (of
/// equally hot sensors the last one).
pub open spec fn is_hottest(sensors: Seq<SensorReading>, k: int) -> bool {
    &&& 0 <= k < sensors.len()
    &&& sensors[k].celsius is Some
    &&& forall|j: int|
        0 <= j < sensors.len() && (#[trigger] sensors[j].celsius) is Some ==> sensors[j].celsius->0
            <= sensors[k].celsius->0
    &&& forall|j: int|
        k < j < sensors.len() && (#[trigger] sensors[j].celsius) is Some ==> sensors[j].celsius->0
            < sensors[k].celsius->0
}

/// The index that follows `idx` in a ring of `len` sensors.
pub open spec fn next_index(idx: int, len: int) -> int {
    (idx + 1) % len
}

/// The index that precedes `idx` in a ring of `len` sensors.
pub open spec fn prev_index(idx: int, len: int) -> int {
    if idx == 0 {
        len - 1
    } else {
        idx - 1
    }
}

/// A read keeps the state consistent.
proof fn lemma_update_keeps_consistent(before: AppState, after: AppState, rs: Seq<RawReading>)
    requires
        before.consistent(),
        after.sensor_max@ == next_peaks(before.sensor_max@, rs),
        after.sensors@ == sensors_from(rs, after.sensor_max@),
        after.selected_idx == before.selected_idx,
        after.temp_history@ == push_sample(
            before.temp_history@,
            history_sample(after.sensors@, before.selected_idx as int),
        ),
    ensures
        after.consistent(),
{
    let old_p = before.sensor_max@;
    let new_p = after.sensor_max@;
    let padded = padded_peaks(old_p, rs.len());
    assert forall|i: int| 0 <= i < new_p.len() implies #[trigger] new_p[i] >= 0 && (i
        < old_p.len() ==> new_p[i] >= old_p[i]) by {
        assert(padded[i] >= 0);
        if i < old_p.len() {
            assert(padded[i] == old_p[i]);
        }
    }
    let idx = before.selected_idx as int;
    assert(slot_peak(new_p, idx) >= slot_peak(old_p, idx)) by {
        if 0 <= idx < new_p.len() {
            assert(new_p[idx] >= 0);
        }
    }
    let sample = history_sample(after.sensors@, idx);
    assert(sample <= slot_peak(new_p, idx)) by {
        if 0 <= idx < after.sensors@.len() {
            assert(after.sensors@[idx].max_seen == new_p[idx]);
            assert(padded[idx] == padded[idx]);
        }
    }
    let h = before.temp_history@;
    let h2 = after.temp_history@;
    assert forall|k: int| 0 <= k < h2.len() implies #[trigger] h2[k] <= slot_peak(new_p, idx) by {
        if k == h2.len() - 1 {
        } else if h.len() >= HISTORY {
            assert(h2[k] == h[k + 1]);
        } else {
            assert(h2[k] == h[k]);
        }
    }
}

/// `idx % len + 1` and `idx + 1` leave the same remainder.
proof fn lemma_next_index_mod(idx: int, len: int)
    requires
        idx >= 0,
        len > 0,
    ensures
        (idx % len + 1) % len == (idx + 1) % len,
        0 <= idx % len < len,
{
    vstd::arithmetic::div_mod::lemma_add_mod_noop_right(1, idx, len);
    vstd::arithmetic::div_mod::lemma_mod_bound(idx, len);
}

/// The peak of slot `idx`, zero for a slot not read yet.
pub open spec fn slot_peak(peaks: Seq<i32>, idx: int) -> int {
    if 0 <= idx < peaks.len() {
        peaks[idx] as int
    } else {
        0
    }
}

impl AppState {
    /// The relations that `new` sets up and every operation keeps: each
    /// sensor shows the peak of its slot, no peak is below zero, the
    /// history holds at most `HISTORY` samples, and none of them is above
    /// the peak of the selected slot (so the chart's line stays under its
    /// top).
    pub open spec fn consistent(&self) -> bool {
        &&& self.sensors@.len() <= self.sensor_max@.len()
        &&& forall|i: int|
            0 <= i < self.sensors@.len() ==> #[trigger] self.sensors@[i].max_seen
                == self.sensor_max@[i]
        &&& forall|i: int| 0 <= i < self.sensor_max@.len() ==> #[trigger] self.sensor_max@[i] >= 0
        &&& self.temp_history@.len() <= HISTORY
        &&& forall|k: int|
            0 <= k < self.temp_history@.len() ==> #[trigger] self.temp_history@[k] <= slot_peak(
                self.sensor_max@,
                self.selected_idx as int,
            )
    }

    /// The highest temperature seen on each sensor slot (m°C).
    pub open spec fn peaks(&self) -> Seq<i32> {
        self.sensor_max@
    }

    /// An empty monitor: no sensors, no reads, first slot selected.
    pub fn new() -> (s: Self)
        ensures
            s.sensors@ == Seq::<SensorReading>::empty(),
            s.tick == 0,
            !s.should_quit,
            s.selected_idx == 0,
            s.temp_history@ == Seq::<i32>::empty(),
            s.peaks() == Seq::<i32>::empty(),
            s.consistent(),
    {
        AppState {
            sensors: Vec::new(),
            tick: 0,
            should_quit: false,
            selected_idx: 0,
            temp_history: VecDeque::with_capacity(HISTORY),
            sensor_max: Vec::new(),
        }
    }

    /// Takes in one read of all sensors: counts the tick, raises each
    /// slot's peak, replaces the sensor list and records a sample of the
    /// selected sensor in the history.
    pub fn update(&mut self, readings: Vec<RawReading>)
        requires
            old(self).tick < u64::MAX,
        ensures
            final(self).tick == old(self).tick + 1,
            final(self).should_quit == old(self).should_quit,
            final(self).selected_idx == old(self).selected_idx,
            final(self).peaks() == next_peaks(old(self).peaks(), readings@),
            final(self).sensors@ == sensors_from(readings@, final(self).peaks()),
            final(self).temp_history@ == push_sample(
                old(self).temp_history@,
                history_sample(final(self).sensors@, old(self).selected_idx as int),
            ),
            old(self).consistent() ==> final(self).consistent(),
    {
        let ghost before = *self;
        self.tick = self.tick + 1;
        let n = readings.len();
        let ghost rs = readings@;
        let ghost padded = padded_peaks(self.sensor_max@, n as nat);
        while self.sensor_max.len() < n
            invariant
                n == rs.len(),
                self.sensor_max@.len() <= padded.len(),
                self.sensor_max@ == padded.subrange(0, self.sensor_max@.len() as int),
                padded == padded_peaks(old(self).sensor_max@, n as nat),
                old(self).sensor_max@.len() <= self.sensor_max@.len(),
                self.tick == old(self).tick + 1,
                self.should_quit == old(self).should_quit,
                self.selected_idx == old(self).selected_idx,
                self.temp_history@ == old(self).temp_history@,
            decreases n - self.sensor_max@.len(),
        {
            self.sensor_max.push(0);
        }
        assert(self.sensor_max@ == padded);
        let mut sensors: Vec<SensorReading> = Vec::new();
        let mut i: usize = 0;
        while i < n
            invariant
                n == rs.len(),
                rs == readings@,
                self.tick == old(self).tick + 1,
                self.should_quit == old(self).should_quit,
                self.selected_idx == old(self).selected_idx,
                self.temp_history@ == old(self).temp_history@,
                padded == padded_peaks(old(self).sensor_max@, n as nat),
                i <= n,
                self.sensor_max@.len() == padded.len(),
                padded.len() >= n,
                forall|j: int|
                    0 <= j < i ==> #[trigger] self.sensor_max@[j] == raise_peak(
                        padded[j],
                        rs[j].1,
                    ),
                forall|j: int| i <= j < padded.len() ==> #[trigger] self.sensor_max@[j] == padded[j],
                sensors@.len() == i,
                forall|j: int|
                    0 <= j < i ==> #[trigger] sensors@[j] == (SensorReading {
                        label: rs[j].0,
                        celsius: rs[j].1,
                        critical: rs[j].2,
                        max_seen: self.sensor_max@[j],
                    }),
            decreases n - i,
        {
            let (label, celsius, critical) = (readings[i].0.clone(), readings[i].1, readings[i].2);
            if let Some(t) = celsius {
                if t > self.sensor_max[i] {
                    self.sensor_max.set(i, t);
                }
            }
            sensors.push(SensorReading { label, celsius, critical, max_seen: self.sensor_max[i] });
            i = i + 1;
        }
        assert(self.sensor_max@ =~= next_peaks(old(self).sensor_max@, rs));
        assert(sensors@ =~= sensors_from(rs, self.sensor_max@));
        self.sensors = sensors;
        let val = match self.sensors.get(self.selected_idx) {
            Some(s) => match s.celsius {
                Some(t) => t,
                None => 0,
            },
            None => 0,
        };
        if self.temp_history.len() >= HISTORY {
            self.temp_history.pop_front();
        }
        self.temp_history.push_back(val);
        proof {
            if before.consistent() {
                lemma_update_keeps_consistent(before, *self, rs);
            }
        }
    }

    /// Moves the selection to the next sensor, wrapping after the last one,
    /// and starts a fresh history; with no sensors nothing changes.
    pub fn select_next(&mut self)
        ensures
            old(self).sensors@.len() == 0 ==> *final(self) == *old(self),
            old(self).sensors@.len() > 0 ==> {
                &&& final(self).selected_idx == next_index(
                    old(self).selected_idx as int,
                    old(self).sensors@.len() as int,
                )
                &&& final(self).temp_history@ == Seq::<i32>::empty()
                &&& final(self).sensors == old(self).sensors
                &&& final(self).tick == old(self).tick
                &&& final(self).should_quit == old(self).should_quit
                &&& final(self).sensor_max == old(self).sensor_max
            },
            old(self).consistent() ==> final(self).consistent(),
    {
        if !self.sensors.is_empty() {
            let len = self.sensors.len();
            // `idx % len + 1` cannot overflow and is congruent to `idx + 1`.
            let r = self.selected_idx % len;
            proof {
                lemma_next_index_mod(self.selected_idx as int, len as int);
            }
            self.selected_idx = (r + 1) % len;
            self.temp_history.clear();
        }
    }

    /// Moves the selection to the previous sensor, wrapping before the
    /// first one, and starts a fresh history; with no sensors nothing
    /// changes.
    pub fn select_prev(&mut self)
        ensures
            old(self).sensors@.len() == 0 ==> *final(self) == *old(self),
            old(self).sensors@.len() > 0 ==> {
                &&& final(self).selected_idx == prev_index(
                    old(self).selected_idx as int,
                    old(self).sensors@.len() as int,
                )
                &&& final(self).temp_history@ == Seq::<i32>::empty()
                &&& final(self).sensors == old(self).sensors
                &&& final(self).tick == old(self).tick
                &&& final(self).should_quit == old(self).should_quit
                &&& final(self).sensor_max == old(self).sensor_max
            },
            old(self).consistent() ==> final(self).consistent(),
    {
        if !self.sensors.is_empty() {
            if self.selected_idx == 0 {
                self.selected_idx = self.sensors.len() - 1;
            } else {
                self.selected_idx = self.selected_idx - 1;
            }
            self.temp_history.clear();
        }
    }

    /// Whether some sensor is at or above its critical level.
    pub fn has_critical(&self) -> (r: bool)
        ensures
            r == any_critical(self.sensors@),
    {
        let mut i: usize = 0;
        while i < self.sensors.len()
            invariant
                i <= self.sensors@.len(),
                forall|j: int|
                    0 <= j < i ==> (#[trigger] self.sensors@[j]).spec_status()
                        != ThermalStatus::Critical,
            decreases self.sensors@.len() - i,
        {
            if self.sensors[i].status() == ThermalStatus::Critical {
                return true;
            }
            i = i + 1;
        }
        false
    }

    /// The hottest sensor that has a temperature (of equally hot ones the
    /// last), or `None` when no sensor has one.
    pub fn hottest(&self) -> (r: Option<&SensorReading>)
        ensures
            r is None <==> forall|j: int|
                0 <= j < self.sensors@.len() ==> (#[trigger] self.sensors@[j].celsius) is None,
            r is Some ==> exists|k: int|
                #[trigger] is_hottest(self.sensors@, k) && *r->0 == self.sensors@[k],
    {
        let mut best: Option<usize> = None;
        let mut i: usize = 0;
        while i < self.sensors.len()
            invariant
                i <= self.sensors@.len(),
                best is None ==> forall|j: int|
                    0 <= j < i ==> (#[trigger] self.sensors@[j].celsius) is None,
                best is Some ==> is_hottest(self.sensors@.subrange(0, i as int), best->0 as int),
            decreases self.sensors@.len() - i,
        {
            if let Some(t) = self.sensors[i].celsius {
                let take = match best {
                    None => true,
                    Some(b) => match self.sensors[b].celsius {
                        Some(bt) => t >= bt,
                        None => true,
                    },
                };
                if take {
                    best = Some(i);
                }
            }
            proof {
                let s = self.sensors@.subrange(0, i + 1);
                let s0 = self.sensors@.subrange(0, i as int);
                assert forall|j: int| 0 <= j < i implies s[j] == s0[j] by {}
                assert(s[i as int] == self.sensors@[i as int]);
            }
            i = i + 1;
        }
        assert(self.sensors@.subrange(0, i as int) =~= self.sensors@);
        match best {
            None => None,
            Some(b) => Some(&self.sensors[b]),
        }
    }
}

} // verus!

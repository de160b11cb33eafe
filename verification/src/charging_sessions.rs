//! Charging-session reconstruction: session windows from start/stop events,
//! and the per-signal series drawn from the observations inside a window.
use vstd::prelude::*;
use crate::counting::{
    as_positions, indices_where, lemma_indices_where_bounds, lemma_indices_where_complete,
    lemma_indices_where_step, lemma_indices_where_valid,
    lemma_select_after_keep, lemma_select_is_indexed, select_where,
};
use crate::text_order::{
    bytes_lt, lemma_bytes_lt_asymmetric, lemma_bytes_lt_total, lemma_bytes_lt_transitive,
    text_precedes,
};
use vstd::utf8::encode_utf8;
use crate::time::{instant_ok, instant_total_nanos, UtcInstant};

verus! {

// ---------------------------------------------------------------------------
// Session windows
// ---------------------------------------------------------------------------

/// One grouped row of charging session events: the earliest `start` and the
/// latest `stop` of a session, when present.
pub struct SessionEventBounds {
    pub vehicle_uid: String,
    pub session_id: String,
    pub started_at: Option<String>,
    pub ended_at: Option<String>,
}

/// A charging session with a known start.
pub struct ChargingSessionWindow {
    pub vehicle_uid: String,
    pub session_id: String,
    pub started_at: String,
    pub ended_at: Option<String>,
}

/// A session is reconstructed only when it has a start event.
pub open spec fn has_start(b: SessionEventBounds) -> bool {
    b.started_at is Some
}

/// `w` is the window of the bounds row `b`.
pub open spec fn window_of(w: ChargingSessionWindow, b: SessionEventBounds) -> bool {
    &&& w.vehicle_uid@ == b.vehicle_uid@
    &&& w.session_id@ == b.session_id@
    &&& b.started_at matches Some(s) && w.started_at@ == s@
    &&& w.ended_at == b.ended_at
}

/// Keeps the sessions that have a start, in order, as windows.
pub fn charging_session_windows(rows: Vec<SessionEventBounds>) -> (windows: Vec<ChargingSessionWindow>)
    ensures
        windows.len() == indices_where(rows@, |b: SessionEventBounds| has_start(b)).len(),
        forall|m: int|
            0 <= m < windows.len() ==> window_of(
                #[trigger] windows[m],
                rows@[indices_where(rows@, |b: SessionEventBounds| has_start(b))[m]],
            ),
{
    let ghost s = rows@;
    let ghost keep = |b: SessionEventBounds| has_start(b);
    let n = rows.len();
    // Move the rows out of the vector back to front, then take them in input
    // order from the reversed copy.
    let mut remaining = rows;
    let mut reversed: Vec<SessionEventBounds> = Vec::new();
    while remaining.len() > 0
        invariant
            remaining@.len() + reversed@.len() == s.len(),
            forall|k: int| 0 <= k < remaining@.len() ==> #[trigger] remaining@[k] == s[k],
            forall|k: int|
                0 <= k < reversed@.len() ==> #[trigger] reversed@[k] == s[s.len() - 1 - k],
        decreases remaining.len(),
    {
        let row = remaining.pop().unwrap();
        reversed.push(row);
    }
    let mut windows: Vec<ChargingSessionWindow> = Vec::new();
    let mut taken: Vec<usize> = Vec::new();
    let mut i: usize = 0;
    while i < n
        invariant
            n == s.len(),
            i <= n,
            reversed@.len() == n - i,
            forall|k: int| 0 <= k < reversed@.len() ==> #[trigger] reversed@[k] == s[s.len() - 1 - k],
            keep == (|b: SessionEventBounds| has_start(b)),
            windows@.len() == taken@.len(),
            as_positions(taken@) == indices_where(s.take(i as int), keep),
            forall|m: int|
                0 <= m < windows@.len() ==> window_of(#[trigger] windows@[m], s[taken@[m] as int]),
        decreases n - i,
    {
        proof {
            lemma_indices_where_step(s, keep, i as int);
        }
        let row = reversed.pop().unwrap();
        assert(row == s[i as int]);
        match row.started_at {
            Some(started_at) => {
                windows.push(ChargingSessionWindow {
                    vehicle_uid: row.vehicle_uid,
                    session_id: row.session_id,
                    started_at,
                    ended_at: row.ended_at,
                });
                taken.push(i);
                assert(as_positions(taken@) =~= indices_where(s.take(i + 1), keep));
            },
            None => {
                assert(as_positions(taken@) =~= indices_where(s.take(i + 1), keep));
            },
        }
        i = i + 1;
    }
    assert(s.take(n as int) =~= s);
    proof {
        assert forall|m: int| 0 <= m < windows.len() implies window_of(
            #[trigger] windows[m],
            s[indices_where(s, keep)[m]],
        ) by {
            assert(as_positions(taken@)[m] == taken@[m] as int);
        }
    }
    windows
}

/// Persisted status of a session: `complete` once it has a stop event,
/// `partial` before.
pub fn session_status(ended_at: &Option<String>) -> (status: &'static str)
    ensures
        status@ == if ended_at is Some {
            "complete"@
        } else {
            "partial"@
        },
{
    if ended_at.is_some() {
        "complete"
    } else {
        "partial"
    }
}

/// Upper bound of the observation query of a window: its stop time, or the
/// current time for a session still open.
pub fn observation_window_end(ended_at: &Option<String>, now: String) -> (end: String)
    ensures
        end@ == match ended_at {
            Some(e) => e@,
            None => now@,
        },
{
    match ended_at {
        Some(e) => e.clone(),
        None => now,
    }
}

// ---------------------------------------------------------------------------
// Signal series
// ---------------------------------------------------------------------------

/// How the numeric value of an observation stands.
#[derive(Clone, Copy, Debug, PartialEq, Eq)]
pub enum NumberValue {
    Absent,
    Finite,
    NonFinite,
}

/// One observation inside a charging window.
pub struct ChargingObservation {
    pub signal_key: String,
    pub observed_at: String,
    pub number: NumberValue,
    pub value_string: Option<String>,
}

/// The series a signal feeds.
#[derive(Clone, Copy, Debug, PartialEq, Eq)]
pub enum SignalKind {
    StateOfCharge,
    ChargePower,
    AmbientTemperature,
    BatteryTemperature,
    ChargerType,
    Other,
}

/// The series that the signal `key` feeds.
pub open spec fn signal_kind_of(key: Seq<char>) -> SignalKind {
    if key == "ev.soc_pct"@ {
        SignalKind::StateOfCharge
    } else if key == "ev.charge_power_kw"@ || key == "power.battery_power_kw"@ {
        SignalKind::ChargePower
    } else if key == "environment.ambient_temp_c"@ {
        SignalKind::AmbientTemperature
    } else if key == "ev.battery_temp_c"@ {
        SignalKind::BatteryTemperature
    } else if key == "ev.charger_type"@ {
        SignalKind::ChargerType
    } else {
        SignalKind::Other
    }
}

/// Classifies a signal key.
pub fn classify_signal_key(key: &String) -> (kind: SignalKind)
    ensures
        kind == signal_kind_of(key@),
{
    if *key == String::from_str("ev.soc_pct") {
        SignalKind::StateOfCharge
    } else if *key == String::from_str("ev.charge_power_kw") || *key == String::from_str(
        "power.battery_power_kw",
    ) {
        SignalKind::ChargePower
    } else if *key == String::from_str("environment.ambient_temp_c") {
        SignalKind::AmbientTemperature
    } else if *key == String::from_str("ev.battery_temp_c") {
        SignalKind::BatteryTemperature
    } else if *key == String::from_str("ev.charger_type") {
        SignalKind::ChargerType
    } else {
        SignalKind::Other
    }
}

/// State-of-charge readings with a number.
pub open spec fn feeds_soc(o: ChargingObservation) -> bool {
    signal_kind_of(o.signal_key@) == SignalKind::StateOfCharge && !(o.number is Absent)
}

/// Charge-power readings with a finite number.
pub open spec fn feeds_power(o: ChargingObservation) -> bool {
    signal_kind_of(o.signal_key@) == SignalKind::ChargePower && o.number is Finite
}

/// Ambient temperature readings with a number.
pub open spec fn feeds_ambient(o: ChargingObservation) -> bool {
    signal_kind_of(o.signal_key@) == SignalKind::AmbientTemperature && !(o.number is Absent)
}

/// Battery temperature readings with a number.
pub open spec fn feeds_battery(o: ChargingObservation) -> bool {
    signal_kind_of(o.signal_key@) == SignalKind::BatteryTemperature && !(o.number is Absent)
}

/// Charger-type readings with a text value.
pub open spec fn sets_charger_type(o: ChargingObservation) -> bool {
    signal_kind_of(o.signal_key@) == SignalKind::ChargerType && o.value_string is Some
}

/// The observations of one window bucketed by series, as positions into the
/// observations. The charger type comes from the last charger-type reading.
pub struct SessionSeries {
    pub soc: Vec<usize>,
    pub power: Vec<usize>,
    pub ambient: Vec<usize>,
    pub battery: Vec<usize>,
    pub charger_type_source: Option<usize>,
}

/// The last position satisfying `p`, if any.
pub open spec fn last_index_where(s: Seq<ChargingObservation>, p: spec_fn(ChargingObservation) -> bool) -> Option<int> {
    let ix = indices_where(s, p);
    if ix.len() == 0 {
        None
    } else {
        Some(ix.last())
    }
}

/// `series` buckets the observations `o` exactly.
pub open spec fn series_of(series: SessionSeries, o: Seq<ChargingObservation>) -> bool {
    &&& as_positions(series.soc@) == indices_where(o, |x: ChargingObservation| feeds_soc(x))
    &&& as_positions(series.power@) == indices_where(o, |x: ChargingObservation| feeds_power(x))
    &&& as_positions(series.ambient@) == indices_where(o, |x: ChargingObservation| feeds_ambient(x))
    &&& as_positions(series.battery@) == indices_where(o, |x: ChargingObservation| feeds_battery(x))
    &&& match series.charger_type_source {
        Some(k) => last_index_where(o, |x: ChargingObservation| sets_charger_type(x)) == Some(k as int),
        None => last_index_where(o, |x: ChargingObservation| sets_charger_type(x)) is None,
    }
}

/// Buckets the observations of one window into the series that the session
/// aggregates are computed from.
pub fn collect_session_series(observations: &Vec<ChargingObservation>) -> (series: SessionSeries)
    ensures
        series_of(series, observations@),
        series.charger_type_source matches Some(k) ==> k < observations.len() && sets_charger_type(
            observations@[k as int],
        ) && forall|j: int| k < j < observations.len() ==> !sets_charger_type(#[trigger] observations@[j]),
        series.charger_type_source is None <==> forall|j: int|
            0 <= j < observations.len() ==> !sets_charger_type(#[trigger] observations@[j]),
        forall|m: int|
            0 <= m < series.soc.len() ==> (#[trigger] series.soc[m]) < observations.len()
                && observations@[series.soc[m] as int].signal_key@ == "ev.soc_pct"@
                && !(observations@[series.soc[m] as int].number is Absent),
        forall|k: int|
            0 <= k < observations.len() && (#[trigger] observations@[k]).signal_key@ == "ev.soc_pct"@
                && !(observations@[k].number is Absent) ==> exists|m: int|
                0 <= m < series.soc.len() && #[trigger] series.soc[m] == k,
        forall|m: int|
            0 <= m < series.power.len() ==> (#[trigger] series.power[m]) < observations.len()
                && (observations@[series.power[m] as int].signal_key@ == "ev.charge_power_kw"@
                || observations@[series.power[m] as int].signal_key@ == "power.battery_power_kw"@)
                && observations@[series.power[m] as int].number is Finite,
        forall|k: int|
            0 <= k < observations.len() && ((#[trigger] observations@[k]).signal_key@ == "ev.charge_power_kw"@
                || observations@[k].signal_key@ == "power.battery_power_kw"@) && observations@[k].number is Finite
                ==> exists|m: int| 0 <= m < series.power.len() && #[trigger] series.power[m] == k,
        forall|m: int|
            0 <= m < series.ambient.len() ==> (#[trigger] series.ambient[m]) < observations.len()
                && observations@[series.ambient[m] as int].signal_key@ == "environment.ambient_temp_c"@
                && !(observations@[series.ambient[m] as int].number is Absent),
        forall|k: int|
            0 <= k < observations.len() && (#[trigger] observations@[k]).signal_key@ == "environment.ambient_temp_c"@
                && !(observations@[k].number is Absent) ==> exists|m: int|
                0 <= m < series.ambient.len() && #[trigger] series.ambient[m] == k,
        forall|m: int|
            0 <= m < series.battery.len() ==> (#[trigger] series.battery[m]) < observations.len()
                && observations@[series.battery[m] as int].signal_key@ == "ev.battery_temp_c"@
                && !(observations@[series.battery[m] as int].number is Absent),
        forall|k: int|
            0 <= k < observations.len() && (#[trigger] observations@[k]).signal_key@ == "ev.battery_temp_c"@
                && !(observations@[k].number is Absent) ==> exists|m: int|
                0 <= m < series.battery.len() && #[trigger] series.battery[m] == k,
        series.charger_type_source matches Some(k) ==> k < observations.len()
            && observations@[k as int].signal_key@ == "ev.charger_type"@
            && observations@[k as int].value_string is Some,
{
    let ghost o = observations@;
    let ghost soc_p = |x: ChargingObservation| feeds_soc(x);
    let ghost power_p = |x: ChargingObservation| feeds_power(x);
    let ghost ambient_p = |x: ChargingObservation| feeds_ambient(x);
    let ghost battery_p = |x: ChargingObservation| feeds_battery(x);
    let ghost charger_p = |x: ChargingObservation| sets_charger_type(x);
    let mut soc: Vec<usize> = Vec::new();
    let mut power: Vec<usize> = Vec::new();
    let mut ambient: Vec<usize> = Vec::new();
    let mut battery: Vec<usize> = Vec::new();
    let mut charger_type_source: Option<usize> = None;
    let n = observations.len();
    let mut i: usize = 0;
    while i < n
        invariant
            n == observations.len(),
            o == observations@,
            i <= n,
            soc_p == (|x: ChargingObservation| feeds_soc(x)),
            power_p == (|x: ChargingObservation| feeds_power(x)),
            ambient_p == (|x: ChargingObservation| feeds_ambient(x)),
            battery_p == (|x: ChargingObservation| feeds_battery(x)),
            charger_p == (|x: ChargingObservation| sets_charger_type(x)),
            as_positions(soc@) == indices_where(o.take(i as int), soc_p),
            as_positions(power@) == indices_where(o.take(i as int), power_p),
            as_positions(ambient@) == indices_where(o.take(i as int), ambient_p),
            as_positions(battery@) == indices_where(o.take(i as int), battery_p),
            match charger_type_source {
                Some(k) => last_index_where(o.take(i as int), charger_p) == Some(k as int),
                None => last_index_where(o.take(i as int), charger_p) is None,
            },
        decreases n - i,
    {
        proof {
            lemma_indices_where_step(o, soc_p, i as int);
            lemma_indices_where_step(o, power_p, i as int);
            lemma_indices_where_step(o, ambient_p, i as int);
            lemma_indices_where_step(o, battery_p, i as int);
            lemma_indices_where_step(o, charger_p, i as int);
        }
        let obs = &observations[i];
        let kind = classify_signal_key(&obs.signal_key);
        let has_number = match obs.number {
            NumberValue::Absent => false,
            _ => true,
        };
        let finite = match obs.number {
            NumberValue::Finite => true,
            _ => false,
        };
        match kind {
            SignalKind::StateOfCharge => {
                if has_number {
                    soc.push(i);
                }
            },
            SignalKind::ChargePower => {
                if finite {
                    power.push(i);
                }
            },
            SignalKind::AmbientTemperature => {
                if has_number {
                    ambient.push(i);
                }
            },
            SignalKind::BatteryTemperature => {
                if has_number {
                    battery.push(i);
                }
            },
            SignalKind::ChargerType => {
                if obs.value_string.is_some() {
                    charger_type_source = Some(i);
                }
            },
            SignalKind::Other => {},
        }
        assert(as_positions(soc@) =~= indices_where(o.take(i + 1), soc_p));
        assert(as_positions(power@) =~= indices_where(o.take(i + 1), power_p));
        assert(as_positions(ambient@) =~= indices_where(o.take(i + 1), ambient_p));
        assert(as_positions(battery@) =~= indices_where(o.take(i + 1), battery_p));
        i = i + 1;
    }
    assert(o.take(n as int) =~= o);
    let series = SessionSeries { soc, power, ambient, battery, charger_type_source };
    proof {
        lemma_charger_type_from_last_reading(o, series);
        lemma_series_hold_exactly_their_readings(o, series);
    }
    series
}

/// The session's charger type comes from its last charger-type reading with
/// text: the chosen reading is one, and no later observation is one; there is
/// no charger-type source exactly when the window has no such reading.
pub proof fn lemma_charger_type_from_last_reading(o: Seq<ChargingObservation>, s: SessionSeries)
    requires
        series_of(s, o),
    ensures
        s.charger_type_source matches Some(k) ==> k < o.len() && sets_charger_type(o[k as int]) && forall|j: int|
            k < j < o.len() ==> !sets_charger_type(#[trigger] o[j]),
        s.charger_type_source is None <==> forall|j: int| 0 <= j < o.len() ==> !sets_charger_type(#[trigger] o[j]),
{
    let charger = |x: ChargingObservation| sets_charger_type(x);
    lemma_indices_where_valid(o, charger);
    lemma_indices_where_bounds(o, charger);
    let ix = indices_where(o, charger);
    if ix.len() > 0 {
        assert(0 <= ix[ix.len() - 1] < o.len());
    }
}

/// Every position a series holds points, in order, at an observation that
/// feeds that series; so the state-of-charge series of a window is a valid
/// input of `soc_endpoints`, whose endpoints are state-of-charge readings.
pub proof fn lemma_series_read_their_observations(o: Seq<ChargingObservation>, s: SessionSeries)
    requires
        series_of(s, o),
    ensures
        forall|m: int| 0 <= m < s.soc.len() ==> (#[trigger] s.soc[m]) < o.len() && feeds_soc(o[s.soc[m] as int]),
        forall|m: int| 0 <= m < s.power.len() ==> (#[trigger] s.power[m]) < o.len() && feeds_power(o[s.power[m] as int]),
        forall|m: int|
            0 <= m < s.ambient.len() ==> (#[trigger] s.ambient[m]) < o.len() && feeds_ambient(o[s.ambient[m] as int]),
        forall|m: int|
            0 <= m < s.battery.len() ==> (#[trigger] s.battery[m]) < o.len() && feeds_battery(o[s.battery[m] as int]),
        forall|m1: int, m2: int| 0 <= m1 < m2 < s.soc.len() ==> #[trigger] s.soc[m1] < #[trigger] s.soc[m2],
        s.charger_type_source matches Some(k) ==> k < o.len() && sets_charger_type(o[k as int]),
{
    let soc = |x: ChargingObservation| feeds_soc(x);
    let power = |x: ChargingObservation| feeds_power(x);
    let ambient = |x: ChargingObservation| feeds_ambient(x);
    let battery = |x: ChargingObservation| feeds_battery(x);
    let charger = |x: ChargingObservation| sets_charger_type(x);
    lemma_indices_where_valid(o, soc);
    lemma_indices_where_valid(o, power);
    lemma_indices_where_valid(o, ambient);
    lemma_indices_where_valid(o, battery);
    lemma_indices_where_valid(o, charger);
    assert forall|m: int| 0 <= m < s.soc.len() implies (#[trigger] s.soc[m]) < o.len() && feeds_soc(o[s.soc[m] as int]) by {
        assert(as_positions(s.soc@)[m] == s.soc[m] as int);
    }
    assert forall|m: int| 0 <= m < s.power.len() implies (#[trigger] s.power[m]) < o.len() && feeds_power(o[s.power[m] as int]) by {
        assert(as_positions(s.power@)[m] == s.power[m] as int);
    }
    assert forall|m: int| 0 <= m < s.ambient.len() implies (#[trigger] s.ambient[m]) < o.len() && feeds_ambient(o[s.ambient[m] as int]) by {
        assert(as_positions(s.ambient@)[m] == s.ambient[m] as int);
    }
    assert forall|m: int| 0 <= m < s.battery.len() implies (#[trigger] s.battery[m]) < o.len() && feeds_battery(o[s.battery[m] as int]) by {
        assert(as_positions(s.battery@)[m] == s.battery[m] as int);
    }
    assert forall|m1: int, m2: int| 0 <= m1 < m2 < s.soc.len() implies #[trigger] s.soc[m1] < #[trigger] s.soc[m2] by {
        assert(as_positions(s.soc@)[m1] == s.soc[m1] as int);
        assert(as_positions(s.soc@)[m2] == s.soc[m2] as int);
    }
}

/// Each series is fed by its own signal keys and by no other.
pub proof fn lemma_signal_kinds_by_key(key: Seq<char>)
    ensures
        signal_kind_of(key) == SignalKind::StateOfCharge <==> key == "ev.soc_pct"@,
        signal_kind_of(key) == SignalKind::ChargePower <==> (key == "ev.charge_power_kw"@ || key
            == "power.battery_power_kw"@),
        signal_kind_of(key) == SignalKind::AmbientTemperature <==> key == "environment.ambient_temp_c"@,
        signal_kind_of(key) == SignalKind::BatteryTemperature <==> key == "ev.battery_temp_c"@,
        signal_kind_of(key) == SignalKind::ChargerType <==> key == "ev.charger_type"@,
{
    reveal_strlit("ev.soc_pct");
    reveal_strlit("ev.charge_power_kw");
    reveal_strlit("power.battery_power_kw");
    reveal_strlit("environment.ambient_temp_c");
    reveal_strlit("ev.battery_temp_c");
    reveal_strlit("ev.charger_type");
    assert("ev.soc_pct"@.len() != "ev.charge_power_kw"@.len());
    assert("ev.soc_pct"@.len() != "power.battery_power_kw"@.len());
    assert("ev.soc_pct"@.len() != "environment.ambient_temp_c"@.len());
    assert("ev.soc_pct"@.len() != "ev.battery_temp_c"@.len());
    assert("ev.soc_pct"@.len() != "ev.charger_type"@.len());
    assert("ev.charge_power_kw"@.len() != "power.battery_power_kw"@.len());
    assert("ev.charge_power_kw"@.len() != "environment.ambient_temp_c"@.len());
    assert("ev.charge_power_kw"@.len() != "ev.battery_temp_c"@.len());
    assert("ev.charge_power_kw"@.len() != "ev.charger_type"@.len());
    assert("power.battery_power_kw"@.len() != "environment.ambient_temp_c"@.len());
    assert("power.battery_power_kw"@.len() != "ev.battery_temp_c"@.len());
    assert("power.battery_power_kw"@.len() != "ev.charger_type"@.len());
    assert("environment.ambient_temp_c"@.len() != "ev.battery_temp_c"@.len());
    assert("environment.ambient_temp_c"@.len() != "ev.charger_type"@.len());
    assert("ev.battery_temp_c"@.len() != "ev.charger_type"@.len());
}

/// Each series holds exactly the readings that feed it, as positions into
/// the window's observations: state of charge from `ev.soc_pct` readings
/// with a number, charge power from `ev.charge_power_kw` and
/// `power.battery_power_kw` readings with a finite number, ambient and
/// battery temperature from `environment.ambient_temp_c` and
/// `ev.battery_temp_c` readings with a number.
pub proof fn lemma_series_hold_exactly_their_readings(o: Seq<ChargingObservation>, s: SessionSeries)
    requires
        series_of(s, o),
    ensures
        forall|m: int|
            0 <= m < s.soc.len() ==> (#[trigger] s.soc[m]) < o.len() && o[s.soc[m] as int].signal_key@
                == "ev.soc_pct"@ && !(o[s.soc[m] as int].number is Absent),
        forall|k: int|
            0 <= k < o.len() && (#[trigger] o[k]).signal_key@ == "ev.soc_pct"@ && !(o[k].number is Absent)
                ==> exists|m: int| 0 <= m < s.soc.len() && #[trigger] s.soc[m] == k,
        forall|m: int|
            0 <= m < s.power.len() ==> (#[trigger] s.power[m]) < o.len() && (o[s.power[m] as int].signal_key@
                == "ev.charge_power_kw"@ || o[s.power[m] as int].signal_key@ == "power.battery_power_kw"@)
                && o[s.power[m] as int].number is Finite,
        forall|k: int|
            0 <= k < o.len() && ((#[trigger] o[k]).signal_key@ == "ev.charge_power_kw"@ || o[k].signal_key@
                == "power.battery_power_kw"@) && o[k].number is Finite ==> exists|m: int|
                0 <= m < s.power.len() && #[trigger] s.power[m] == k,
        forall|m: int|
            0 <= m < s.ambient.len() ==> (#[trigger] s.ambient[m]) < o.len() && o[s.ambient[m] as int].signal_key@
                == "environment.ambient_temp_c"@ && !(o[s.ambient[m] as int].number is Absent),
        forall|k: int|
            0 <= k < o.len() && (#[trigger] o[k]).signal_key@ == "environment.ambient_temp_c"@ && !(
            o[k].number is Absent) ==> exists|m: int| 0 <= m < s.ambient.len() && #[trigger] s.ambient[m] == k,
        forall|m: int|
            0 <= m < s.battery.len() ==> (#[trigger] s.battery[m]) < o.len() && o[s.battery[m] as int].signal_key@
                == "ev.battery_temp_c"@ && !(o[s.battery[m] as int].number is Absent),
        forall|k: int|
            0 <= k < o.len() && (#[trigger] o[k]).signal_key@ == "ev.battery_temp_c"@ && !(o[k].number is Absent)
                ==> exists|m: int| 0 <= m < s.battery.len() && #[trigger] s.battery[m] == k,
        s.charger_type_source matches Some(k) ==> k < o.len() && o[k as int].signal_key@ == "ev.charger_type"@
            && o[k as int].value_string is Some,
{
    lemma_series_read_their_observations(o, s);
    assert forall|m: int| 0 <= m < s.soc.len() implies (#[trigger] s.soc[m]) < o.len() && o[s.soc[m] as int].signal_key@
        == "ev.soc_pct"@ && !(o[s.soc[m] as int].number is Absent) by {
        lemma_signal_kinds_by_key(o[s.soc[m] as int].signal_key@);
    }
    assert forall|m: int| 0 <= m < s.power.len() implies (#[trigger] s.power[m]) < o.len() && (o[s.power[m] as int].signal_key@
        == "ev.charge_power_kw"@ || o[s.power[m] as int].signal_key@ == "power.battery_power_kw"@)
        && o[s.power[m] as int].number is Finite by {
        lemma_signal_kinds_by_key(o[s.power[m] as int].signal_key@);
    }
    assert forall|m: int| 0 <= m < s.ambient.len() implies (#[trigger] s.ambient[m]) < o.len() && o[s.ambient[m] as int].signal_key@
        == "environment.ambient_temp_c"@ && !(o[s.ambient[m] as int].number is Absent) by {
        lemma_signal_kinds_by_key(o[s.ambient[m] as int].signal_key@);
    }
    assert forall|m: int| 0 <= m < s.battery.len() implies (#[trigger] s.battery[m]) < o.len() && o[s.battery[m] as int].signal_key@
        == "ev.battery_temp_c"@ && !(o[s.battery[m] as int].number is Absent) by {
        lemma_signal_kinds_by_key(o[s.battery[m] as int].signal_key@);
    }
    if s.charger_type_source is Some {
        lemma_signal_kinds_by_key(o[s.charger_type_source->0 as int].signal_key@);
    }
    let soc = |x: ChargingObservation| feeds_soc(x);
    let power = |x: ChargingObservation| feeds_power(x);
    let ambient = |x: ChargingObservation| feeds_ambient(x);
    let battery = |x: ChargingObservation| feeds_battery(x);
    assert forall|k: int|
        0 <= k < o.len() && (#[trigger] o[k]).signal_key@ == "ev.soc_pct"@ && !(o[k].number is Absent) implies exists|m: int|
        0 <= m < s.soc.len() && #[trigger] s.soc[m] == k by {
        lemma_signal_kinds_by_key(o[k].signal_key@);
        lemma_indices_where_complete(o, soc, k);
        let m = choose|m: int| 0 <= m < indices_where(o, soc).len() && #[trigger] indices_where(o, soc)[m] == k;
        assert(as_positions(s.soc@)[m] == s.soc[m] as int);
    }
    assert forall|k: int|
        0 <= k < o.len() && ((#[trigger] o[k]).signal_key@ == "ev.charge_power_kw"@ || o[k].signal_key@
            == "power.battery_power_kw"@) && o[k].number is Finite implies exists|m: int|
        0 <= m < s.power.len() && #[trigger] s.power[m] == k by {
        lemma_signal_kinds_by_key(o[k].signal_key@);
        lemma_indices_where_complete(o, power, k);
        let m = choose|m: int| 0 <= m < indices_where(o, power).len() && #[trigger] indices_where(o, power)[m] == k;
        assert(as_positions(s.power@)[m] == s.power[m] as int);
    }
    assert forall|k: int|
        0 <= k < o.len() && (#[trigger] o[k]).signal_key@ == "environment.ambient_temp_c"@ && !(
        o[k].number is Absent) implies exists|m: int| 0 <= m < s.ambient.len() && #[trigger] s.ambient[m] == k by {
        lemma_signal_kinds_by_key(o[k].signal_key@);
        lemma_indices_where_complete(o, ambient, k);
        let m = choose|m: int| 0 <= m < indices_where(o, ambient).len() && #[trigger] indices_where(o, ambient)[m] == k;
        assert(as_positions(s.ambient@)[m] == s.ambient[m] as int);
    }
    assert forall|k: int|
        0 <= k < o.len() && (#[trigger] o[k]).signal_key@ == "ev.battery_temp_c"@ && !(o[k].number is Absent)
            implies exists|m: int| 0 <= m < s.battery.len() && #[trigger] s.battery[m] == k by {
        lemma_signal_kinds_by_key(o[k].signal_key@);
        lemma_indices_where_complete(o, battery, k);
        let m = choose|m: int| 0 <= m < indices_where(o, battery).len() && #[trigger] indices_where(o, battery)[m] == k;
        assert(as_positions(s.battery@)[m] == s.battery[m] as int);
    }
}

/// An observation that feeds no series: an unknown signal, a numeric signal
/// without a usable number, or a charger-type reading without text.
pub open spec fn is_ignored(o: ChargingObservation) -> bool {
    !(feeds_soc(o) || feeds_power(o) || feeds_ambient(o) || feeds_battery(o) || sets_charger_type(o))
}

/// The observations that feed some series, in order.
pub open spec fn relevant_observations(o: Seq<ChargingObservation>) -> Seq<ChargingObservation> {
    select_where(o, |x: ChargingObservation| !is_ignored(x))
}

/// The readings of each series depend only on the relevant observations:
/// inserting or removing ignored observations anywhere changes no series.
pub proof fn lemma_ignored_observations_change_no_series(o: Seq<ChargingObservation>)
    ensures
        select_where(o, |x: ChargingObservation| feeds_soc(x)) == select_where(
            relevant_observations(o),
            |x: ChargingObservation| feeds_soc(x),
        ),
        select_where(o, |x: ChargingObservation| feeds_power(x)) == select_where(
            relevant_observations(o),
            |x: ChargingObservation| feeds_power(x),
        ),
        select_where(o, |x: ChargingObservation| feeds_ambient(x)) == select_where(
            relevant_observations(o),
            |x: ChargingObservation| feeds_ambient(x),
        ),
        select_where(o, |x: ChargingObservation| feeds_battery(x)) == select_where(
            relevant_observations(o),
            |x: ChargingObservation| feeds_battery(x),
        ),
        select_where(o, |x: ChargingObservation| sets_charger_type(x)) == select_where(
            relevant_observations(o),
            |x: ChargingObservation| sets_charger_type(x),
        ),
{
    let keep = |x: ChargingObservation| !is_ignored(x);
    lemma_select_after_keep(o, |x: ChargingObservation| feeds_soc(x), keep);
    lemma_select_after_keep(o, |x: ChargingObservation| feeds_power(x), keep);
    lemma_select_after_keep(o, |x: ChargingObservation| feeds_ambient(x), keep);
    lemma_select_after_keep(o, |x: ChargingObservation| feeds_battery(x), keep);
    lemma_select_after_keep(o, |x: ChargingObservation| sets_charger_type(x), keep);
}

/// Two observation lists with the same relevant observations (for example,
/// one list and the same list with ignored observations inserted) give
/// series that read the same observations, the same charger-type reading,
/// and the same choice of first and last state-of-charge reading.
pub proof fn lemma_same_relevant_observations_same_series(
    o1: Seq<ChargingObservation>,
    o2: Seq<ChargingObservation>,
    s1: SessionSeries,
    s2: SessionSeries,
)
    requires
        relevant_observations(o1) == relevant_observations(o2),
        series_of(s1, o1),
        series_of(s2, o2),
    ensures
        s1.soc.len() == s2.soc.len(),
        s1.power.len() == s2.power.len(),
        s1.ambient.len() == s2.ambient.len(),
        s1.battery.len() == s2.battery.len(),
        forall|q: int| 0 <= q < s1.soc.len() ==> o1[s1.soc[q] as int] == o2[#[trigger] s2.soc[q] as int],
        forall|q: int| 0 <= q < s1.power.len() ==> o1[s1.power[q] as int] == o2[#[trigger] s2.power[q] as int],
        forall|q: int| 0 <= q < s1.ambient.len() ==> o1[s1.ambient[q] as int] == o2[#[trigger] s2.ambient[q] as int],
        forall|q: int| 0 <= q < s1.battery.len() ==> o1[s1.battery[q] as int] == o2[#[trigger] s2.battery[q] as int],
        s1.charger_type_source is Some <==> s2.charger_type_source is Some,
        s1.charger_type_source matches Some(a) ==> o1[a as int] == o2[s2.charger_type_source->0 as int],
        forall|p: int|
            is_first_earliest(o1, as_positions(s1.soc@), p) <==> #[trigger] is_first_earliest(
                o2,
                as_positions(s2.soc@),
                p,
            ),
        forall|p: int|
            is_last_latest(o1, as_positions(s1.soc@), p) <==> #[trigger] is_last_latest(
                o2,
                as_positions(s2.soc@),
                p,
            ),
{
    lemma_ignored_observations_change_no_series(o1);
    lemma_ignored_observations_change_no_series(o2);
    let soc = |x: ChargingObservation| feeds_soc(x);
    let power = |x: ChargingObservation| feeds_power(x);
    let ambient = |x: ChargingObservation| feeds_ambient(x);
    let battery = |x: ChargingObservation| feeds_battery(x);
    let charger = |x: ChargingObservation| sets_charger_type(x);
    lemma_select_is_indexed(o1, soc);
    lemma_select_is_indexed(o2, soc);
    lemma_select_is_indexed(o1, power);
    lemma_select_is_indexed(o2, power);
    lemma_select_is_indexed(o1, ambient);
    lemma_select_is_indexed(o2, ambient);
    lemma_select_is_indexed(o1, battery);
    lemma_select_is_indexed(o2, battery);
    lemma_select_is_indexed(o1, charger);
    lemma_select_is_indexed(o2, charger);
    assert(as_positions(s1.soc@).len() == s1.soc.len());
    assert(as_positions(s2.soc@).len() == s2.soc.len());
    assert forall|q: int| 0 <= q < s1.soc.len() implies o1[s1.soc[q] as int] == o2[#[trigger] s2.soc[q] as int] by {
        assert(as_positions(s1.soc@)[q] == s1.soc[q] as int);
        assert(as_positions(s2.soc@)[q] == s2.soc[q] as int);
        assert(select_where(o1, soc)[q] == select_where(o2, soc)[q]);
    }
    assert forall|q: int| 0 <= q < s1.power.len() implies o1[s1.power[q] as int] == o2[#[trigger] s2.power[q] as int] by {
        assert(as_positions(s1.power@)[q] == s1.power[q] as int);
        assert(as_positions(s2.power@)[q] == s2.power[q] as int);
        assert(select_where(o1, power)[q] == select_where(o2, power)[q]);
    }
    assert forall|q: int| 0 <= q < s1.ambient.len() implies o1[s1.ambient[q] as int] == o2[#[trigger] s2.ambient[q] as int] by {
        assert(as_positions(s1.ambient@)[q] == s1.ambient[q] as int);
        assert(as_positions(s2.ambient@)[q] == s2.ambient[q] as int);
        assert(select_where(o1, ambient)[q] == select_where(o2, ambient)[q]);
    }
    assert forall|q: int| 0 <= q < s1.battery.len() implies o1[s1.battery[q] as int] == o2[#[trigger] s2.battery[q] as int] by {
        assert(as_positions(s1.battery@)[q] == s1.battery[q] as int);
        assert(as_positions(s2.battery@)[q] == s2.battery[q] as int);
        assert(select_where(o1, battery)[q] == select_where(o2, battery)[q]);
    }
    let c1 = indices_where(o1, charger);
    let c2 = indices_where(o2, charger);
    if c1.len() > 0 {
        assert(select_where(o1, charger)[c1.len() - 1] == select_where(o2, charger)[c2.len() - 1]);
    }
    let ix1 = as_positions(s1.soc@);
    let ix2 = as_positions(s2.soc@);
    assert(ix1.len() == ix2.len());
    assert forall|q: int|
        #![trigger reading_time(o1, ix1, q)]
        #![trigger reading_time(o2, ix2, q)]
        0 <= q < ix1.len() implies reading_time(o1, ix1, q) == reading_time(o2, ix2, q) by {
        assert(ix1[q] == s1.soc[q] as int);
        assert(ix2[q] == s2.soc[q] as int);
        assert(select_where(o1, soc)[q] == select_where(o2, soc)[q]);
    }
    assert forall|p: int| is_first_earliest(o1, ix1, p) <==> #[trigger] is_first_earliest(o2, ix2, p) by {
        if 0 <= p < ix1.len() {
            assert(reading_time(o1, ix1, p) == reading_time(o2, ix2, p));
        }
    }
    assert forall|p: int| is_last_latest(o1, ix1, p) <==> #[trigger] is_last_latest(o2, ix2, p) by {
        if 0 <= p < ix1.len() {
            assert(reading_time(o1, ix1, p) == reading_time(o2, ix2, p));
        }
    }
}

// ---------------------------------------------------------------------------
// State-of-charge endpoints
// ---------------------------------------------------------------------------

/// UTF-8 bytes of the timestamp of the `q`-th reading of series `ix`.
pub open spec fn reading_time(o: Seq<ChargingObservation>, ix: Seq<int>, q: int) -> Seq<u8> {
    encode_utf8(o[ix[q]].observed_at@)
}

/// Position `p` of series `ix` is where a stable sort by timestamp puts
/// first: no reading is earlier, and every reading before it is later.
pub open spec fn is_first_earliest(o: Seq<ChargingObservation>, ix: Seq<int>, p: int) -> bool {
    &&& 0 <= p < ix.len()
    &&& forall|q: int|
        0 <= q < ix.len() ==> !bytes_lt(#[trigger] reading_time(o, ix, q), reading_time(o, ix, p))
    &&& forall|q: int|
        0 <= q < p ==> bytes_lt(reading_time(o, ix, p), #[trigger] reading_time(o, ix, q))
}

/// Position `p` of series `ix` is where a stable sort by timestamp puts
/// last: no reading is later, and every reading after it is earlier.
pub open spec fn is_last_latest(o: Seq<ChargingObservation>, ix: Seq<int>, p: int) -> bool {
    &&& 0 <= p < ix.len()
    &&& forall|q: int|
        0 <= q < ix.len() ==> !bytes_lt(reading_time(o, ix, p), #[trigger] reading_time(o, ix, q))
    &&& forall|q: int|
        p < q < ix.len() ==> bytes_lt(#[trigger] reading_time(o, ix, q), reading_time(o, ix, p))
}

/// Positions, in the state-of-charge series, of the session's first and last
/// readings.
#[derive(Clone, Copy, Debug, PartialEq, Eq)]
pub struct SocEndpoints {
    pub start: usize,
    pub end: usize,
}

/// Finds the first and the last state-of-charge reading of a session, as a
/// stable sort of the series by timestamp would order them. `None` when the
/// series is empty.
pub fn soc_endpoints(observations: &Vec<ChargingObservation>, soc: &Vec<usize>) -> (ends: Option<
    SocEndpoints,
>)
    requires
        forall|m: int| 0 <= m < soc.len() ==> #[trigger] soc[m] < observations.len(),
    ensures
        ends is None <==> soc.len() == 0,
        ends matches Some(e) ==> is_first_earliest(observations@, as_positions(soc@), e.start as int)
            && is_last_latest(observations@, as_positions(soc@), e.end as int),
{
    let n = soc.len();
    if n == 0 {
        return None;
    }
    let ghost o = observations@;
    let ghost ix = as_positions(soc@);
    let mut start: usize = 0;
    let mut end: usize = 0;
    proof {
        lemma_bytes_lt_irreflexive_at(o, ix, 0);
    }
    let mut m: usize = 1;
    while m < n
        invariant
            n == soc.len(),
            o == observations@,
            ix == as_positions(soc@),
            forall|k: int| 0 <= k < soc.len() ==> #[trigger] soc[k] < observations.len(),
            1 <= m <= n,
            start < m,
            end < m,
            forall|q: int| 0 <= q < m ==> !bytes_lt(#[trigger] reading_time(o, ix, q), reading_time(o, ix, start as int)),
            forall|q: int| 0 <= q < start ==> bytes_lt(reading_time(o, ix, start as int), #[trigger] reading_time(o, ix, q)),
            forall|q: int| 0 <= q < m ==> !bytes_lt(reading_time(o, ix, end as int), #[trigger] reading_time(o, ix, q)),
            forall|q: int| end < q < m ==> bytes_lt(#[trigger] reading_time(o, ix, q), reading_time(o, ix, end as int)),
        decreases n - m,
    {
        let tm = &observations[soc[m]].observed_at;
        let earlier = text_precedes(tm.as_str(), observations[soc[start]].observed_at.as_str());
        let before_end = text_precedes(tm.as_str(), observations[soc[end]].observed_at.as_str());
        let ghost tsm = reading_time(o, ix, m as int);
        let ghost tss = reading_time(o, ix, start as int);
        let ghost tse = reading_time(o, ix, end as int);
        assert(earlier == bytes_lt(tsm, tss));
        assert(before_end == bytes_lt(tsm, tse));
        proof {
            lemma_bytes_lt_irreflexive_at(o, ix, m as int);
            if earlier {
                assert forall|q: int| 0 <= q < m + 1 implies !bytes_lt(#[trigger] reading_time(o, ix, q), tsm) by {
                    if q < m && bytes_lt(reading_time(o, ix, q), tsm) {
                        lemma_bytes_lt_transitive(reading_time(o, ix, q), tsm, tss);
                    }
                }
                assert forall|q: int| 0 <= q < m implies bytes_lt(tsm, #[trigger] reading_time(o, ix, q)) by {
                    let tq = reading_time(o, ix, q);
                    lemma_bytes_lt_total(tq, tss);
                    if tq != tss {
                        lemma_bytes_lt_transitive(tsm, tss, tq);
                    }
                }
            } else {
                assert(!bytes_lt(reading_time(o, ix, m as int), tss));
            }
            if !before_end {
                assert forall|q: int| 0 <= q < m + 1 implies !bytes_lt(tsm, #[trigger] reading_time(o, ix, q)) by {
                    let tq = reading_time(o, ix, q);
                    if q < m && bytes_lt(tsm, tq) {
                        lemma_bytes_lt_total(tsm, tse);
                        if tsm != tse {
                            lemma_bytes_lt_transitive(tse, tsm, tq);
                        }
                    }
                }
            } else {
                lemma_bytes_lt_asymmetric(tsm, tse);
                assert(!bytes_lt(tse, reading_time(o, ix, m as int)));
                assert(bytes_lt(reading_time(o, ix, m as int), tse));
            }
        }
        if earlier {
            start = m;
        }
        if !before_end {
            end = m;
        }
        m = m + 1;
    }
    Some(SocEndpoints { start, end })
}

/// The reading chosen as a session's first is never later than the reading
/// chosen as its last, and when the two share a timestamp the first does not
/// come after the last in the series.
pub proof fn lemma_soc_start_not_after_end(o: Seq<ChargingObservation>, ix: Seq<int>, start: int, end: int)
    requires
        is_first_earliest(o, ix, start),
        is_last_latest(o, ix, end),
    ensures
        !bytes_lt(reading_time(o, ix, end), reading_time(o, ix, start)),
        reading_time(o, ix, start) == reading_time(o, ix, end) ==> start <= end,
{
    assert(!bytes_lt(reading_time(o, ix, end), reading_time(o, ix, start)));
    if start > end {
        assert(bytes_lt(reading_time(o, ix, start), reading_time(o, ix, end)));
        lemma_bytes_lt_irreflexive_at(o, ix, start);
    }
}

proof fn lemma_bytes_lt_irreflexive_at(o: Seq<ChargingObservation>, ix: Seq<int>, q: int)
    ensures
        !bytes_lt(reading_time(o, ix, q), reading_time(o, ix, q)),
{
    crate::text_order::lemma_bytes_lt_irreflexive(reading_time(o, ix, q));
}

// ---------------------------------------------------------------------------
// Session duration
// ---------------------------------------------------------------------------

/// Computes how many whole seconds a charging session lasted: when both
/// ends are known and the end is after the start, the span rounded down to
/// whole seconds; zero otherwise.
pub fn charging_duration_seconds(started: Option<UtcInstant>, ended: Option<UtcInstant>) -> (secs: i64)
    requires
        started matches Some(s) ==> instant_ok(s),
        ended matches Some(e) ==> instant_ok(e),
    ensures
        secs >= 0,
        match (started, ended) {
            (Some(s), Some(e)) => if instant_total_nanos(e) > instant_total_nanos(s) {
                secs * 1_000_000_000 <= instant_total_nanos(e) - instant_total_nanos(s)
                    < secs * 1_000_000_000 + 1_000_000_000
            } else {
                secs == 0
            },
            _ => secs == 0,
        },
{
    match (started, ended) {
        (Some(s), Some(e)) => {
            if e.secs > s.secs || (e.secs == s.secs && e.nanos > s.nanos) {
                let whole = e.secs - s.secs;
                if e.nanos >= s.nanos {
                    whole
                } else {
                    whole - 1
                }
            } else {
                0
            }
        },
        _ => 0,
    }
}

} // verus!

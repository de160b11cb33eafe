//! Rows of an ingest batch: the vehicle and batch envelope, and the signal
//! observations of the accepted records.
use vstd::prelude::*;
use crate::counting::{
    indices_where, lemma_indices_where_complete, lemma_indices_where_step, lemma_indices_where_valid,
};
use crate::ids::{is_hyphenated_uuid_v4, new_uuid_v4_text};
use crate::job_kind::opt_text;
use crate::time::{instant_text, render_instant, UtcInstant};

verus! {

/// The canonical vehicle row created on first sight of a vehicle.
pub struct VehicleRow {
    pub vehicle_uid: String,
    pub source_account_id: String,
    pub powertrain_class: String,
    pub created_at: String,
    pub updated_at: String,
}

/// Plans the vehicle row of a batch; vehicles are recorded as battery
/// electric, created and updated at ingest time.
pub fn plan_vehicle_row(vehicle_uid: &str, source_account_id: &str, now: &str) -> (row: VehicleRow)
    ensures
        row.vehicle_uid@ == vehicle_uid@,
        row.source_account_id@ == source_account_id@,
        row.powertrain_class@ == "bev"@,
        row.created_at@ == now@,
        row.updated_at@ == now@,
{
    VehicleRow {
        vehicle_uid: String::from_str(vehicle_uid),
        source_account_id: String::from_str(source_account_id),
        powertrain_class: String::from_str("bev"),
        created_at: String::from_str(now),
        updated_at: String::from_str(now),
    }
}

/// The provenance row of one ingest batch.
pub struct IngestBatchRow {
    pub batch_id: String,
    pub vehicle_uid: String,
    pub schema_version: String,
    pub source: String,
    pub capture_started_at: String,
    pub capture_ended_at: String,
    pub received_at: String,
}

/// Plans the provenance row of a batch, received now, with its capture
/// window rendered as RFC 3339 text. `None` when `chrono` cannot represent
/// one of the two capture instants.
pub fn plan_ingest_batch_row(
    batch_id: String,
    vehicle_uid: &str,
    schema_version: &str,
    source_upper: &str,
    capture_started_at: UtcInstant,
    capture_ended_at: UtcInstant,
    now: &str,
) -> (plan: Option<IngestBatchRow>)
    ensures
        plan is Some <==> (instant_text(capture_started_at) is Some && instant_text(capture_ended_at) is Some),
        plan matches Some(row) ==> {
            &&& row.batch_id@ == batch_id@
            &&& row.vehicle_uid@ == vehicle_uid@
            &&& row.schema_version@ == schema_version@
            &&& row.source@ == source_upper@
            &&& row.capture_started_at@ == instant_text(capture_started_at)->0
            &&& row.capture_ended_at@ == instant_text(capture_ended_at)->0
            &&& row.received_at@ == now@
        },
{
    let started = render_instant(capture_started_at);
    let ended = render_instant(capture_ended_at);
    match (started, ended) {
        (Some(capture_started_at), Some(capture_ended_at)) => Some(IngestBatchRow {
            batch_id,
            vehicle_uid: String::from_str(vehicle_uid),
            schema_version: String::from_str(schema_version),
            source: String::from_str(source_upper),
            capture_started_at,
            capture_ended_at,
            received_at: String::from_str(now),
        }),
        _ => None,
    }
}

/// A boolean as stored: 1 for true, 0 for false.
pub open spec fn stored_bool(b: bool) -> i64 {
    if b {
        1
    } else {
        0
    }
}

/// Stored form of an optional boolean reading.
pub fn stored_bool_value(value: Option<bool>) -> (stored: Option<i64>)
    ensures
        stored == match value {
            Some(b) => Some(stored_bool(b)),
            None => None,
        },
{
    match value {
        Some(b) => Some(if b { 1 } else { 0 }),
        None => None,
    }
}

/// Stored form of the estimated-temperature flag; an absent flag means not
/// estimated.
pub fn stored_estimated_flag(value: Option<bool>) -> (stored: i64)
    ensures
        stored == match value {
            Some(b) => stored_bool(b),
            None => 0,
        },
{
    match value {
        Some(true) => 1,
        _ => 0,
    }
}

// ---------------------------------------------------------------------------
// Signal observations
// ---------------------------------------------------------------------------

/// A record that validation rejected: its position in the batch and why.
pub struct IngestRecordError {
    pub index: usize,
    pub message: String,
}

impl IngestRecordError {
    /// A copy of the error.
    pub fn duplicate(&self) -> (e: IngestRecordError)
        ensures
            e.index == self.index,
            e.message@ == self.message@,
    {
        IngestRecordError { index: self.index, message: self.message.clone() }
    }
}

/// The non-numeric fields of a validated telemetry record, with the values
/// that validation prepared (session, JSON text, temperature bin). Its
/// numeric reading and confidence are bound beside the planned row.
pub struct ObservationInput {
    pub session_id: Option<String>,
    pub signal_key: String,
    pub value_string: Option<String>,
    pub value_bool: Option<bool>,
    pub value_json: Option<String>,
    pub unit: Option<String>,
    pub observed_at: UtcInstant,
    pub source_signal: Option<String>,
    pub status: String,
    pub freshness_ttl_seconds: Option<i64>,
    pub temperature_bin: Option<String>,
    pub is_temperature_estimated: Option<bool>,
    pub raw_payload_ref: Option<String>,
}

/// One `vehicle_signal_observation` row. `record_index` is the record's
/// position in the batch.
pub struct ObservationRow {
    pub observation_id: String,
    pub vehicle_uid: String,
    pub batch_id: String,
    pub session_id: Option<String>,
    pub signal_key: String,
    pub value_string: Option<String>,
    pub value_bool: Option<i64>,
    pub value_json: Option<String>,
    pub unit: Option<String>,
    pub observed_at: String,
    pub ingested_at: String,
    pub source: String,
    pub source_signal: Option<String>,
    pub status: String,
    pub freshness_ttl_seconds: Option<i64>,
    pub temperature_bin: Option<String>,
    pub is_temperature_estimated: i64,
    pub raw_payload_ref: Option<String>,
    pub record_index: usize,
}

/// The outcome of validating one record.
pub type RecordOutcome = Result<ObservationInput, IngestRecordError>;

/// Positions of the accepted records, in order.
pub open spec fn accepted_records(outcomes: Seq<RecordOutcome>) -> Seq<int> {
    indices_where(outcomes, |o: RecordOutcome| o is Ok)
}

/// Positions of the rejected records, in order.
pub open spec fn rejected_records(outcomes: Seq<RecordOutcome>) -> Seq<int> {
    indices_where(outcomes, |o: RecordOutcome| o is Err)
}

/// Stored form of an optional boolean reading.
pub open spec fn stored_bool_option(value: Option<bool>) -> Option<i64> {
    match value {
        Some(b) => Some(stored_bool(b)),
        None => None,
    }
}

/// Stored form of the estimated-temperature flag.
pub open spec fn stored_estimated(value: Option<bool>) -> i64 {
    match value {
        Some(b) => stored_bool(b),
        None => 0,
    }
}

/// `row` stores record `index`, whose validated fields are `input`.
pub open spec fn observation_row_of(
    row: ObservationRow,
    input: ObservationInput,
    index: int,
    vehicle_uid: Seq<char>,
    batch_id: Seq<char>,
    now: Seq<char>,
) -> bool {
    &&& is_hyphenated_uuid_v4(row.observation_id@)
    &&& row.vehicle_uid@ == vehicle_uid
    &&& row.batch_id@ == batch_id
    &&& opt_text(row.session_id) == opt_text(input.session_id)
    &&& row.signal_key@ == input.signal_key@
    &&& opt_text(row.value_string) == opt_text(input.value_string)
    &&& row.value_bool == stored_bool_option(input.value_bool)
    &&& opt_text(row.value_json) == opt_text(input.value_json)
    &&& opt_text(row.unit) == opt_text(input.unit)
    &&& row.observed_at@ == instant_text(input.observed_at)->0
    &&& row.ingested_at@ == now
    &&& row.source@ == "OBD"@
    &&& opt_text(row.source_signal) == opt_text(input.source_signal)
    &&& row.status@ == input.status@
    &&& row.freshness_ttl_seconds == input.freshness_ttl_seconds
    &&& opt_text(row.temperature_bin) == opt_text(input.temperature_bin)
    &&& row.is_temperature_estimated == stored_estimated(input.is_temperature_estimated)
    &&& opt_text(row.raw_payload_ref) == opt_text(input.raw_payload_ref)
    &&& row.record_index == index
}

/// The observations planned for a batch store its accepted records: each row
/// stores an accepted record, copying its fields, rendering its time and
/// storing its flags as 1/0 (an absent estimated flag as 0); rows follow
/// record order; every accepted record has a row, and every rejected
/// record's error is kept.
pub open spec fn observations_store_accepted_records(
    outcomes: Seq<RecordOutcome>,
    rows: Seq<ObservationRow>,
    errors: Seq<IngestRecordError>,
    vehicle_uid: Seq<char>,
    batch_id: Seq<char>,
    now: Seq<char>,
) -> bool {
    &&& forall|j: int| 0 <= j < rows.len() ==> {
        let k = (#[trigger] rows[j]).record_index as int;
        &&& 0 <= k < outcomes.len()
        &&& outcomes[k] is Ok
        &&& {
            let input = outcomes[k]->Ok_0;
            let row = rows[j];
            &&& is_hyphenated_uuid_v4(row.observation_id@)
            &&& row.vehicle_uid@ == vehicle_uid
            &&& row.batch_id@ == batch_id
            &&& opt_text(row.session_id) == opt_text(input.session_id)
            &&& row.signal_key@ == input.signal_key@
            &&& opt_text(row.value_string) == opt_text(input.value_string)
            &&& row.value_bool == match input.value_bool {
                Some(true) => Some(1i64),
                Some(false) => Some(0i64),
                None => None,
            }
            &&& opt_text(row.value_json) == opt_text(input.value_json)
            &&& opt_text(row.unit) == opt_text(input.unit)
            &&& row.observed_at@ == instant_text(input.observed_at)->0
            &&& row.ingested_at@ == now
            &&& row.source@ == "OBD"@
            &&& opt_text(row.source_signal) == opt_text(input.source_signal)
            &&& row.status@ == input.status@
            &&& row.freshness_ttl_seconds == input.freshness_ttl_seconds
            &&& opt_text(row.temperature_bin) == opt_text(input.temperature_bin)
            &&& row.is_temperature_estimated == (if input.is_temperature_estimated == Some(true) {
                1i64
            } else {
                0i64
            })
            &&& opt_text(row.raw_payload_ref) == opt_text(input.raw_payload_ref)
        }
    }
    &&& forall|j1: int, j2: int|
        0 <= j1 < j2 < rows.len() ==> (#[trigger] rows[j1]).record_index < (#[trigger] rows[j2]).record_index
    &&& forall|k: int|
        0 <= k < outcomes.len() && (#[trigger] outcomes[k]) is Ok ==> exists|j: int|
            0 <= j < rows.len() && (#[trigger] rows[j]).record_index == k
    &&& forall|k: int|
        0 <= k < outcomes.len() && (#[trigger] outcomes[k]) is Err ==> exists|j: int|
            0 <= j < errors.len() && (#[trigger] errors[j]).index == outcomes[k]->Err_0.index
                && errors[j].message@ == outcomes[k]->Err_0.message@
}

/// Rows that match the validated records one by one, in the order of the
/// accepted records, store exactly the accepted records and keep every
/// rejected record's error.
pub proof fn lemma_observation_rows_store_accepted_records(
    outcomes: Seq<RecordOutcome>,
    rows: Seq<ObservationRow>,
    errors: Seq<IngestRecordError>,
    vehicle_uid: Seq<char>,
    batch_id: Seq<char>,
    now: Seq<char>,
)
    requires
        rows.len() == accepted_records(outcomes).len(),
        errors.len() == rejected_records(outcomes).len(),
        forall|j: int|
            0 <= j < rows.len() ==> observation_row_of(
                #[trigger] rows[j],
                outcomes[accepted_records(outcomes)[j]]->Ok_0,
                accepted_records(outcomes)[j],
                vehicle_uid,
                batch_id,
                now,
            ),
        forall|j: int|
            0 <= j < errors.len() ==> (#[trigger] errors[j]).index
                == outcomes[rejected_records(outcomes)[j]]->Err_0.index && errors[j].message@
                == outcomes[rejected_records(outcomes)[j]]->Err_0.message@,
    ensures
        observations_store_accepted_records(outcomes, rows, errors, vehicle_uid, batch_id, now),
{
    let is_ok = |o: RecordOutcome| o is Ok;
    let is_err = |o: RecordOutcome| o is Err;
    let acc = accepted_records(outcomes);
    let rej = rejected_records(outcomes);
    lemma_indices_where_valid(outcomes, is_ok);
    lemma_indices_where_valid(outcomes, is_err);
    assert forall|j: int| 0 <= j < rows.len() implies (#[trigger] rows[j]).record_index as int == acc[j]
        && 0 <= acc[j] < outcomes.len() && outcomes[acc[j]] is Ok by {
        assert(is_ok(outcomes[acc[j]]));
    }
    assert forall|k: int| 0 <= k < outcomes.len() && (#[trigger] outcomes[k]) is Ok implies exists|j: int|
        0 <= j < rows.len() && (#[trigger] rows[j]).record_index == k by {
        assert(is_ok(outcomes[k]));
        lemma_indices_where_complete(outcomes, is_ok, k);
        let j = choose|j: int| 0 <= j < acc.len() && #[trigger] acc[j] == k;
        assert(rows[j].record_index == k);
    }
    assert forall|k: int| 0 <= k < outcomes.len() && (#[trigger] outcomes[k]) is Err implies exists|j: int|
        0 <= j < errors.len() && (#[trigger] errors[j]).index == outcomes[k]->Err_0.index
            && errors[j].message@ == outcomes[k]->Err_0.message@ by {
        assert(is_err(outcomes[k]));
        lemma_indices_where_complete(outcomes, is_err, k);
        let j = choose|j: int| 0 <= j < rej.len() && #[trigger] rej[j] == k;
        assert(errors[j].index == outcomes[k]->Err_0.index);
    }
}

fn copy_text(value: &Option<String>) -> (copy: Option<String>)
    ensures
        opt_text(copy) == opt_text(*value),
{
    match value {
        Some(s) => Some(s.clone()),
        None => None,
    }
}

/// Plans the observation rows of a batch from the validation outcomes of its
/// records, in record order: each accepted record gets one row under a fresh
/// identifier; each rejected record's error is kept, in order. `None` when
/// the time of an accepted record cannot be rendered as RFC 3339 text.
pub fn plan_signal_observation_rows(
    outcomes: &Vec<RecordOutcome>,
    vehicle_uid: &str,
    batch_id: &str,
    now: &str,
) -> (plan: Option<(Vec<ObservationRow>, Vec<IngestRecordError>)>)
    ensures
        plan is None <==> exists|k: int|
            0 <= k < outcomes.len() && (#[trigger] outcomes@[k]) is Ok && instant_text(
                outcomes@[k]->Ok_0.observed_at,
            ) is None,
        plan matches Some((rows, errors)) ==> {
            let accepted = accepted_records(outcomes@);
            let rejected = rejected_records(outcomes@);
            &&& rows.len() + errors.len() == outcomes.len()
            &&& rows.len() == accepted.len()
            &&& errors.len() == rejected.len()
            &&& forall|j: int|
                0 <= j < rows.len() ==> observation_row_of(
                    #[trigger] rows[j],
                    outcomes@[accepted[j]]->Ok_0,
                    accepted[j],
                    vehicle_uid@,
                    batch_id@,
                    now@,
                )
            &&& forall|j: int|
                0 <= j < errors.len() ==> (#[trigger] errors[j]).index
                    == outcomes@[rejected[j]]->Err_0.index && errors[j].message@
                    == outcomes@[rejected[j]]->Err_0.message@
        },
        plan matches Some((rows, errors)) ==> observations_store_accepted_records(
            outcomes@,
            rows@,
            errors@,
            vehicle_uid@,
            batch_id@,
            now@,
        ),
{
    let ghost s = outcomes@;
    let ghost is_ok = |o: RecordOutcome| o is Ok;
    let ghost is_err = |o: RecordOutcome| o is Err;
    let mut rows: Vec<ObservationRow> = Vec::new();
    let mut errors: Vec<IngestRecordError> = Vec::new();
    let n = outcomes.len();
    let mut i: usize = 0;
    while i < n
        invariant
            n == outcomes.len(),
            s == outcomes@,
            is_ok == (|o: RecordOutcome| o is Ok),
            is_err == (|o: RecordOutcome| o is Err),
            i <= n,
            rows.len() + errors.len() == i,
            rows.len() == indices_where(s.take(i as int), is_ok).len(),
            errors.len() == indices_where(s.take(i as int), is_err).len(),
            forall|k: int| 0 <= k < i && (#[trigger] s[k]) is Ok ==> instant_text(s[k]->Ok_0.observed_at) is Some,
            forall|j: int|
                0 <= j < rows.len() ==> observation_row_of(
                    #[trigger] rows[j],
                    s[indices_where(s.take(i as int), is_ok)[j]]->Ok_0,
                    indices_where(s.take(i as int), is_ok)[j],
                    vehicle_uid@,
                    batch_id@,
                    now@,
                ),
            forall|j: int|
                0 <= j < errors.len() ==> (#[trigger] errors[j]).index
                    == s[indices_where(s.take(i as int), is_err)[j]]->Err_0.index && errors[j].message@
                    == s[indices_where(s.take(i as int), is_err)[j]]->Err_0.message@,
        decreases n - i,
    {
        proof {
            lemma_indices_where_step(s, is_ok, i as int);
            lemma_indices_where_step(s, is_err, i as int);
        }
        match &outcomes[i] {
            Ok(input) => {
                let observed_at = match render_instant(input.observed_at) {
                    Some(text) => text,
                    None => {
                        return None;
                    },
                };
                let value_bool = stored_bool_value(input.value_bool);
                let estimated = stored_estimated_flag(input.is_temperature_estimated);
                let row = ObservationRow {
                    observation_id: new_uuid_v4_text(),
                    vehicle_uid: String::from_str(vehicle_uid),
                    batch_id: String::from_str(batch_id),
                    session_id: copy_text(&input.session_id),
                    signal_key: input.signal_key.clone(),
                    value_string: copy_text(&input.value_string),
                    value_bool,
                    value_json: copy_text(&input.value_json),
                    unit: copy_text(&input.unit),
                    observed_at,
                    ingested_at: String::from_str(now),
                    source: String::from_str("OBD"),
                    source_signal: copy_text(&input.source_signal),
                    status: input.status.clone(),
                    freshness_ttl_seconds: input.freshness_ttl_seconds,
                    temperature_bin: copy_text(&input.temperature_bin),
                    is_temperature_estimated: estimated,
                    raw_payload_ref: copy_text(&input.raw_payload_ref),
                    record_index: i,
                };
                rows.push(row);
            },
            Err(error) => {
                errors.push(error.duplicate());
            },
        }
        i = i + 1;
    }
    assert(s.take(n as int) =~= s);
    proof {
        lemma_observation_rows_store_accepted_records(s, rows@, errors@, vehicle_uid@, batch_id@, now@);
    }
    Some((rows, errors))
}

} // verus!

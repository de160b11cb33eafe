//! Session lifecycle events: raw labels mapped to the stored session and
//! event types, and the rows an ingest batch writes for them.
use vstd::prelude::*;
use crate::counting::{indices_where, lemma_indices_where_step};
use crate::ids::{is_hyphenated_uuid_v4, new_uuid_v4_text};
use crate::time::{instant_text, render_instant, UtcInstant};

verus! {

/// One accepted raw label and the stored types it maps to.
pub struct SessionEventMapping {
    pub label: String,
    pub session_type: String,
    pub event_type: String,
}

/// A raw label in stored form.
pub struct NormalizedSessionEvent {
    pub session_type: String,
    pub event_type: String,
}

/// A raw label no mapping accepts.
pub struct UnsupportedSessionEvent {
    pub event_type: String,
}

impl UnsupportedSessionEvent {
    /// What the error wraps: `failed to map session event`.
    pub fn context(&self) -> (m: &'static str)
        ensures
            m@ == "failed to map session event"@,
    {
        "failed to map session event"
    }

    /// The underlying cause: `unsupported session event type <label>`.
    pub fn cause(&self) -> (m: String)
        ensures
            m@ == "unsupported session event type "@ + self.event_type@,
    {
        String::from_str("unsupported session event type ").concat(self.event_type.as_str())
    }
}

/// Positions of the mappings that accept `label`.
pub open spec fn accepting_mappings(catalog: Seq<SessionEventMapping>, label: Seq<char>) -> Seq<int> {
    indices_where(catalog, |m: SessionEventMapping| m.label@ == label)
}

/// `n` is the stored form that mapping `m` gives.
pub open spec fn normalized_by(n: NormalizedSessionEvent, m: SessionEventMapping) -> bool {
    n.session_type@ == m.session_type@ && n.event_type@ == m.event_type@
}

/// Normalizes a raw session event label with the first mapping that accepts
/// it; a label no mapping accepts is an error naming the label.
pub fn normalize_session_event(event_type: &str, catalog: &Vec<SessionEventMapping>) -> (res: Result<
    NormalizedSessionEvent,
    UnsupportedSessionEvent,
>)
    ensures
        res is Ok <==> accepting_mappings(catalog@, event_type@).len() > 0,
        res matches Ok(n) ==> normalized_by(n, catalog@[accepting_mappings(catalog@, event_type@)[0]]),
        res matches Err(e) ==> e.event_type@ == event_type@,
{
    let ghost s = catalog@;
    let ghost p = |m: SessionEventMapping| m.label@ == event_type@;
    let label = event_type.to_owned();
    let n = catalog.len();
    let mut i: usize = 0;
    while i < n
        invariant
            n == catalog.len(),
            s == catalog@,
            label@ == event_type@,
            p == (|m: SessionEventMapping| m.label@ == event_type@),
            i <= n,
            indices_where(s.take(i as int), p).len() == 0,
        decreases n - i,
    {
        proof {
            lemma_indices_where_step(s, p, i as int);
        }
        if catalog[i].label == label {
            proof {
                let k: int = i + 1;
                assert(indices_where(s.take(k), p) =~= seq![i as int]);
                lemma_prefix_selection_extends(s, p, k);
                assert(indices_where(s.take(k), p)[0] == indices_where(s, p)[0]);
                assert(accepting_mappings(s, event_type@) == indices_where(s, p));
            }
            return Ok(
                NormalizedSessionEvent {
                    session_type: catalog[i].session_type.clone(),
                    event_type: catalog[i].event_type.clone(),
                },
            );
        }
        i = i + 1;
    }
    assert(s.take(n as int) =~= s);
    Err(UnsupportedSessionEvent { event_type: label })
}

/// The selection over a prefix is a prefix of the selection over the whole.
proof fn lemma_prefix_selection_extends(
    s: Seq<SessionEventMapping>,
    p: spec_fn(SessionEventMapping) -> bool,
    k: int,
)
    requires
        0 <= k <= s.len(),
    ensures
        indices_where(s.take(k), p).len() <= indices_where(s, p).len(),
        forall|m: int|
            0 <= m < indices_where(s.take(k), p).len() ==> #[trigger] indices_where(s.take(k), p)[m]
                == indices_where(s, p)[m],
    decreases s.len() - k,
{
    if k < s.len() {
        lemma_prefix_selection_extends(s, p, k + 1);
        lemma_indices_where_step(s, p, k);
        let short = indices_where(s.take(k), p);
        let longer = indices_where(s.take(k + 1), p);
        assert forall|m: int| 0 <= m < short.len() implies #[trigger] short[m] == indices_where(s, p)[m] by {
            assert(short[m] == longer[m]);
        }
    } else {
        assert(s.take(k) =~= s);
    }
}

// ---------------------------------------------------------------------------
// Rows of an ingest batch
// ---------------------------------------------------------------------------

/// A session event as received.
pub struct SessionEventInput {
    pub session_id: String,
    pub event_type: String,
    pub observed_at: UtcInstant,
}

/// One `vehicle_session_event` row.
pub struct SessionEventRow {
    pub session_event_id: String,
    pub vehicle_uid: String,
    pub session_id: String,
    pub session_type: String,
    pub event_type: String,
    pub observed_at: String,
    pub ingested_at: String,
    pub source: String,
}

/// Why a batch's session events cannot be written.
pub enum SessionEventRowsError {
    /// The event's label has no mapping.
    UnsupportedLabel(UnsupportedSessionEvent),
    /// The event's time cannot be rendered as RFC 3339 text.
    UnrepresentableTime { index: usize },
}

/// Event `k` can be written: its label has a mapping and its time renders.
pub open spec fn event_writable(events: Seq<SessionEventInput>, catalog: Seq<SessionEventMapping>, k: int) -> bool {
    &&& accepting_mappings(catalog, events[k].event_type@).len() > 0
    &&& instant_text(events[k].observed_at) is Some
}

/// `row` is the stored row of `event`.
pub open spec fn session_event_row_of(
    row: SessionEventRow,
    event: SessionEventInput,
    catalog: Seq<SessionEventMapping>,
    vehicle_uid: Seq<char>,
    now: Seq<char>,
) -> bool {
    let m = catalog[accepting_mappings(catalog, event.event_type@)[0]];
    &&& is_hyphenated_uuid_v4(row.session_event_id@)
    &&& row.vehicle_uid@ == vehicle_uid
    &&& row.session_id@ == event.session_id@
    &&& row.session_type@ == m.session_type@
    &&& row.event_type@ == m.event_type@
    &&& row.observed_at@ == instant_text(event.observed_at)->0
    &&& row.ingested_at@ == now
    &&& row.source@ == "OBD"@
}

/// Plans the session event rows of a batch, one per event in order. The
/// first event that cannot be written fails the batch: an unmapped label
/// before an unrepresentable time.
pub fn plan_session_event_rows(
    events: &Vec<SessionEventInput>,
    catalog: &Vec<SessionEventMapping>,
    vehicle_uid: &str,
    now: &str,
) -> (res: Result<Vec<SessionEventRow>, SessionEventRowsError>)
    ensures
        res is Ok <==> forall|k: int| 0 <= k < events.len() ==> #[trigger] event_writable(events@, catalog@, k),
        res matches Ok(rows) ==> rows.len() == events.len() && forall|k: int|
            0 <= k < events.len() ==> session_event_row_of(
                #[trigger] rows[k],
                events@[k],
                catalog@,
                vehicle_uid@,
                now@,
            ),
        res matches Err(e) ==> exists|k: int|
            0 <= k < events.len() && !#[trigger] event_writable(events@, catalog@, k) && (forall|j: int|
                0 <= j < k ==> event_writable(events@, catalog@, j)) && match e {
                SessionEventRowsError::UnsupportedLabel(u) => accepting_mappings(
                    catalog@,
                    events@[k].event_type@,
                ).len() == 0 && u.event_type@ == events@[k].event_type@,
                SessionEventRowsError::UnrepresentableTime { index } => accepting_mappings(
                    catalog@,
                    events@[k].event_type@,
                ).len() > 0 && index == k,
            },
{
    let mut rows: Vec<SessionEventRow> = Vec::new();
    let n = events.len();
    let mut i: usize = 0;
    while i < n
        invariant
            n == events.len(),
            i <= n,
            rows.len() == i,
            forall|k: int| 0 <= k < i ==> #[trigger] event_writable(events@, catalog@, k),
            forall|k: int|
                0 <= k < i ==> session_event_row_of(#[trigger] rows[k], events@[k], catalog@, vehicle_uid@, now@),
        decreases n - i,
    {
        let event = &events[i];
        let normalized = match normalize_session_event(event.event_type.as_str(), catalog) {
            Ok(normalized) => normalized,
            Err(e) => {
                assert(!event_writable(events@, catalog@, i as int));
                return Err(SessionEventRowsError::UnsupportedLabel(e));
            },
        };
        let observed_at = match render_instant(event.observed_at) {
            Some(text) => text,
            None => {
                assert(!event_writable(events@, catalog@, i as int));
                return Err(SessionEventRowsError::UnrepresentableTime { index: i });
            },
        };
        rows.push(
            SessionEventRow {
                session_event_id: new_uuid_v4_text(),
                vehicle_uid: String::from_str(vehicle_uid),
                session_id: event.session_id.clone(),
                session_type: normalized.session_type,
                event_type: normalized.event_type,
                observed_at,
                ingested_at: String::from_str(now),
                source: String::from_str("OBD"),
            },
        );
        i = i + 1;
    }
    Ok(rows)
}

} // verus!

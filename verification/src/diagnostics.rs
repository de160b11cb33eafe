//! Diagnostic events of an ingest batch: MIL state changes and active DTC
//! snapshots.
use vstd::prelude::*;
use crate::ids::{is_hyphenated_uuid_v4, new_uuid_v4_text};
use crate::time::{instant_text, render_instant, UtcInstant};

verus! {

/// One diagnostic snapshot as received.
pub struct DiagnosticInput {
    pub observed_at: UtcInstant,
    pub mil_on: Option<bool>,
    pub dtcs_active: Option<Vec<String>>,
}

/// One `vehicle_diagnostic_event` row.
pub struct DiagnosticEventRow {
    pub event_id: String,
    pub vehicle_uid: String,
    pub batch_id: String,
    pub event_type: String,
    pub code: Option<String>,
    pub observed_at: String,
    pub ingested_at: String,
    pub source: String,
}

/// The content of an event row that the input decides: its type, its code
/// and when it was observed.
pub type EventContent = (Seq<char>, Option<Seq<char>>, Seq<char>);

/// The stored text of a snapshot's time.
pub open spec fn snapshot_time(d: DiagnosticInput) -> Seq<char> {
    instant_text(d.observed_at)->0
}

/// The events one snapshot yields, stamped with its rendered time: its MIL
/// state, when reported, then one `DTC_ACTIVE` event per active code, in
/// order.
pub open spec fn snapshot_events(d: DiagnosticInput) -> Seq<EventContent> {
    let mil: Seq<EventContent> = match d.mil_on {
        Some(on) => seq![(if on { "MIL_ON"@ } else { "MIL_OFF"@ }, None, snapshot_time(d))],
        None => Seq::empty(),
    };
    let dtcs: Seq<EventContent> = match d.dtcs_active {
        Some(codes) => codes@.map_values(
            |c: String| ("DTC_ACTIVE"@, Some(c@), snapshot_time(d)),
        ),
        None => Seq::empty(),
    };
    mil + dtcs
}

/// The events a batch yields, snapshot by snapshot.
pub open spec fn batch_events(ds: Seq<DiagnosticInput>) -> Seq<EventContent>
    decreases ds.len(),
{
    if ds.len() == 0 {
        Seq::empty()
    } else {
        batch_events(ds.drop_last()) + snapshot_events(ds.last())
    }
}

/// The active codes a snapshot reports, in order.
pub open spec fn snapshot_codes(d: DiagnosticInput) -> Seq<Seq<char>> {
    match d.dtcs_active {
        Some(codes) => codes@.map_values(|c: String| c@),
        None => Seq::empty(),
    }
}

/// The active codes a batch reports, snapshot by snapshot.
pub open spec fn reported_codes(ds: Seq<DiagnosticInput>) -> Seq<Seq<char>>
    decreases ds.len(),
{
    if ds.len() == 0 {
        Seq::empty()
    } else {
        reported_codes(ds.drop_last()) + snapshot_codes(ds.last())
    }
}

/// The MIL states a batch reports, in order; a snapshot without one
/// reports none.
pub open spec fn reported_mil_states(ds: Seq<DiagnosticInput>) -> Seq<bool>
    decreases ds.len(),
{
    if ds.len() == 0 {
        Seq::empty()
    } else {
        reported_mil_states(ds.drop_last()) + match ds.last().mil_on {
            Some(on) => seq![on],
            None => Seq::empty(),
        }
    }
}

/// The codes of the `DTC_ACTIVE` events, in order.
pub open spec fn dtc_codes(events: Seq<EventContent>) -> Seq<Seq<char>>
    decreases events.len(),
{
    if events.len() == 0 {
        Seq::empty()
    } else {
        let prev = dtc_codes(events.drop_last());
        let e = events.last();
        if e.0 == "DTC_ACTIVE"@ {
            prev.push(
                match e.1 {
                    Some(c) => c,
                    None => Seq::empty(),
                },
            )
        } else {
            prev
        }
    }
}

/// The states of the `MIL_ON` and `MIL_OFF` events, in order.
pub open spec fn mil_states(events: Seq<EventContent>) -> Seq<bool>
    decreases events.len(),
{
    if events.len() == 0 {
        Seq::empty()
    } else {
        let prev = mil_states(events.drop_last());
        let e = events.last();
        if e.0 == "MIL_ON"@ {
            prev.push(true)
        } else if e.0 == "MIL_OFF"@ {
            prev.push(false)
        } else {
            prev
        }
    }
}

proof fn lemma_event_type_names_differ()
    ensures
        "DTC_ACTIVE"@ != "MIL_ON"@,
        "DTC_ACTIVE"@ != "MIL_OFF"@,
        "MIL_ON"@ != "MIL_OFF"@,
{
    reveal_strlit("DTC_ACTIVE");
    reveal_strlit("MIL_ON");
    reveal_strlit("MIL_OFF");
    assert("DTC_ACTIVE"@.len() == 10);
    assert("MIL_ON"@.len() == 6);
    assert("MIL_OFF"@.len() == 7);
}

proof fn lemma_event_kinds_concat(a: Seq<EventContent>, b: Seq<EventContent>)
    ensures
        dtc_codes(a + b) == dtc_codes(a) + dtc_codes(b),
        mil_states(a + b) == mil_states(a) + mil_states(b),
    decreases b.len(),
{
    if b.len() == 0 {
        assert(a + b =~= a);
        assert(dtc_codes(a) + dtc_codes(b) =~= dtc_codes(a));
        assert(mil_states(a) + mil_states(b) =~= mil_states(a));
    } else {
        lemma_event_kinds_concat(a, b.drop_last());
        assert((a + b).drop_last() =~= a + b.drop_last());
        assert((a + b).last() == b.last());
        assert(dtc_codes(a + b) =~= dtc_codes(a) + dtc_codes(b));
        assert(mil_states(a + b) =~= mil_states(a) + mil_states(b));
    }
}

proof fn lemma_code_events(codes: Seq<String>, t: Seq<char>)
    ensures
        dtc_codes(codes.map_values(|c: String| ("DTC_ACTIVE"@, Some(c@), t))) == codes.map_values(|c: String| c@),
        mil_states(codes.map_values(|c: String| ("DTC_ACTIVE"@, Some(c@), t))) == Seq::<bool>::empty(),
    decreases codes.len(),
{
    let ev = codes.map_values(|c: String| ("DTC_ACTIVE"@, Some(c@), t));
    if codes.len() == 0 {
        assert(ev =~= Seq::empty());
        assert(codes.map_values(|c: String| c@) =~= Seq::empty());
    } else {
        lemma_code_events(codes.drop_last(), t);
        assert(ev.drop_last() =~= codes.drop_last().map_values(|c: String| ("DTC_ACTIVE"@, Some(c@), t)));
        assert(ev.last() == ("DTC_ACTIVE"@, Some(codes.last()@), t));
        assert(codes.map_values(|c: String| c@) =~= codes.drop_last().map_values(|c: String| c@).push(
            codes.last()@,
        ));
        lemma_event_type_names_differ();
    }
}

/// Diagnostic events keep every reported code and MIL state, whatever the
/// other: the `DTC_ACTIVE` events carry exactly the batch's active codes, in
/// order, and the MIL events exactly its reported MIL states, in order.
pub proof fn lemma_diagnostic_events_keep_codes_and_mil(ds: Seq<DiagnosticInput>)
    ensures
        dtc_codes(batch_events(ds)) == reported_codes(ds),
        mil_states(batch_events(ds)) == reported_mil_states(ds),
    decreases ds.len(),
{
    if ds.len() == 0 {
        assert(dtc_codes(batch_events(ds)) =~= reported_codes(ds));
        assert(mil_states(batch_events(ds)) =~= reported_mil_states(ds));
    } else {
        let d = ds.last();
        lemma_diagnostic_events_keep_codes_and_mil(ds.drop_last());
        let mil: Seq<EventContent> = match d.mil_on {
            Some(on) => seq![(if on { "MIL_ON"@ } else { "MIL_OFF"@ }, None, snapshot_time(d))],
            None => Seq::empty(),
        };
        let dtcs: Seq<EventContent> = match d.dtcs_active {
            Some(codes) => codes@.map_values(|c: String| ("DTC_ACTIVE"@, Some(c@), snapshot_time(d))),
            None => Seq::empty(),
        };
        assert(snapshot_events(d) == mil + dtcs);
        lemma_event_kinds_concat(batch_events(ds.drop_last()), snapshot_events(d));
        lemma_event_kinds_concat(mil, dtcs);
        lemma_event_type_names_differ();
        match d.mil_on {
            Some(on) => {
                assert(mil.drop_last() =~= Seq::<EventContent>::empty());
                assert(dtc_codes(mil.drop_last()) =~= Seq::<Seq<char>>::empty());
                assert(mil_states(mil.drop_last()) =~= Seq::<bool>::empty());
                assert(mil.last() == (if on { "MIL_ON"@ } else { "MIL_OFF"@ }, None::<Seq<char>>, snapshot_time(d)));
                assert(dtc_codes(mil) =~= Seq::<Seq<char>>::empty());
                assert(mil_states(mil) =~= seq![on]);
            },
            None => {
                assert(dtc_codes(mil) =~= Seq::<Seq<char>>::empty());
                assert(mil_states(mil) =~= Seq::<bool>::empty());
            },
        }
        match d.dtcs_active {
            Some(codes) => {
                lemma_code_events(codes@, snapshot_time(d));
            },
            None => {
                assert(dtc_codes(dtcs) =~= Seq::<Seq<char>>::empty());
                assert(mil_states(dtcs) =~= Seq::<bool>::empty());
            },
        }
        assert(dtc_codes(batch_events(ds)) =~= reported_codes(ds));
        assert(mil_states(batch_events(ds)) =~= reported_mil_states(ds));
    }
}

/// What an event row carries that the input decides.
pub open spec fn row_content(r: DiagnosticEventRow) -> EventContent {
    (
        r.event_type@,
        match r.code {
            Some(c) => Some(c@),
            None => None,
        },
        r.observed_at@,
    )
}

/// The row carries a fresh identifier and the batch's common fields.
pub open spec fn row_envelope_ok(
    r: DiagnosticEventRow,
    vehicle_uid: Seq<char>,
    batch_id: Seq<char>,
    now: Seq<char>,
) -> bool {
    &&& is_hyphenated_uuid_v4(r.event_id@)
    &&& r.vehicle_uid@ == vehicle_uid
    &&& r.batch_id@ == batch_id
    &&& r.ingested_at@ == now
    &&& r.source@ == "OBD"@
}

fn event_row(
    vehicle_uid: &str,
    batch_id: &str,
    event_type: &str,
    code: Option<String>,
    observed_at: &String,
    now: &str,
) -> (r: DiagnosticEventRow)
    ensures
        row_envelope_ok(r, vehicle_uid@, batch_id@, now@),
        row_content(r) == (
            event_type@,
            match code {
                Some(c) => Some(c@),
                None => None,
            },
            observed_at@,
        ),
{
    DiagnosticEventRow {
        event_id: new_uuid_v4_text(),
        vehicle_uid: String::from_str(vehicle_uid),
        batch_id: String::from_str(batch_id),
        event_type: String::from_str(event_type),
        code,
        observed_at: observed_at.clone(),
        ingested_at: String::from_str(now),
        source: String::from_str("OBD"),
    }
}

/// Plans the diagnostic event rows of a batch. `None` when the time of some
/// snapshot cannot be rendered as RFC 3339 text.
pub fn plan_diagnostic_events(
    diagnostics: &Vec<DiagnosticInput>,
    vehicle_uid: &str,
    batch_id: &str,
    now: &str,
) -> (plan: Option<Vec<DiagnosticEventRow>>)
    ensures
        plan is None <==> exists|k: int|
            0 <= k < diagnostics.len() && instant_text((#[trigger] diagnostics@[k]).observed_at) is None,
        plan matches Some(rows) ==> rows@.map_values(|r: DiagnosticEventRow| row_content(r))
            == batch_events(diagnostics@),
        plan matches Some(rows) ==> forall|k: int|
            0 <= k < rows.len() ==> row_envelope_ok(#[trigger] rows[k], vehicle_uid@, batch_id@, now@),
        plan matches Some(rows) ==> dtc_codes(rows@.map_values(|r: DiagnosticEventRow| row_content(r)))
            == reported_codes(diagnostics@),
        plan matches Some(rows) ==> mil_states(rows@.map_values(|r: DiagnosticEventRow| row_content(r)))
            == reported_mil_states(diagnostics@),
{
    let ghost ds = diagnostics@;
    let mut rows: Vec<DiagnosticEventRow> = Vec::new();
    let n = diagnostics.len();
    let mut i: usize = 0;
    while i < n
        invariant
            n == diagnostics.len(),
            ds == diagnostics@,
            i <= n,
            rows@.map_values(|r: DiagnosticEventRow| row_content(r)) == batch_events(ds.take(i as int)),
            forall|k: int|
                0 <= k < rows.len() ==> row_envelope_ok(#[trigger] rows[k], vehicle_uid@, batch_id@, now@),
            forall|k: int| 0 <= k < i ==> instant_text((#[trigger] ds[k]).observed_at) is Some,
        decreases n - i,
    {
        let d = &diagnostics[i];
        let observed_at = match render_instant(d.observed_at) {
            Some(text) => text,
            None => {
                return None;
            },
        };
        let ghost before = rows@.map_values(|r: DiagnosticEventRow| row_content(r));
        assert(ds.take(i + 1).drop_last() =~= ds.take(i as int));
        assert(ds.take(i + 1).last() == ds[i as int]);
        let ghost mil: Seq<EventContent> = match d.mil_on {
            Some(on) => seq![(if on { "MIL_ON"@ } else { "MIL_OFF"@ }, None, snapshot_time(*d))],
            None => Seq::empty(),
        };
        match d.mil_on {
            Some(on) => {
                let event_type = if on {
                    "MIL_ON"
                } else {
                    "MIL_OFF"
                };
                rows.push(event_row(vehicle_uid, batch_id, event_type, None, &observed_at, now));
            },
            None => {},
        }
        assert(rows@.map_values(|r: DiagnosticEventRow| row_content(r)) =~= before + mil);
        let ghost after_mil = before + mil;
        match &d.dtcs_active {
            Some(codes) => {
                let ghost expected = codes@.map_values(
                    |c: String| ("DTC_ACTIVE"@, Some(c@), snapshot_time(*d)),
                );
                let mut j: usize = 0;
                while j < codes.len()
                    invariant
                        j <= codes.len(),
                        expected == codes@.map_values(
                            |c: String| ("DTC_ACTIVE"@, Some(c@), snapshot_time(*d)),
                        ),
                        observed_at@ == snapshot_time(*d),
                        rows@.map_values(|r: DiagnosticEventRow| row_content(r)) == after_mil
                            + expected.take(j as int),
                        forall|k: int|
                            0 <= k < rows.len() ==> row_envelope_ok(
                                #[trigger] rows[k],
                                vehicle_uid@,
                                batch_id@,
                                now@,
                            ),
                    decreases codes.len() - j,
                {
                    let code = codes[j].clone();
                    let row = event_row(
                        vehicle_uid,
                        batch_id,
                        "DTC_ACTIVE",
                        Some(code),
                        &observed_at,
                        now,
                    );
                    assert(expected[j as int] == ("DTC_ACTIVE"@, Some(codes@[j as int]@), snapshot_time(*d)));
                    assert(row_content(row) == expected[j as int]);
                    assert(expected.take(j + 1) =~= expected.take(j as int).push(expected[j as int]));
                    let ghost old_rows = rows@;
                    rows.push(row);
                    assert(rows@.map_values(|r: DiagnosticEventRow| row_content(r)) =~= old_rows.map_values(
                        |r: DiagnosticEventRow| row_content(r),
                    ).push(row_content(row)));
                    assert(rows@.map_values(|r: DiagnosticEventRow| row_content(r)) =~= after_mil
                        + expected.take(j + 1));
                    j = j + 1;
                }
                assert(expected.take(codes.len() as int) =~= expected);
            },
            None => {},
        }
        assert(rows@.map_values(|r: DiagnosticEventRow| row_content(r)) =~= batch_events(
            ds.take(i + 1),
        ));
        i = i + 1;
    }
    assert(ds.take(n as int) =~= ds);
    proof {
        lemma_diagnostic_events_keep_codes_and_mil(ds);
    }
    Some(rows)
}

} // verus!

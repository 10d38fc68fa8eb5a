//! What holds of reconciling reports into the exported series.

use vstd::prelude::*;
use crate::metrics::{
    applied, cleaned, groups_readings, monitor_readings, monitor_reports, monitors_readings,
    monitors_report, set_readings, snapshot_keys, snapshot_readings, snapshot_reports,
};
use crate::series::{
    Latency, Reading, SeriesKeyView, SeriesValue, latency_at, latency_write, up_value,
};
use crate::site24x7_types::{CurrentStatusView, MonitorGroupView, MonitorMaybeView, Status};

verus! {

/// Whether one of the readings stands under the key.
pub open spec fn has_reading(readings: Seq<Reading>, key: SeriesKeyView) -> bool {
    exists|i: int| 0 <= i < readings.len() && (#[trigger] readings[i]).key == key
}

/// The status of the last reading under the key.
pub open spec fn last_status(readings: Seq<Reading>, key: SeriesKeyView) -> Option<Status>
    decreases readings.len(),
{
    if readings.len() == 0 {
        None
    } else if readings.last().key == key {
        Some(readings.last().status)
    } else {
        last_status(readings.drop_last(), key)
    }
}

/// What the last reading under the key that writes to the latency gauge
/// writes to it.
pub open spec fn last_write(readings: Seq<Reading>, key: SeriesKeyView) -> Option<Latency>
    decreases readings.len(),
{
    if readings.len() == 0 {
        None
    } else if readings.last().key == key && latency_write(
        readings.last().status,
        readings.last().attribute_value,
    ) is Some {
        latency_write(readings.last().status, readings.last().attribute_value)
    } else {
        last_write(readings.drop_last(), key)
    }
}

/// A key has a last reading just where it has a reading, and only then can
/// a reading under it write.
pub proof fn lemma_last_status(readings: Seq<Reading>, key: SeriesKeyView)
    ensures
        last_status(readings, key) is Some <==> has_reading(readings, key),
        last_write(readings, key) is Some ==> has_reading(readings, key),
    decreases readings.len(),
{
    if readings.len() > 0 {
        let rest = readings.drop_last();
        lemma_last_status(rest, key);
        if readings.last().key == key {
            assert(readings[readings.len() - 1].key == key);
        } else {
            if has_reading(rest, key) {
                let i = choose|i: int| 0 <= i < rest.len() && (#[trigger] rest[i]).key == key;
                assert(readings[i].key == key);
            }
            if has_reading(readings, key) {
                let i = choose|i: int|
                    0 <= i < readings.len() && (#[trigger] readings[i]).key == key;
                assert(rest[i].key == key);
            }
        }
    }
}

/// What setting a list of readings makes of one key: a key without a
/// reading keeps what it had; a key with one gets the `up` value of its last
/// reading, and the latency that its last writing reading wrote, or, where
/// none wrote, the latency it had.
pub proof fn lemma_set_readings_at(
    series: Map<SeriesKeyView, SeriesValue>,
    readings: Seq<Reading>,
    key: SeriesKeyView,
)
    ensures
        set_readings(series, readings).dom().contains(key) <==> series.dom().contains(key)
            || has_reading(readings, key),
        !has_reading(readings, key) && series.dom().contains(key) ==> set_readings(
            series,
            readings,
        )[key] == series[key],
        has_reading(readings, key) ==> set_readings(series, readings)[key] == (SeriesValue {
            up: up_value(last_status(readings, key).unwrap()),
            latency: match last_write(readings, key) {
                Some(l) => Some(l),
                None => latency_at(series, key),
            },
        }),
    decreases readings.len(),
{
    lemma_last_status(readings, key);
    if readings.len() > 0 {
        let rest = readings.drop_last();
        lemma_set_readings_at(series, rest, key);
        lemma_last_status(rest, key);
    }
}

/// A concatenation has a reading under a key where one of its parts has.
pub proof fn lemma_has_reading_concat(a: Seq<Reading>, b: Seq<Reading>, key: SeriesKeyView)
    ensures
        has_reading(a + b, key) <==> has_reading(a, key) || has_reading(b, key),
{
    if has_reading(a, key) {
        let i = choose|i: int| 0 <= i < a.len() && (#[trigger] a[i]).key == key;
        assert((a + b)[i].key == key);
    }
    if has_reading(b, key) {
        let i = choose|i: int| 0 <= i < b.len() && (#[trigger] b[i]).key == key;
        assert((a + b)[a.len() + i].key == key);
    }
    if has_reading(a + b, key) {
        let i = choose|i: int| 0 <= i < (a + b).len() && (#[trigger] (a + b)[i]).key == key;
        if i < a.len() {
            assert(a[i].key == key);
        } else {
            assert(b[i - a.len()].key == key);
        }
    }
}

/// A monitor has a reading under a key just where the group is the key's
/// and the monitor reports the key's kind, name and location.
pub proof fn lemma_monitor_has_reading(
    monitor: MonitorMaybeView,
    monitor_group: Seq<char>,
    key: SeriesKeyView,
)
    ensures
        has_reading(monitor_readings(monitor, monitor_group), key) <==> key.monitor_group
            == monitor_group && monitor_reports(
            monitor,
            key.monitor_type,
            key.monitor_name,
            key.location,
        ),
{
    let readings = monitor_readings(monitor, monitor_group);
    if let Some(m) = monitor.monitor() {
        if has_reading(readings, key) {
            let i = choose|i: int| 0 <= i < readings.len() && (#[trigger] readings[i]).key == key;
            assert(m.locations[i].location_name == key.location);
        }
        if key.monitor_group == monitor_group && monitor_reports(
            monitor,
            key.monitor_type,
            key.monitor_name,
            key.location,
        ) {
            let j = choose|j: int|
                0 <= j < m.locations.len() && (#[trigger] m.locations[j]).location_name
                    == key.location;
            assert(readings[j].key == key);
        }
    }
}

/// A list of monitors has a reading under a key just where the group is the
/// key's and one of the monitors reports the key's kind, name and location.
pub proof fn lemma_monitors_have_reading(
    monitors: Seq<MonitorMaybeView>,
    monitor_group: Seq<char>,
    key: SeriesKeyView,
)
    ensures
        has_reading(monitors_readings(monitors, monitor_group), key) <==> key.monitor_group
            == monitor_group && monitors_report(
            monitors,
            key.monitor_type,
            key.monitor_name,
            key.location,
        ),
    decreases monitors.len(),
{
    if monitors.len() > 0 {
        let rest = monitors.drop_last();
        lemma_monitors_have_reading(rest, monitor_group, key);
        lemma_monitor_has_reading(monitors.last(), monitor_group, key);
        lemma_has_reading_concat(
            monitors_readings(rest, monitor_group),
            monitor_readings(monitors.last(), monitor_group),
            key,
        );
        if monitors_report(rest, key.monitor_type, key.monitor_name, key.location) {
            let i = choose|i: int|
                0 <= i < rest.len() && monitor_reports(
                    #[trigger] rest[i],
                    key.monitor_type,
                    key.monitor_name,
                    key.location,
                );
            assert(monitors[i] == rest[i]);
        }
        if monitor_reports(monitors.last(), key.monitor_type, key.monitor_name, key.location) {
            assert(monitors[monitors.len() - 1] == monitors.last());
        }
        if monitors_report(monitors, key.monitor_type, key.monitor_name, key.location) {
            let i = choose|i: int|
                0 <= i < monitors.len() && monitor_reports(
                    #[trigger] monitors[i],
                    key.monitor_type,
                    key.monitor_name,
                    key.location,
                );
            if i < rest.len() {
                assert(rest[i] == monitors[i]);
            }
        }
    }
}

/// Whether one of the groups has the key's group name and a monitor that
/// reports the key's kind, name and location.
pub open spec fn groups_report(groups: Seq<MonitorGroupView>, key: SeriesKeyView) -> bool {
    exists|g: int|
        0 <= g < groups.len() && (#[trigger] groups[g]).group_name == key.monitor_group
            && monitors_report(
            groups[g].monitors,
            key.monitor_type,
            key.monitor_name,
            key.location,
        )
}

/// A list of groups has a reading under a key just where one of them
/// reports it.
pub proof fn lemma_groups_have_reading(groups: Seq<MonitorGroupView>, key: SeriesKeyView)
    ensures
        has_reading(groups_readings(groups), key) <==> groups_report(groups, key),
    decreases groups.len(),
{
    if groups.len() > 0 {
        let rest = groups.drop_last();
        let last = groups.last();
        lemma_groups_have_reading(rest, key);
        lemma_monitors_have_reading(last.monitors, last.group_name, key);
        lemma_has_reading_concat(
            groups_readings(rest),
            monitors_readings(last.monitors, last.group_name),
            key,
        );
        if groups_report(rest, key) {
            let g = choose|g: int|
                0 <= g < rest.len() && (#[trigger] rest[g]).group_name == key.monitor_group
                    && monitors_report(
                    rest[g].monitors,
                    key.monitor_type,
                    key.monitor_name,
                    key.location,
                );
            assert(groups[g] == rest[g]);
        }
        if last.group_name == key.monitor_group && monitors_report(
            last.monitors,
            key.monitor_type,
            key.monitor_name,
            key.location,
        ) {
            assert(groups[groups.len() - 1] == last);
        }
        if groups_report(groups, key) {
            let g = choose|g: int|
                0 <= g < groups.len() && (#[trigger] groups[g]).group_name == key.monitor_group
                    && monitors_report(
                    groups[g].monitors,
                    key.monitor_type,
                    key.monitor_name,
                    key.location,
                );
            if g < rest.len() {
                assert(rest[g] == groups[g]);
            }
        }
    }
}

/// The keys that a report has are the keys of its readings.
pub proof fn lemma_snapshot_has_reading(snapshot: CurrentStatusView, key: SeriesKeyView)
    ensures
        has_reading(snapshot_readings(snapshot), key) <==> snapshot_reports(snapshot, key),
{
    lemma_monitors_have_reading(snapshot.monitors, Seq::empty(), key);
    lemma_groups_have_reading(snapshot.monitor_groups, key);
    lemma_has_reading_concat(
        monitors_readings(snapshot.monitors, Seq::empty()),
        groups_readings(snapshot.monitor_groups),
        key,
    );
}

/// After a report was reconciled, the keys that have a series are the keys
/// that the report has: each of them has one, and no other key has.
pub proof fn lemma_applied_keys(series: Map<SeriesKeyView, SeriesValue>, snapshot: CurrentStatusView)
    ensures
        applied(series, snapshot).dom() == snapshot_keys(snapshot),
{
    assert forall|key: SeriesKeyView|
        applied(series, snapshot).dom().contains(key) <==> snapshot_keys(snapshot).contains(
            key,
        ) by {
        lemma_set_readings_at(cleaned(series, snapshot), snapshot_readings(snapshot), key);
        lemma_snapshot_has_reading(snapshot, key);
    }
    assert(applied(series, snapshot).dom() =~= snapshot_keys(snapshot));
}

/// What reconciling a report makes of a key that the report has: the `up`
/// value of its last reading, and the latency that its last writing reading
/// wrote, or, where none wrote, the latency that the key had before.
pub proof fn lemma_applied_at(
    series: Map<SeriesKeyView, SeriesValue>,
    snapshot: CurrentStatusView,
    key: SeriesKeyView,
)
    requires
        snapshot_reports(snapshot, key),
    ensures
        applied(series, snapshot).dom().contains(key),
        last_status(snapshot_readings(snapshot), key) is Some,
        applied(series, snapshot)[key] == (SeriesValue {
            up: up_value(last_status(snapshot_readings(snapshot), key).unwrap()),
            latency: match last_write(snapshot_readings(snapshot), key) {
                Some(l) => Some(l),
                None => latency_at(series, key),
            },
        }),
{
    lemma_set_readings_at(cleaned(series, snapshot), snapshot_readings(snapshot), key);
    lemma_snapshot_has_reading(snapshot, key);
    lemma_last_status(snapshot_readings(snapshot), key);
}

/// The last write under a key is that of a reading under it which no later
/// reading under the key overrides with another value.
pub proof fn lemma_last_write_is(
    readings: Seq<Reading>,
    key: SeriesKeyView,
    i: int,
    latency: Latency,
)
    requires
        0 <= i < readings.len(),
        readings[i].key == key,
        latency_write(readings[i].status, readings[i].attribute_value) == Some(latency),
        forall|j: int|
            i < j < readings.len() && (#[trigger] readings[j]).key == key ==> latency_write(
                readings[j].status,
                readings[j].attribute_value,
            ) is None || latency_write(readings[j].status, readings[j].attribute_value) == Some(
                latency,
            ),
    ensures
        last_write(readings, key) == Some(latency),
    decreases readings.len(),
{
    if i < readings.len() - 1 {
        let rest = readings.drop_last();
        assert(rest[i] == readings[i]);
        assert forall|j: int| i < j < rest.len() && (#[trigger] rest[j]).key == key implies latency_write(
            rest[j].status,
            rest[j].attribute_value,
        ) is None || latency_write(rest[j].status, rest[j].attribute_value) == Some(latency) by {
            assert(rest[j] == readings[j]);
        }
        lemma_last_write_is(rest, key, i, latency);
        assert(readings.last() == readings[readings.len() - 1]);
    }
}

/// Where no reading under a key writes, there is no last write under it.
pub proof fn lemma_no_write(readings: Seq<Reading>, key: SeriesKeyView)
    requires
        forall|j: int|
            0 <= j < readings.len() && (#[trigger] readings[j]).key == key ==> latency_write(
                readings[j].status,
                readings[j].attribute_value,
            ) is None,
    ensures
        last_write(readings, key) is None,
    decreases readings.len(),
{
    if readings.len() > 0 {
        let rest = readings.drop_last();
        assert forall|j: int| 0 <= j < rest.len() && (#[trigger] rest[j]).key == key implies latency_write(
            rest[j].status,
            rest[j].attribute_value,
        ) is None by {
            assert(rest[j] == readings[j]);
        }
        lemma_no_write(rest, key);
        assert(readings.last() == readings[readings.len() - 1]);
    }
}

/// The report without monitors and without groups.
pub open spec fn empty_report() -> CurrentStatusView {
    CurrentStatusView { monitors: Seq::empty(), monitor_groups: Seq::empty() }
}

/// Reconciling the empty report leaves no series. Where there was none
/// before, nothing changes.
pub proof fn law_empty_report(series: Map<SeriesKeyView, SeriesValue>)
    ensures
        applied(series, empty_report()) == Map::<SeriesKeyView, SeriesValue>::empty(),
        applied(Map::<SeriesKeyView, SeriesValue>::empty(), empty_report()) == Map::<
            SeriesKeyView,
            SeriesValue,
        >::empty(),
{
    lemma_applied_keys(series, empty_report());
    lemma_applied_keys(Map::<SeriesKeyView, SeriesValue>::empty(), empty_report());
    assert(snapshot_keys(empty_report()) =~= Set::<SeriesKeyView>::empty());
    assert(applied(series, empty_report()) =~= Map::<SeriesKeyView, SeriesValue>::empty());
    assert(applied(Map::<SeriesKeyView, SeriesValue>::empty(), empty_report()) =~= Map::<
        SeriesKeyView,
        SeriesValue,
    >::empty());
}

/// The old value is kept. Let reading `i` of a first report stand under
/// `key`, be up and measure `millis`, with no later reading under `key` in
/// that report writing anything else. Let a second report have `key`, each
/// of its readings under `key` up and without a measurement. After both
/// reports were reconciled in turn, the latency gauge of `key` still holds
/// `millis`.
pub proof fn law_keep_old_value(
    series: Map<SeriesKeyView, SeriesValue>,
    first: CurrentStatusView,
    second: CurrentStatusView,
    key: SeriesKeyView,
    i: int,
    millis: u64,
)
    requires
        0 <= i < snapshot_readings(first).len(),
        snapshot_readings(first)[i].key == key,
        snapshot_readings(first)[i].status == Status::Up,
        snapshot_readings(first)[i].attribute_value == Some(millis),
        forall|j: int|
            i < j < snapshot_readings(first).len() && (#[trigger] snapshot_readings(first)[j]).key
                == key ==> latency_write(
                snapshot_readings(first)[j].status,
                snapshot_readings(first)[j].attribute_value,
            ) is None || snapshot_readings(first)[j].attribute_value == Some(millis),
        snapshot_reports(second, key),
        forall|j: int|
            0 <= j < snapshot_readings(second).len() && (#[trigger] snapshot_readings(
                second,
            )[j]).key == key ==> snapshot_readings(second)[j].status == Status::Up
                && snapshot_readings(second)[j].attribute_value is None,
    ensures
        applied(applied(series, first), second).dom().contains(key),
        applied(applied(series, first), second)[key].latency == Some(Latency::Millis(millis)),
        applied(applied(series, first), second)[key].up == 1,
{
    let r1 = snapshot_readings(first);
    let r2 = snapshot_readings(second);
    lemma_last_write_is(r1, key, i, Latency::Millis(millis));
    lemma_snapshot_has_reading(first, key);
    assert(r1[i].key == key);
    lemma_applied_at(series, first, key);
    lemma_no_write(r2, key);
    lemma_applied_at(applied(series, first), second, key);
    lemma_snapshot_has_reading(second, key);
    lemma_last_status_is(r2, key);
}

/// The last reading under a key is one of the readings under it.
pub proof fn lemma_last_status_is(readings: Seq<Reading>, key: SeriesKeyView)
    requires
        has_reading(readings, key),
    ensures
        exists|j: int|
            0 <= j < readings.len() && (#[trigger] readings[j]).key == key && last_status(
                readings,
                key,
            ) == Some(readings[j].status) && forall|n: int|
                j < n < readings.len() ==> (#[trigger] readings[n]).key != key,
    decreases readings.len(),
{
    lemma_last_status(readings, key);
    if readings.last().key == key {
        assert(readings[readings.len() - 1].key == key);
    } else {
        let rest = readings.drop_last();
        lemma_last_status(rest, key);
        lemma_last_status_is(rest, key);
        let j = choose|j: int|
            0 <= j < rest.len() && (#[trigger] rest[j]).key == key && last_status(rest, key)
                == Some(rest[j].status) && forall|n: int|
                j < n < rest.len() ==> (#[trigger] rest[n]).key != key;
        assert(readings[j] == rest[j]);
        assert forall|n: int| j < n < readings.len() implies (#[trigger] readings[n]).key
            != key by {
            if n < rest.len() {
                assert(rest[n] == readings[n]);
            }
        }
    }
}

/// No valid measurement for a location that is not up: where reading `i` of
/// a report stands under `key`, is not up and has no measurement, and no
/// later reading under `key` has one, the latency gauge of `key` holds the
/// mark of no valid measurement after the report was reconciled.
pub proof fn law_nan_for_down(
    series: Map<SeriesKeyView, SeriesValue>,
    snapshot: CurrentStatusView,
    key: SeriesKeyView,
    i: int,
)
    requires
        0 <= i < snapshot_readings(snapshot).len(),
        snapshot_readings(snapshot)[i].key == key,
        snapshot_readings(snapshot)[i].status != Status::Up,
        snapshot_readings(snapshot)[i].attribute_value is None,
        forall|j: int|
            i < j < snapshot_readings(snapshot).len() && (#[trigger] snapshot_readings(
                snapshot,
            )[j]).key == key ==> snapshot_readings(snapshot)[j].attribute_value is None,
    ensures
        applied(series, snapshot).dom().contains(key),
        applied(series, snapshot)[key].latency == Some(Latency::NotANumber),
{
    let readings = snapshot_readings(snapshot);
    lemma_last_write_is(readings, key, i, Latency::NotANumber);
    assert(readings[i].key == key);
    lemma_snapshot_has_reading(snapshot, key);
    lemma_applied_at(series, snapshot, key);
}

/// A measurement is exported whatever the status: where reading `i` of a
/// report stands under `key` and measures `millis`, and no later reading
/// under `key` writes anything else, the latency gauge of `key` holds
/// `millis` after the report was reconciled.
pub proof fn law_measurement_is_set(
    series: Map<SeriesKeyView, SeriesValue>,
    snapshot: CurrentStatusView,
    key: SeriesKeyView,
    i: int,
    millis: u64,
)
    requires
        0 <= i < snapshot_readings(snapshot).len(),
        snapshot_readings(snapshot)[i].key == key,
        snapshot_readings(snapshot)[i].attribute_value == Some(millis),
        forall|j: int|
            i < j < snapshot_readings(snapshot).len() && (#[trigger] snapshot_readings(
                snapshot,
            )[j]).key == key ==> latency_write(
                snapshot_readings(snapshot)[j].status,
                snapshot_readings(snapshot)[j].attribute_value,
            ) is None || snapshot_readings(snapshot)[j].attribute_value == Some(millis),
    ensures
        applied(series, snapshot).dom().contains(key),
        applied(series, snapshot)[key].latency == Some(Latency::Millis(millis)),
{
    let readings = snapshot_readings(snapshot);
    lemma_last_write_is(readings, key, i, Latency::Millis(millis));
    assert(readings[i].key == key);
    lemma_snapshot_has_reading(snapshot, key);
    lemma_applied_at(series, snapshot, key);
}

/// Removal: a key that a first report has and a second has not has no
/// series, in either gauge, after both were reconciled in turn.
pub proof fn law_removal(
    series: Map<SeriesKeyView, SeriesValue>,
    first: CurrentStatusView,
    second: CurrentStatusView,
    key: SeriesKeyView,
)
    requires
        snapshot_reports(first, key),
        !snapshot_reports(second, key),
    ensures
        applied(series, first).dom().contains(key),
        !applied(applied(series, first), second).dom().contains(key),
        latency_at(applied(applied(series, first), second), key) is None,
{
    lemma_applied_keys(series, first);
    lemma_applied_keys(applied(series, first), second);
}

/// Reconciling the same report a second time changes nothing.
pub proof fn law_idempotent(series: Map<SeriesKeyView, SeriesValue>, snapshot: CurrentStatusView)
    ensures
        applied(applied(series, snapshot), snapshot) == applied(series, snapshot),
{
    let once = applied(series, snapshot);
    let twice = applied(once, snapshot);
    lemma_applied_keys(series, snapshot);
    lemma_applied_keys(once, snapshot);
    assert forall|key: SeriesKeyView| once.dom().contains(key) implies #[trigger] twice[key]
        == once[key] by {
        lemma_applied_at(series, snapshot, key);
        lemma_applied_at(once, snapshot, key);
    }
    assert(twice =~= once);
}

/// A monitor of a kind that is not known has no series: every key that has
/// a series after a report was reconciled carries one of the known kinds.
pub proof fn law_unknown_kind_has_no_series(
    series: Map<SeriesKeyView, SeriesValue>,
    snapshot: CurrentStatusView,
    key: SeriesKeyView,
)
    requires
        applied(series, snapshot).dom().contains(key),
    ensures
        key.monitor_type == "URL"@ || key.monitor_type == "HOMEPAGE"@ || key.monitor_type
            == "REALBROWSER"@,
{
    lemma_applied_keys(series, snapshot);
    assert(snapshot_reports(snapshot, key));
    if key.monitor_group == Seq::<char>::empty() && monitors_report(
        snapshot.monitors,
        key.monitor_type,
        key.monitor_name,
        key.location,
    ) {
        let i = choose|i: int|
            0 <= i < snapshot.monitors.len() && monitor_reports(
                #[trigger] snapshot.monitors[i],
                key.monitor_type,
                key.monitor_name,
                key.location,
            );
        assert(snapshot.monitors[i].monitor() is Some);
    } else {
        let g = choose|g: int|
            0 <= g < snapshot.monitor_groups.len() && (#[trigger] snapshot.monitor_groups[g]).group_name
                == key.monitor_group && monitors_report(
                snapshot.monitor_groups[g].monitors,
                key.monitor_type,
                key.monitor_name,
                key.location,
            );
        let monitors = snapshot.monitor_groups[g].monitors;
        let i = choose|i: int|
            0 <= i < monitors.len() && monitor_reports(
                #[trigger] monitors[i],
                key.monitor_type,
                key.monitor_name,
                key.location,
            );
        assert(monitors[i].monitor() is Some);
    }
}

} // verus!

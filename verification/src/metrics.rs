//! How one poll's report is reconciled into the exported series.

use vstd::prelude::*;
use vstd::string::*;
use crate::laws::lemma_applied_keys;
use crate::series::{ExportedSeries, Reading, SeriesKeyView, SeriesValue, set_reading};
use crate::site24x7_types::{
    CurrentStatusData, CurrentStatusView, LocationView, MonitorGroupView, MonitorMaybe,
    MonitorMaybeView, monitors_view,
};
use crate::text::text_eq;

verus! {

/// The series after the readings were set, first to last.
pub open spec fn set_readings(series: Map<SeriesKeyView, SeriesValue>, readings: Seq<Reading>) -> Map<
    SeriesKeyView,
    SeriesValue,
>
    decreases readings.len(),
{
    if readings.len() == 0 {
        series
    } else {
        set_reading(set_readings(series, readings.drop_last()), readings.last())
    }
}

/// What a location reports, under the key that its monitor and group give it.
pub open spec fn location_reading(
    monitor_type: Seq<char>,
    monitor_name: Seq<char>,
    monitor_group: Seq<char>,
    location: LocationView,
) -> Reading {
    Reading {
        key: SeriesKeyView {
            monitor_type,
            monitor_name,
            monitor_group,
            location: location.location_name,
        },
        status: location.status,
        attribute_value: location.attribute_value,
    }
}

/// The readings of one monitor's locations, in order. A monitor of a kind
/// that is not known has none.
pub open spec fn monitor_readings(monitor: MonitorMaybeView, monitor_group: Seq<char>) -> Seq<
    Reading,
> {
    match monitor.monitor() {
        Some(m) => Seq::new(
            m.locations.len(),
            |j: int| location_reading(monitor.monitor_type(), m.name, monitor_group, m.locations[j]),
        ),
        None => Seq::empty(),
    }
}

/// The readings of a list of monitors, monitor by monitor.
pub open spec fn monitors_readings(monitors: Seq<MonitorMaybeView>, monitor_group: Seq<char>) -> Seq<
    Reading,
>
    decreases monitors.len(),
{
    if monitors.len() == 0 {
        Seq::empty()
    } else {
        monitors_readings(monitors.drop_last(), monitor_group) + monitor_readings(
            monitors.last(),
            monitor_group,
        )
    }
}

/// The readings of a list of groups, group by group, each under its name.
pub open spec fn groups_readings(groups: Seq<MonitorGroupView>) -> Seq<Reading>
    decreases groups.len(),
{
    if groups.len() == 0 {
        Seq::empty()
    } else {
        groups_readings(groups.drop_last()) + monitors_readings(
            groups.last().monitors,
            groups.last().group_name,
        )
    }
}

/// All readings of a report: those of the monitors outside any group, under
/// the empty group name, then those of the groups.
pub open spec fn snapshot_readings(snapshot: CurrentStatusView) -> Seq<Reading> {
    monitors_readings(snapshot.monitors, Seq::empty()) + groups_readings(snapshot.monitor_groups)
}

/// Whether the monitor is of the given kind and name and has the location.
pub open spec fn monitor_reports(
    monitor: MonitorMaybeView,
    monitor_type: Seq<char>,
    monitor_name: Seq<char>,
    location_name: Seq<char>,
) -> bool {
    match monitor.monitor() {
        Some(m) => monitor.monitor_type() == monitor_type && m.name == monitor_name && exists|
            j: int,
        |
            0 <= j < m.locations.len() && (#[trigger] m.locations[j]).location_name
                == location_name,
        None => false,
    }
}

/// Whether one of the monitors is of the given kind and name and has the
/// location.
pub open spec fn monitors_report(
    monitors: Seq<MonitorMaybeView>,
    monitor_type: Seq<char>,
    monitor_name: Seq<char>,
    location_name: Seq<char>,
) -> bool {
    exists|i: int|
        0 <= i < monitors.len() && monitor_reports(
            #[trigger] monitors[i],
            monitor_type,
            monitor_name,
            location_name,
        )
}

/// Whether the report has a reading under the key: among the monitors
/// outside any group where the key's group name is empty, or in a group of
/// that name.
pub open spec fn snapshot_reports(snapshot: CurrentStatusView, key: SeriesKeyView) -> bool {
    ||| key.monitor_group == Seq::<char>::empty() && monitors_report(
        snapshot.monitors,
        key.monitor_type,
        key.monitor_name,
        key.location,
    )
    ||| exists|g: int|
        0 <= g < snapshot.monitor_groups.len() && (#[trigger] snapshot.monitor_groups[g]).group_name
            == key.monitor_group && monitors_report(
            snapshot.monitor_groups[g].monitors,
            key.monitor_type,
            key.monitor_name,
            key.location,
        )
}

/// The keys under which the report has a reading.
pub open spec fn snapshot_keys(snapshot: CurrentStatusView) -> Set<SeriesKeyView> {
    Set::new(|key: SeriesKeyView| snapshot_reports(snapshot, key))
}

/// The series without those whose key the report no longer has.
pub open spec fn cleaned(series: Map<SeriesKeyView, SeriesValue>, snapshot: CurrentStatusView) -> Map<
    SeriesKeyView,
    SeriesValue,
> {
    series.restrict(snapshot_keys(snapshot))
}

/// The series after a report was reconciled into them: first the series
/// that the report no longer has are removed, then each reading is set.
pub open spec fn applied(series: Map<SeriesKeyView, SeriesValue>, snapshot: CurrentStatusView) -> Map<
    SeriesKeyView,
    SeriesValue,
> {
    set_readings(cleaned(series, snapshot), snapshot_readings(snapshot))
}

/// Setting readings one list after another is setting their concatenation.
pub proof fn lemma_set_readings_concat(
    series: Map<SeriesKeyView, SeriesValue>,
    a: Seq<Reading>,
    b: Seq<Reading>,
)
    ensures
        set_readings(series, a + b) == set_readings(set_readings(series, a), b),
    decreases b.len(),
{
    if b.len() == 0 {
        assert(a + b =~= a);
    } else {
        assert((a + b).drop_last() =~= a + b.drop_last());
        assert((a + b).last() == b.last());
        lemma_set_readings_concat(series, a, b.drop_last());
    }
}

/// Setting one more reading of a list.
pub proof fn lemma_set_readings_step(
    series: Map<SeriesKeyView, SeriesValue>,
    readings: Seq<Reading>,
    j: int,
)
    requires
        0 <= j < readings.len(),
    ensures
        set_readings(series, readings.subrange(0, j + 1)) == set_reading(
            set_readings(series, readings.subrange(0, j)),
            readings[j],
        ),
{
    assert(readings.subrange(0, j + 1).drop_last() =~= readings.subrange(0, j));
}

/// The readings of one more monitor of a list.
pub proof fn lemma_monitors_readings_step(
    monitors: Seq<MonitorMaybeView>,
    monitor_group: Seq<char>,
    i: int,
)
    requires
        0 <= i < monitors.len(),
    ensures
        monitors_readings(monitors.subrange(0, i + 1), monitor_group) == monitors_readings(
            monitors.subrange(0, i),
            monitor_group,
        ) + monitor_readings(monitors[i], monitor_group),
{
    assert(monitors.subrange(0, i + 1).drop_last() =~= monitors.subrange(0, i));
}

/// The readings of one more group of a list.
pub proof fn lemma_groups_readings_step(groups: Seq<MonitorGroupView>, g: int)
    requires
        0 <= g < groups.len(),
    ensures
        groups_readings(groups.subrange(0, g + 1)) == groups_readings(groups.subrange(0, g))
            + monitors_readings(groups[g].monitors, groups[g].group_name),
{
    assert(groups.subrange(0, g + 1).drop_last() =~= groups.subrange(0, g));
}

/// Whether `monitors` holds a monitor of the given kind and name that has
/// the given location.
pub fn has_monitor_with_label_values(
    monitors: &[MonitorMaybe],
    monitor_type: &str,
    monitor_name: &str,
    location_name: &str,
) -> (r: bool)
    ensures
        r == monitors_report(monitors_view(monitors@), monitor_type@, monitor_name@, location_name@),
{
    let ghost views = monitors_view(monitors@);
    let mut i: usize = 0;
    while i < monitors.len()
        invariant
            i <= monitors@.len(),
            views == monitors_view(monitors@),
            forall|k: int|
                0 <= k < i ==> !monitor_reports(
                    #[trigger] views[k],
                    monitor_type@,
                    monitor_name@,
                    location_name@,
                ),
        decreases monitors@.len() - i,
    {
        let monitor_maybe = &monitors[i];
        assert(views[i as int] == monitor_maybe@);
        if let Some(monitor) = monitor_maybe.monitor() {
            if text_eq(monitor_maybe.monitor_type(), monitor_type) && text_eq(
                monitor.name.as_str(),
                monitor_name,
            ) {
                let mut j: usize = 0;
                while j < monitor.locations.len()
                    invariant
                        j <= monitor.locations@.len(),
                        i < monitors@.len(),
                        views == monitors_view(monitors@),
                        views[i as int] == monitor_maybe@,
                        monitor_maybe@.monitor() == Some(monitor@),
                        monitor_maybe@.monitor_type() == monitor_type@,
                        monitor@.name == monitor_name@,
                        forall|k: int|
                            0 <= k < j ==> (#[trigger] monitor@.locations[k]).location_name
                                != location_name@,
                    decreases monitor.locations@.len() - j,
                {
                    assert(monitor@.locations[j as int] == monitor.locations@[j as int]@);
                    if text_eq(monitor.locations[j].location_name.as_str(), location_name) {
                        assert(monitor_reports(
                            views[i as int],
                            monitor_type@,
                            monitor_name@,
                            location_name@,
                        ));
                        return true;
                    }
                    j += 1;
                }
            }
        }
        i += 1;
    }
    false
}

/// Sets the gauges for every location of every monitor in `monitors`, in
/// order. `monitor_group` is the name of the group that the monitors belong
/// to, empty for monitors outside any group.
pub fn set_metrics_for_monitors(
    series: &mut ExportedSeries,
    monitors: &[MonitorMaybe],
    monitor_group: &str,
)
    requires
        old(series).wf(),
    ensures
        final(series).wf(),
        final(series)@ == set_readings(
            old(series)@,
            monitors_readings(monitors_view(monitors@), monitor_group@),
        ),
{
    let ghost views = monitors_view(monitors@);
    let ghost start = series@;
    let mut i: usize = 0;
    assert(views.subrange(0, 0) =~= Seq::<MonitorMaybeView>::empty());
    while i < monitors.len()
        invariant
            i <= monitors@.len(),
            views == monitors_view(monitors@),
            series.wf(),
            series@ == set_readings(
                start,
                monitors_readings(views.subrange(0, i as int), monitor_group@),
            ),
        decreases monitors@.len() - i,
    {
        let monitor_maybe = &monitors[i];
        let ghost before = series@;
        let ghost readings = monitor_readings(views[i as int], monitor_group@);
        assert(views[i as int] == monitor_maybe@);
        if let Some(monitor) = monitor_maybe.monitor() {
            let monitor_type = monitor_maybe.monitor_type();
            let mut j: usize = 0;
            assert(readings.subrange(0, 0) =~= Seq::<Reading>::empty());
            while j < monitor.locations.len()
                invariant
                    j <= monitor.locations@.len(),
                    monitor_maybe@.monitor() == Some(monitor@),
                    monitor_type@ == monitor_maybe@.monitor_type(),
                    readings == monitor_readings(monitor_maybe@, monitor_group@),
                    series.wf(),
                    series@ == set_readings(before, readings.subrange(0, j as int)),
                decreases monitor.locations@.len() - j,
            {
                let location = &monitor.locations[j];
                proof {
                    assert(monitor@.locations[j as int] == location@);
                    lemma_set_readings_step(before, readings, j as int);
                }
                series.set(
                    monitor_type,
                    monitor.name.as_str(),
                    monitor_group,
                    location.location_name.as_str(),
                    location.status,
                    location.attribute_value,
                );
                j += 1;
            }
            assert(readings.subrange(0, j as int) =~= readings);
        } else {
            assert(readings =~= Seq::<Reading>::empty());
        }
        proof {
            lemma_monitors_readings_step(views, monitor_group@, i as int);
            lemma_set_readings_concat(
                start,
                monitors_readings(views.subrange(0, i as int), monitor_group@),
                readings,
            );
        }
        i += 1;
    }
    assert(views.subrange(0, i as int) =~= views);
}

/// Removes every series whose key `current_status_data` no longer has,
/// each from both gauges.
pub fn cleanup_metrics_for_monitors(
    series: &mut ExportedSeries,
    current_status_data: &CurrentStatusData,
)
    requires
        old(series).wf(),
    ensures
        final(series).wf(),
        final(series)@ == cleaned(old(series)@, current_status_data@),
{
    series.retain_reported(current_status_data);
}

/// Reconciles one poll's report into the exported series: removes the
/// series that the report no longer has, then sets the gauges from the
/// monitors outside any group and from each group in turn.
pub fn update_metrics_from_current_status(
    series: &mut ExportedSeries,
    current_status_data: &CurrentStatusData,
)
    requires
        old(series).wf(),
    ensures
        final(series).wf(),
        final(series)@ == applied(old(series)@, current_status_data@),
        final(series)@.dom() == snapshot_keys(current_status_data@),
{
    let ghost snapshot = current_status_data@;
    proof {
        lemma_applied_keys(series@, snapshot);
    }
    cleanup_metrics_for_monitors(series, current_status_data);
    let ghost start = series@;
    proof {
        reveal_strlit("");
        assert(""@ =~= Seq::<char>::empty());
    }
    set_metrics_for_monitors(series, current_status_data.monitors.as_slice(), "");
    let ghost loose = monitors_readings(snapshot.monitors, Seq::empty());
    let mut g: usize = 0;
    proof {
        assert(snapshot.monitor_groups.subrange(0, 0) =~= Seq::<MonitorGroupView>::empty());
        assert(loose + groups_readings(snapshot.monitor_groups.subrange(0, 0)) =~= loose);
    }
    while g < current_status_data.monitor_groups.len()
        invariant
            g <= current_status_data.monitor_groups@.len(),
            snapshot == current_status_data@,
            loose == monitors_readings(snapshot.monitors, Seq::empty()),
            series.wf(),
            series@ == set_readings(
                start,
                loose + groups_readings(snapshot.monitor_groups.subrange(0, g as int)),
            ),
        decreases current_status_data.monitor_groups@.len() - g,
    {
        let monitor_group = &current_status_data.monitor_groups[g];
        proof {
            let so_far = groups_readings(snapshot.monitor_groups.subrange(0, g as int));
            let next = monitors_readings(monitor_group@.monitors, monitor_group@.group_name);
            assert(snapshot.monitor_groups[g as int] == monitor_group@);
            lemma_groups_readings_step(snapshot.monitor_groups, g as int);
            lemma_set_readings_concat(start, loose + so_far, next);
            assert((loose + so_far) + next =~= loose + (so_far + next));
        }
        set_metrics_for_monitors(
            series,
            monitor_group.monitors.as_slice(),
            monitor_group.group_name.as_str(),
        );
        g += 1;
    }
    assert(snapshot.monitor_groups.subrange(0, g as int) =~= snapshot.monitor_groups);
}

} // verus!

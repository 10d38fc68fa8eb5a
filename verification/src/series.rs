//! The exported gauge series: for each key the `up` gauge and, where it has
//! been given a value, the latency gauge.

use vstd::prelude::*;
use vstd::string::*;
use crate::metrics::{cleaned, has_monitor_with_label_values, monitors_report, snapshot_reports};
use crate::site24x7_types::{CurrentStatusData, Status};
use crate::text::text_eq;

verus! {

/// The four labels under which a series is exported.
#[derive(Clone, Debug, PartialEq)]
pub struct SeriesKey {
    pub monitor_type: String,
    pub monitor_name: String,
    pub monitor_group: String,
    pub location: String,
}

/// The mathematical value of a [`SeriesKey`].
pub struct SeriesKeyView {
    pub monitor_type: Seq<char>,
    pub monitor_name: Seq<char>,
    pub monitor_group: Seq<char>,
    pub location: Seq<char>,
}

impl View for SeriesKey {
    type V = SeriesKeyView;

    open spec fn view(&self) -> SeriesKeyView {
        SeriesKeyView {
            monitor_type: self.monitor_type@,
            monitor_name: self.monitor_name@,
            monitor_group: self.monitor_group@,
            location: self.location@,
        }
    }
}

/// A latency gauge's value: a measurement in milliseconds, exported in
/// seconds, or the mark that there is no valid measurement.
#[derive(Clone, Copy, Debug, PartialEq, Eq, Structural)]
pub enum Latency {
    Millis(u64),
    NotANumber,
}

/// One key's exported values: the `up` gauge, and the latency gauge where
/// it has been given a value.
#[derive(Clone, Debug, PartialEq)]
pub struct Series {
    pub key: SeriesKey,
    pub up: i64,
    pub latency: Option<Latency>,
}

/// The mathematical value of what is exported under one key.
pub struct SeriesValue {
    pub up: int,
    pub latency: Option<Latency>,
}

/// What one location of one monitor reports, under the key of its series.
pub struct Reading {
    pub key: SeriesKeyView,
    pub status: Status,
    pub attribute_value: Option<u64>,
}

/// The `up` gauge for a status: 1 for `Up`, 0 for every other.
pub open spec fn up_value(status: Status) -> int {
    if status == Status::Up {
        1
    } else {
        0
    }
}

/// What a reading writes to the latency gauge: its measurement where it has
/// one; else nothing where the location is up, so that the gauge keeps what
/// it had, and the mark of no valid measurement where it is not.
pub open spec fn latency_write(status: Status, attribute_value: Option<u64>) -> Option<Latency> {
    match attribute_value {
        Some(v) => Some(Latency::Millis(v)),
        None => if status == Status::Up {
            None
        } else {
            Some(Latency::NotANumber)
        },
    }
}

/// The latency gauge of `key` before a reading: absent where the key has no
/// series.
pub open spec fn latency_at(series: Map<SeriesKeyView, SeriesValue>, key: SeriesKeyView) -> Option<
    Latency,
> {
    if series.dom().contains(key) {
        series[key].latency
    } else {
        None
    }
}

/// The series after one reading was set.
pub open spec fn set_reading(series: Map<SeriesKeyView, SeriesValue>, r: Reading) -> Map<
    SeriesKeyView,
    SeriesValue,
> {
    series.insert(
        r.key,
        SeriesValue {
            up: up_value(r.status),
            latency: match latency_write(r.status, r.attribute_value) {
                Some(l) => Some(l),
                None => latency_at(series, r.key),
            },
        },
    )
}

/// The live set of exported series, at most one for each key.
pub struct ExportedSeries {
    entries: Vec<Series>,
}

/// Whether no two entries stand under the same key.
pub open spec fn distinct_keys(entries: Seq<Series>) -> bool {
    forall|i: int, j: int|
        0 <= i < entries.len() && 0 <= j < entries.len() && i != j ==> #[trigger] entries[i].key@
            != #[trigger] entries[j].key@
}

/// Whether an entry stands under the key.
pub open spec fn holds_key(entries: Seq<Series>, key: SeriesKeyView) -> bool {
    exists|i: int| 0 <= i < entries.len() && #[trigger] entries[i].key@ == key
}

/// Where the entry under the key stands.
pub open spec fn index_of(entries: Seq<Series>, key: SeriesKeyView) -> int {
    choose|i: int| 0 <= i < entries.len() && #[trigger] entries[i].key@ == key
}

/// The series that a list of entries with distinct keys holds, by key.
pub open spec fn entries_view(entries: Seq<Series>) -> Map<SeriesKeyView, SeriesValue> {
    Map::new(
        |key: SeriesKeyView| holds_key(entries, key),
        |key: SeriesKeyView|
            SeriesValue {
                up: entries[index_of(entries, key)].up as int,
                latency: entries[index_of(entries, key)].latency,
            },
    )
}

impl View for ExportedSeries {
    type V = Map<SeriesKeyView, SeriesValue>;

    closed spec fn view(&self) -> Map<SeriesKeyView, SeriesValue> {
        entries_view(self.entries@)
    }
}

impl ExportedSeries {
    /// No key has two series.
    pub closed spec fn wf(&self) -> bool {
        distinct_keys(self.entries@)
    }

    /// No series at all.
    pub fn new() -> (r: ExportedSeries)
        ensures
            r.wf(),
            r@ == Map::<SeriesKeyView, SeriesValue>::empty(),
    {
        let r = ExportedSeries { entries: Vec::new() };
        assert(r@ =~= Map::<SeriesKeyView, SeriesValue>::empty());
        r
    }

    fn find(
        &self,
        monitor_type: &str,
        monitor_name: &str,
        monitor_group: &str,
        location: &str,
    ) -> (r: Option<usize>)
        ensures
            match r {
                Some(i) => i < self.entries@.len() && self.entries@[i as int].key@ == (SeriesKeyView {
                    monitor_type: monitor_type@,
                    monitor_name: monitor_name@,
                    monitor_group: monitor_group@,
                    location: location@,
                }),
                None => !holds_key(
                    self.entries@,
                    SeriesKeyView {
                        monitor_type: monitor_type@,
                        monitor_name: monitor_name@,
                        monitor_group: monitor_group@,
                        location: location@,
                    },
                ),
            },
    {
        let ghost key = SeriesKeyView {
            monitor_type: monitor_type@,
            monitor_name: monitor_name@,
            monitor_group: monitor_group@,
            location: location@,
        };
        let mut i: usize = 0;
        while i < self.entries.len()
            invariant
                i <= self.entries@.len(),
                key == (SeriesKeyView {
                    monitor_type: monitor_type@,
                    monitor_name: monitor_name@,
                    monitor_group: monitor_group@,
                    location: location@,
                }),
                forall|k: int| 0 <= k < i ==> (#[trigger] self.entries@[k]).key@ != key,
            decreases self.entries@.len() - i,
        {
            let e = &self.entries[i];
            if text_eq(e.key.location.as_str(), location) && text_eq(
                e.key.monitor_name.as_str(),
                monitor_name,
            ) && text_eq(e.key.monitor_group.as_str(), monitor_group) && text_eq(
                e.key.monitor_type.as_str(),
                monitor_type,
            ) {
                return Some(i);
            }
            i += 1;
        }
        None
    }

    /// Sets the gauges of one key from what a location reports.
    pub fn set(
        &mut self,
        monitor_type: &str,
        monitor_name: &str,
        monitor_group: &str,
        location: &str,
        status: Status,
        attribute_value: Option<u64>,
    )
        requires
            old(self).wf(),
        ensures
            final(self).wf(),
            final(self)@ == set_reading(
                old(self)@,
                Reading {
                    key: SeriesKeyView {
                        monitor_type: monitor_type@,
                        monitor_name: monitor_name@,
                        monitor_group: monitor_group@,
                        location: location@,
                    },
                    status,
                    attribute_value,
                },
            ),
    {
        let ghost key = SeriesKeyView {
            monitor_type: monitor_type@,
            monitor_name: monitor_name@,
            monitor_group: monitor_group@,
            location: location@,
        };
        let ghost before = self.entries@;
        proof {
            lemma_entries_view(before);
        }
        let up: i64 = if status.is_up() {
            1
        } else {
            0
        };
        let write = match attribute_value {
            Some(v) => Some(Latency::Millis(v)),
            None => if status.is_up() {
                None
            } else {
                Some(Latency::NotANumber)
            },
        };
        match self.find(monitor_type, monitor_name, monitor_group, location) {
            Some(i) => {
                self.entries[i].up = up;
                if write.is_some() {
                    self.entries[i].latency = write;
                }
                proof {
                    let after = self.entries@;
                    assert forall|k: int| 0 <= k < after.len() implies (#[trigger] after[k]).key@
                        == before[k].key@ by {}
                    lemma_same_keys(before, after);
                    lemma_entries_view(after);
                    assert(after[i as int].key@ == key);
                    assert(entries_view(after) =~= set_reading(
                        entries_view(before),
                        Reading { key, status, attribute_value },
                    )) by {
                        assert forall|k: SeriesKeyView| holds_key(after, k) implies #[trigger] entries_view(
                            after,
                        )[k] == set_reading(
                            entries_view(before),
                            Reading { key, status, attribute_value },
                        )[k] by {
                            let n = index_of(after, k);
                            assert(before[n].key@ == k);
                            if n != i {
                                assert(after[n] == before[n]);
                            }
                        }
                    }
                }
            },
            None => {
                let entry = Series {
                    key: SeriesKey {
                        monitor_type: String::from_str(monitor_type),
                        monitor_name: String::from_str(monitor_name),
                        monitor_group: String::from_str(monitor_group),
                        location: String::from_str(location),
                    },
                    up,
                    latency: write,
                };
                proof {
                    assert(entry.key@ == key);
                    lemma_push_keeps_distinct(before, entry);
                }
                self.entries.push(entry);
                proof {
                    let after = self.entries@;
                    lemma_entries_view(after);
                    assert(after[after.len() - 1] == entry);
                    assert(entries_view(after) =~= set_reading(
                        entries_view(before),
                        Reading { key, status, attribute_value },
                    )) by {
                        assert forall|k: SeriesKeyView| holds_key(after, k) implies (k == key
                            || holds_key(before, k)) && #[trigger] entries_view(after)[k]
                            == set_reading(
                            entries_view(before),
                            Reading { key, status, attribute_value },
                        )[k] by {
                            let n = index_of(after, k);
                            if n < before.len() {
                                assert(before[n].key@ == k);
                                assert(after[n] == before[n]);
                            }
                        }
                        assert forall|k: SeriesKeyView| holds_key(before, k) implies holds_key(
                            after,
                            k,
                        ) by {
                            let n = index_of(before, k);
                            assert(after[n].key@ == k);
                        }
                    }
                }
            },
        }
    }

    /// Whether the report has a reading under the key of the series at `i`.
    fn reported(&self, i: usize, data: &CurrentStatusData) -> (r: bool)
        requires
            i < self.entries@.len(),
        ensures
            r == snapshot_reports(data@, self.entries@[i as int].key@),
    {
        let key = &self.entries[i].key;
        let ghost snapshot = data@;
        proof {
            reveal_strlit("");
            assert(""@ =~= Seq::<char>::empty());
        }
        if text_eq(key.monitor_group.as_str(), "") {
            if has_monitor_with_label_values(
                data.monitors.as_slice(),
                key.monitor_type.as_str(),
                key.monitor_name.as_str(),
                key.location.as_str(),
            ) {
                return true;
            }
        }
        let mut g: usize = 0;
        while g < data.monitor_groups.len()
            invariant
                g <= data.monitor_groups@.len(),
                snapshot == data@,
                i < self.entries@.len(),
                key@ == self.entries@[i as int].key@,
                !(key@.monitor_group == Seq::<char>::empty() && monitors_report(
                    snapshot.monitors,
                    key@.monitor_type,
                    key@.monitor_name,
                    key@.location,
                )),
                forall|n: int|
                    0 <= n < g ==> !((#[trigger] snapshot.monitor_groups[n]).group_name
                        == key@.monitor_group && monitors_report(
                        snapshot.monitor_groups[n].monitors,
                        key@.monitor_type,
                        key@.monitor_name,
                        key@.location,
                    )),
            decreases data.monitor_groups@.len() - g,
        {
            let group = &data.monitor_groups[g];
            assert(snapshot.monitor_groups[g as int] == group@);
            if text_eq(group.group_name.as_str(), key.monitor_group.as_str())
                && has_monitor_with_label_values(
                group.monitors.as_slice(),
                key.monitor_type.as_str(),
                key.monitor_name.as_str(),
                key.location.as_str(),
            ) {
                return true;
            }
            g += 1;
        }
        false
    }

    /// Removes every series whose key the report no longer has.
    pub fn retain_reported(&mut self, data: &CurrentStatusData)
        requires
            old(self).wf(),
        ensures
            final(self).wf(),
            final(self)@ == cleaned(old(self)@, data@),
    {
        let ghost before = self.entries@;
        let ghost snapshot = data@;
        let mut i: usize = 0;
        while i < self.entries.len()
            invariant
                i <= self.entries@.len(),
                snapshot == data@,
                distinct_keys(before),
                distinct_keys(self.entries@),
                forall|k: SeriesKeyView| #[trigger]
                    holds_key(self.entries@, k) ==> holds_key(before, k) && entries_view(
                        self.entries@,
                    )[k] == entries_view(before)[k],
                forall|k: SeriesKeyView|
                    snapshot_reports(snapshot, k) && #[trigger] holds_key(before, k) ==> holds_key(
                        self.entries@,
                        k,
                    ),
                forall|n: int|
                    0 <= n < i ==> snapshot_reports(snapshot, (#[trigger] self.entries@[n]).key@),
            decreases self.entries@.len() - i,
        {
            if self.reported(i, data) {
                i += 1;
            } else {
                proof {
                    lemma_remove_entry(self.entries@, i as int);
                }
                self.entries.remove(i);
            }
        }
        proof {
            let after = self.entries@;
            lemma_entries_view(after);
            assert(entries_view(after) =~= cleaned(entries_view(before), snapshot)) by {
                assert forall|k: SeriesKeyView| holds_key(after, k) implies snapshot_reports(
                    snapshot,
                    k,
                ) by {
                    let n = index_of(after, k);
                    assert(after[n].key@ == k);
                }
            }
        }
    }

    /// Whether no key has two series. Every value that [`ExportedSeries::new`]
    /// made and these functions changed is so; a caller that Verus does not
    /// check can make sure of it here.
    pub fn is_well_formed(&self) -> (r: bool)
        ensures
            r == self.wf(),
    {
        let mut i: usize = 0;
        while i < self.entries.len()
            invariant
                i <= self.entries@.len(),
                forall|a: int, b: int|
                    0 <= a < i && 0 <= b < a ==> #[trigger] self.entries@[a].key@
                        != #[trigger] self.entries@[b].key@,
            decreases self.entries@.len() - i,
        {
            let key = &self.entries[i].key;
            let mut j: usize = 0;
            while j < i
                invariant
                    j <= i < self.entries@.len(),
                    key@ == self.entries@[i as int].key@,
                    forall|b: int| 0 <= b < j ==> (#[trigger] self.entries@[b]).key@ != key@,
                decreases i - j,
            {
                let other = &self.entries[j].key;
                if text_eq(other.location.as_str(), key.location.as_str()) && text_eq(
                    other.monitor_name.as_str(),
                    key.monitor_name.as_str(),
                ) && text_eq(other.monitor_group.as_str(), key.monitor_group.as_str())
                    && text_eq(other.monitor_type.as_str(), key.monitor_type.as_str()) {
                    assert(self.entries@[i as int].key@ == self.entries@[j as int].key@);
                    return false;
                }
                j += 1;
            }
            i += 1;
        }
        let ghost entries = self.entries@;
        assert forall|a: int, b: int|
            0 <= a < entries.len() && 0 <= b < entries.len() && a != b implies #[trigger] entries[a].key@
            != #[trigger] entries[b].key@ by {
            if a < b {
                assert(entries[b].key@ != entries[a].key@);
            }
        }
        true
    }

    /// The exported series, one entry for each key that has one.
    pub fn series(&self) -> (r: &Vec<Series>)
        requires
            self.wf(),
        ensures
            entries_view(r@) == self@,
            distinct_keys(r@),
    {
        &self.entries
    }

    /// The `up` gauge of a key, where it has a series.
    pub fn up(
        &self,
        monitor_type: &str,
        monitor_name: &str,
        monitor_group: &str,
        location: &str,
    ) -> (r: Option<i64>)
        requires
            self.wf(),
        ensures
            ({
                let key = SeriesKeyView {
                    monitor_type: monitor_type@,
                    monitor_name: monitor_name@,
                    monitor_group: monitor_group@,
                    location: location@,
                };
                match r {
                    Some(v) => self@.dom().contains(key) && self@[key].up == v,
                    None => !self@.dom().contains(key),
                }
            }),
    {
        proof {
            lemma_entries_view(self.entries@);
        }
        match self.find(monitor_type, monitor_name, monitor_group, location) {
            Some(i) => Some(self.entries[i].up),
            None => None,
        }
    }

    /// The latency gauge of a key, where it has been given a value.
    pub fn latency(
        &self,
        monitor_type: &str,
        monitor_name: &str,
        monitor_group: &str,
        location: &str,
    ) -> (r: Option<Latency>)
        requires
            self.wf(),
        ensures
            r == latency_at(
                self@,
                SeriesKeyView {
                    monitor_type: monitor_type@,
                    monitor_name: monitor_name@,
                    monitor_group: monitor_group@,
                    location: location@,
                },
            ),
    {
        proof {
            lemma_entries_view(self.entries@);
        }
        match self.find(monitor_type, monitor_name, monitor_group, location) {
            Some(i) => self.entries[i].latency,
            None => None,
        }
    }

    /// How many keys have a series.
    pub fn len(&self) -> (r: usize)
        requires
            self.wf(),
        ensures
            r == self@.dom().len(),
            self@.dom().finite(),
    {
        proof {
            lemma_entries_dom(self.entries@);
        }
        self.entries.len()
    }
}

/// With distinct keys, each entry is what the view holds under its key.
pub proof fn lemma_entries_view(entries: Seq<Series>)
    requires
        distinct_keys(entries),
    ensures
        forall|i: int|
            0 <= i < entries.len() ==> holds_key(entries, (#[trigger] entries[i]).key@) && index_of(
                entries,
                entries[i].key@,
            ) == i && entries_view(entries)[entries[i].key@] == (SeriesValue {
                up: entries[i].up as int,
                latency: entries[i].latency,
            }),
        forall|k: SeriesKeyView|
            holds_key(entries, k) ==> 0 <= #[trigger] index_of(entries, k) < entries.len()
                && entries[index_of(entries, k)].key@ == k,
{
    assert forall|i: int| 0 <= i < entries.len() implies holds_key(
        entries,
        (#[trigger] entries[i]).key@,
    ) && index_of(entries, entries[i].key@) == i by {
        assert(entries[i].key@ == entries[i].key@);
        let n = index_of(entries, entries[i].key@);
        assert(entries[n].key@ == entries[i].key@);
    }
}

/// Two entry lists with the same keys at the same places hold the same keys.
pub proof fn lemma_same_keys(a: Seq<Series>, b: Seq<Series>)
    requires
        a.len() == b.len(),
        forall|i: int| 0 <= i < a.len() ==> (#[trigger] b[i]).key@ == a[i].key@,
        distinct_keys(a),
    ensures
        distinct_keys(b),
        forall|k: SeriesKeyView| holds_key(a, k) <==> holds_key(b, k),
        forall|k: SeriesKeyView| holds_key(a, k) ==> index_of(a, k) == index_of(b, k),
{
    assert forall|i: int, j: int| 0 <= i < b.len() && 0 <= j < b.len() && i != j implies #[trigger] b[i].key@
        != #[trigger] b[j].key@ by {
        assert(a[i].key@ != a[j].key@);
    }
    lemma_entries_view(a);
    lemma_entries_view(b);
    assert forall|k: SeriesKeyView| holds_key(a, k) implies holds_key(b, k) && index_of(a, k)
        == index_of(b, k) by {
        let n = index_of(a, k);
        assert(b[n].key@ == k);
    }
    assert forall|k: SeriesKeyView| holds_key(b, k) implies holds_key(a, k) by {
        let n = index_of(b, k);
        assert(a[n].key@ == k);
    }
}

/// An entry under a key that the list does not hold can be added.
pub proof fn lemma_push_keeps_distinct(entries: Seq<Series>, entry: Series)
    requires
        distinct_keys(entries),
        !holds_key(entries, entry.key@),
    ensures
        distinct_keys(entries.push(entry)),
{
    let after = entries.push(entry);
    assert forall|i: int, j: int|
        0 <= i < after.len() && 0 <= j < after.len() && i != j implies #[trigger] after[i].key@
        != #[trigger] after[j].key@ by {
        if i < entries.len() && j < entries.len() {
            assert(entries[i].key@ != entries[j].key@);
        } else if i < entries.len() {
            assert(entries[i].key@ == after[i].key@);
        } else {
            assert(entries[j].key@ == after[j].key@);
        }
    }
}

/// Taking one entry out leaves the other keys with their values.
pub proof fn lemma_remove_entry(entries: Seq<Series>, i: int)
    requires
        distinct_keys(entries),
        0 <= i < entries.len(),
    ensures
        distinct_keys(entries.remove(i)),
        forall|k: SeriesKeyView| #[trigger]
            holds_key(entries.remove(i), k) <==> holds_key(entries, k) && k != entries[i].key@,
        forall|k: SeriesKeyView| #[trigger]
            holds_key(entries.remove(i), k) ==> entries_view(entries.remove(i))[k] == entries_view(
                entries,
            )[k],
{
    let after = entries.remove(i);
    assert forall|a: int, b: int|
        0 <= a < after.len() && 0 <= b < after.len() && a != b implies #[trigger] after[a].key@
        != #[trigger] after[b].key@ by {
        let a0 = if a < i { a } else { a + 1 };
        let b0 = if b < i { b } else { b + 1 };
        assert(after[a] == entries[a0]);
        assert(after[b] == entries[b0]);
        assert(entries[a0].key@ != entries[b0].key@);
    }
    lemma_entries_view(entries);
    lemma_entries_view(after);
    assert forall|k: SeriesKeyView| #[trigger] holds_key(after, k) implies holds_key(entries, k)
        && k != entries[i].key@ && entries_view(after)[k] == entries_view(entries)[k] by {
        let n = index_of(after, k);
        let n0 = if n < i { n } else { n + 1 };
        assert(after[n] == entries[n0]);
        assert(entries[n0].key@ == k);
        assert(entries[n0].key@ != entries[i].key@);
    }
    assert forall|k: SeriesKeyView| holds_key(entries, k) && k != entries[i].key@ implies #[trigger] holds_key(
        after,
        k,
    ) by {
        let n0 = index_of(entries, k);
        let n = if n0 < i { n0 } else { n0 - 1 };
        assert(after[n] == entries[n0]);
        assert(after[n].key@ == k);
    }
}

/// With distinct keys, an entry list holds as many keys as entries.
pub proof fn lemma_entries_dom(entries: Seq<Series>)
    requires
        distinct_keys(entries),
    ensures
        entries_view(entries).dom().finite(),
        entries_view(entries).dom().len() == entries.len(),
    decreases entries.len(),
{
    if entries.len() == 0 {
        assert(entries_view(entries).dom() =~= Set::<SeriesKeyView>::empty());
    } else {
        let rest = entries.drop_last();
        let last = entries.last();
        lemma_entries_dom(rest);
        assert forall|k: SeriesKeyView| entries_view(entries).dom().contains(k) <==> entries_view(
            rest,
        ).dom().insert(last.key@).contains(k) by {
            if holds_key(entries, k) {
                let i = index_of(entries, k);
                if i < rest.len() {
                    assert(rest[i].key@ == k);
                }
            }
            if holds_key(rest, k) {
                let i = index_of(rest, k);
                assert(entries[i].key@ == k);
            }
            if k == last.key@ {
                assert(entries[entries.len() - 1].key@ == k);
            }
        }
        assert(entries_view(entries).dom() =~= entries_view(rest).dom().insert(last.key@));
        if holds_key(rest, last.key@) {
            let i = index_of(rest, last.key@);
            assert(entries[i].key@ == entries[entries.len() - 1].key@);
        }
    }
}

} // verus!

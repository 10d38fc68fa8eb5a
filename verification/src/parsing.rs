//! Reading the service's answer to a status request.

use vstd::prelude::*;
use vstd::string::*;
use crate::decode::{
    FaultAt, SchemaError, SchemaFault, collect, fault_at_field, field_path, field_path_string,
    index_path, index_path_string, lemma_collect_fault, lemma_collect_len, lemma_collect_step,
    lenient_text,
    lenient_u64, member, member_of, read_lenient_text, read_lenient_u64, read_required_text,
    read_status, read_timestamp, required_text, status_of, timestamp_of,
};
use crate::json::{
    JsonError, JsonErrorView, JsonValue, JsonView, ROOT, items_view, json_outcome,
    json_result_view, members_view, parse_json,
};
use crate::site24x7_types::{
    AUTH_EXPIRED_MESSAGE, ApiError, ApiErrorView, CurrentStatusData, CurrentStatusError,
    CurrentStatusErrorView, CurrentStatusResponse, CurrentStatusResponseInner,
    CurrentStatusResponseView, CurrentStatusView, Location, LocationView, Monitor, MonitorGroup,
    MonitorGroupView, MonitorMaybe, MonitorMaybeView, MonitorView, Tag, TagView, groups_view,
    locations_view, monitors_view, tag_of, tags_view,
};
use crate::text::text_eq;

verus! {

fn fault_at(path: &str, what: SchemaFault) -> (r: SchemaError)
    ensures
        r@ == (FaultAt { path: path@, fault: what }),
{
    SchemaError { path: String::from_str(path), fault: what }
}

/// The location that a document at `path` stands for. Its name must be
/// there; its status counts as a configuration error where it is left out;
/// a measurement that is no unsigned integer counts as left out.
pub open spec fn location_of(doc: JsonView, path: Seq<char>) -> Result<LocationView, FaultAt> {
    match doc {
        JsonView::Object(members) => {
            let status = status_of(members, "status"@, path);
            let name = required_text(members, "location_name"@, path);
            let polled = timestamp_of(members, "last_polled_time"@, path);
            if status is Err {
                Err(status->Err_0)
            } else if name is Err {
                Err(name->Err_0)
            } else if polled is Err {
                Err(polled->Err_0)
            } else {
                Ok(
                    LocationView {
                        status: status->Ok_0,
                        attribute_value: lenient_u64(members, "attribute_value"@),
                        location_name: name->Ok_0,
                        last_polled_time: polled->Ok_0,
                    },
                )
            }
        },
        _ => Err(FaultAt { path, fault: SchemaFault::NotAnObject }),
    }
}

/// Reads a location from the document at `path`.
pub fn decode_location(doc: &JsonValue, path: &str) -> (r: Result<Location, SchemaError>)
    ensures
        match r {
            Ok(l) => location_of(doc@, path@) == Ok::<LocationView, FaultAt>(l@),
            Err(e) => location_of(doc@, path@) == Err::<LocationView, FaultAt>(e@),
        },
{
    match doc {
        JsonValue::Object(members) => {
            let status = match read_status(members, "status", path) {
                Ok(v) => v,
                Err(e) => {
                    return Err(e);
                },
            };
            let location_name = match read_required_text(members, "location_name", path) {
                Ok(v) => v,
                Err(e) => {
                    return Err(e);
                },
            };
            let last_polled_time = match read_timestamp(members, "last_polled_time", path) {
                Ok(v) => v,
                Err(e) => {
                    return Err(e);
                },
            };
            let attribute_value = read_lenient_u64(members, "attribute_value");
            Ok(Location { status, attribute_value, location_name, last_polled_time })
        },
        _ => Err(fault_at(path, SchemaFault::NotAnObject)),
    }
}

/// The outcome of reading each item of a list of locations at `base`.
pub open spec fn location_results(items: Seq<JsonView>, base: Seq<char>) -> Seq<
    Result<LocationView, FaultAt>,
> {
    Seq::new(items.len(), |i: int| location_of(items[i], index_path(base, i as nat)))
}

/// The locations of a monitor: a list that must be there and hold at least
/// one location.
pub open spec fn locations_of(members: Seq<(Seq<char>, JsonView)>, path: Seq<char>) -> Result<
    Seq<LocationView>,
    FaultAt,
> {
    match member_of(members, "locations"@) {
        None => Err(fault_at_field(path, "locations"@, SchemaFault::MissingField)),
        Some(JsonView::Array(items)) => if items.len() == 0 {
            Err(fault_at_field(path, "locations"@, SchemaFault::NoLocations))
        } else {
            collect(location_results(items, field_path(path, "locations"@)))
        },
        Some(_) => Err(fault_at_field(path, "locations"@, SchemaFault::NotAnArray)),
    }
}

/// Reads the locations of the monitor at `path`.
pub fn decode_locations(members: &Vec<(String, JsonValue)>, path: &str) -> (r: Result<
    Vec<Location>,
    SchemaError,
>)
    ensures
        match r {
            Ok(l) => locations_of(members_view(members@), path@) == Ok::<
                Seq<LocationView>,
                FaultAt,
            >(locations_view(l@)),
            Err(e) => locations_of(members_view(members@), path@) == Err::<
                Seq<LocationView>,
                FaultAt,
            >(e@),
        },
{
    let base = field_path_string(path, "locations");
    match member(members, "locations") {
        None => Err(SchemaError { path: base, fault: SchemaFault::MissingField }),
        Some(JsonValue::Array(items)) => {
            if items.len() == 0 {
                return Err(SchemaError { path: base, fault: SchemaFault::NoLocations });
            }
            let ghost results = location_results(items_view(items@), base@);
            let mut out: Vec<Location> = Vec::new();
            let mut i: usize = 0;
            assert(results.subrange(0, 0) =~= Seq::empty());
            assert(locations_view(out@) =~= Seq::empty());
            while i < items.len()
                invariant
                    i <= items@.len(),
                    results == location_results(items_view(items@), base@),
                    base@ == field_path(path@, "locations"@),
                    member_of(members_view(members@), "locations"@) == Some(
                        JsonView::Array(items_view(items@)),
                    ),
                    items@.len() > 0,
                    collect(results.subrange(0, i as int)) == Ok::<Seq<LocationView>, FaultAt>(
                        locations_view(out@),
                    ),
                decreases items@.len() - i,
            {
                let item_path = index_path_string(base.as_str(), i);
                proof {
                    lemma_collect_step(results, i as int);
                }
                match decode_location(&items[i], item_path.as_str()) {
                    Ok(l) => {
                        let ghost before = out@;
                        out.push(l);
                        assert(locations_view(out@) =~= locations_view(before).push(l@));
                    },
                    Err(e) => {
                        proof {
                            lemma_collect_fault(results, i as int + 1);
                        }
                        return Err(e);
                    },
                }
                i += 1;
            }
            assert(results.subrange(0, i as int) =~= results);
            Ok(out)
        },
        Some(_) => Err(SchemaError { path: base, fault: SchemaFault::NotAnArray }),
    }
}

/// The outcome of reading each item of a list of tags at `base`: each must
/// be a text.
pub open spec fn tag_results(items: Seq<JsonView>, base: Seq<char>) -> Seq<Result<TagView, FaultAt>> {
    Seq::new(
        items.len(),
        |i: int|
            match items[i] {
                JsonView::Text(s) => Ok(tag_of(s)),
                _ => Err(FaultAt { path: index_path(base, i as nat), fault: SchemaFault::NotText }),
            },
    )
}

/// The tags of a monitor: none where the list is left out.
pub open spec fn tags_of(members: Seq<(Seq<char>, JsonView)>, path: Seq<char>) -> Result<
    Seq<TagView>,
    FaultAt,
> {
    match member_of(members, "tags"@) {
        None => Ok(Seq::empty()),
        Some(JsonView::Array(items)) => collect(tag_results(items, field_path(path, "tags"@))),
        Some(_) => Err(fault_at_field(path, "tags"@, SchemaFault::NotAnArray)),
    }
}

/// Reads the tags of the monitor at `path`.
pub fn decode_tags(members: &Vec<(String, JsonValue)>, path: &str) -> (r: Result<
    Vec<Tag>,
    SchemaError,
>)
    ensures
        match r {
            Ok(t) => tags_of(members_view(members@), path@) == Ok::<Seq<TagView>, FaultAt>(
                tags_view(t@),
            ),
            Err(e) => tags_of(members_view(members@), path@) == Err::<Seq<TagView>, FaultAt>(e@),
        },
{
    match member(members, "tags") {
        None => {
            let out: Vec<Tag> = Vec::new();
            assert(tags_view(out@) =~= Seq::empty());
            Ok(out)
        },
        Some(JsonValue::Array(items)) => {
            let base = field_path_string(path, "tags");
            let ghost results = tag_results(items_view(items@), base@);
            let mut out: Vec<Tag> = Vec::new();
            let mut i: usize = 0;
            assert(results.subrange(0, 0) =~= Seq::empty());
            assert(tags_view(out@) =~= Seq::empty());
            while i < items.len()
                invariant
                    i <= items@.len(),
                    results == tag_results(items_view(items@), base@),
                    base@ == field_path(path@, "tags"@),
                    member_of(members_view(members@), "tags"@) == Some(
                        JsonView::Array(items_view(items@)),
                    ),
                    collect(results.subrange(0, i as int)) == Ok::<Seq<TagView>, FaultAt>(
                        tags_view(out@),
                    ),
                decreases items@.len() - i,
            {
                proof {
                    lemma_collect_step(results, i as int);
                }
                match &items[i] {
                    JsonValue::Text(s) => {
                        let ghost before = out@;
                        let tag = Tag::parse(s.as_str());
                        out.push(tag);
                        assert(tags_view(out@) =~= tags_view(before).push(tag@));
                    },
                    _ => {
                        proof {
                            lemma_collect_fault(results, i as int + 1);
                        }
                        return Err(
                            SchemaError {
                                path: index_path_string(base.as_str(), i),
                                fault: SchemaFault::NotText,
                            },
                        );
                    },
                }
                i += 1;
            }
            assert(results.subrange(0, i as int) =~= results);
            Ok(out)
        },
        Some(_) => Err(
            SchemaError { path: field_path_string(path, "tags"), fault: SchemaFault::NotAnArray },
        ),
    }
}

/// The monitor that the members of an object at `path` stand for. Name,
/// locations, attribute name and identifier must be there. Unit and
/// attribute key count as left out where they are no text, the measurement
/// where it is no unsigned integer; the status counts as a configuration
/// error where it is left out. The first member that is not as expected, in
/// the order of the fields of [`Monitor`], decides the fault.
pub open spec fn monitor_of(members: Seq<(Seq<char>, JsonView)>, path: Seq<char>) -> Result<
    MonitorView,
    FaultAt,
> {
    let name = required_text(members, "name"@, path);
    let status = status_of(members, "status"@, path);
    let locations = locations_of(members, path);
    let attribute_name = required_text(members, "attributeName"@, path);
    let monitor_id = required_text(members, "monitor_id"@, path);
    let tags = tags_of(members, path);
    let polled = timestamp_of(members, "last_polled_time"@, path);
    if name is Err {
        Err(name->Err_0)
    } else if status is Err {
        Err(status->Err_0)
    } else if locations is Err {
        Err(locations->Err_0)
    } else if attribute_name is Err {
        Err(attribute_name->Err_0)
    } else if monitor_id is Err {
        Err(monitor_id->Err_0)
    } else if tags is Err {
        Err(tags->Err_0)
    } else if polled is Err {
        Err(polled->Err_0)
    } else {
        Ok(
            MonitorView {
                name: name->Ok_0,
                unit: lenient_text(members, "unit"@),
                attribute_key: lenient_text(members, "attribute_key"@),
                status: status->Ok_0,
                locations: locations->Ok_0,
                attribute_name: attribute_name->Ok_0,
                attribute_value: lenient_u64(members, "attribute_value"@),
                monitor_id: monitor_id->Ok_0,
                tags: tags->Ok_0,
                last_polled_time: polled->Ok_0,
            },
        )
    }
}

/// A monitor that was read has at least one location.
pub proof fn law_monitor_has_locations(members: Seq<(Seq<char>, JsonView)>, path: Seq<char>)
    requires
        monitor_of(members, path) is Ok,
    ensures
        monitor_of(members, path)->Ok_0.locations.len() > 0,
{
    let items = member_of(members, "locations"@)->Some_0->Array_0;
    lemma_collect_len(location_results(items, field_path(path, "locations"@)));
}

/// Reads a monitor from the members of the object at `path`.
pub fn decode_monitor(members: &Vec<(String, JsonValue)>, path: &str) -> (r: Result<
    Monitor,
    SchemaError,
>)
    ensures
        match r {
            Ok(m) => monitor_of(members_view(members@), path@) == Ok::<MonitorView, FaultAt>(m@),
            Err(e) => monitor_of(members_view(members@), path@) == Err::<MonitorView, FaultAt>(
                e@,
            ),
        },
{
    let name = match read_required_text(members, "name", path) {
        Ok(v) => v,
        Err(e) => {
            return Err(e);
        },
    };
    let status = match read_status(members, "status", path) {
        Ok(v) => v,
        Err(e) => {
            return Err(e);
        },
    };
    let locations = match decode_locations(members, path) {
        Ok(v) => v,
        Err(e) => {
            return Err(e);
        },
    };
    let attribute_name = match read_required_text(members, "attributeName", path) {
        Ok(v) => v,
        Err(e) => {
            return Err(e);
        },
    };
    let monitor_id = match read_required_text(members, "monitor_id", path) {
        Ok(v) => v,
        Err(e) => {
            return Err(e);
        },
    };
    let tags = match decode_tags(members, path) {
        Ok(v) => v,
        Err(e) => {
            return Err(e);
        },
    };
    let last_polled_time = match read_timestamp(members, "last_polled_time", path) {
        Ok(v) => v,
        Err(e) => {
            return Err(e);
        },
    };
    let unit = read_lenient_text(members, "unit");
    let attribute_key = read_lenient_text(members, "attribute_key");
    let attribute_value = read_lenient_u64(members, "attribute_value");
    Ok(
        Monitor {
            name,
            unit,
            attribute_key,
            status,
            locations,
            attribute_name,
            attribute_value,
            monitor_id,
            tags,
            last_polled_time,
        },
    )
}

/// The monitor by kind that a document at `path` stands for. The kind is
/// the text under `monitor_type`; under a kind that is not known the rest
/// of the document is not looked at.
pub open spec fn monitor_maybe_of(doc: JsonView, path: Seq<char>) -> Result<
    MonitorMaybeView,
    FaultAt,
> {
    match doc {
        JsonView::Object(members) => match member_of(members, "monitor_type"@) {
            None => Err(fault_at_field(path, "monitor_type"@, SchemaFault::MissingField)),
            Some(JsonView::Text(kind)) => if kind == "URL"@ {
                match monitor_of(members, path) {
                    Ok(m) => Ok(MonitorMaybeView::Url(m)),
                    Err(e) => Err(e),
                }
            } else if kind == "HOMEPAGE"@ {
                match monitor_of(members, path) {
                    Ok(m) => Ok(MonitorMaybeView::Homepage(m)),
                    Err(e) => Err(e),
                }
            } else if kind == "REALBROWSER"@ {
                match monitor_of(members, path) {
                    Ok(m) => Ok(MonitorMaybeView::RealBrowser(m)),
                    Err(e) => Err(e),
                }
            } else {
                Ok(MonitorMaybeView::Unknown)
            },
            Some(_) => Err(fault_at_field(path, "monitor_type"@, SchemaFault::NotText)),
        },
        _ => Err(FaultAt { path, fault: SchemaFault::NotAnObject }),
    }
}

/// Reads a monitor by kind from the document at `path`.
pub fn decode_monitor_maybe(doc: &JsonValue, path: &str) -> (r: Result<MonitorMaybe, SchemaError>)
    ensures
        match r {
            Ok(m) => monitor_maybe_of(doc@, path@) == Ok::<MonitorMaybeView, FaultAt>(m@),
            Err(e) => monitor_maybe_of(doc@, path@) == Err::<MonitorMaybeView, FaultAt>(e@),
        },
{
    match doc {
        JsonValue::Object(members) => match member(members, "monitor_type") {
            None => Err(
                SchemaError {
                    path: field_path_string(path, "monitor_type"),
                    fault: SchemaFault::MissingField,
                },
            ),
            Some(JsonValue::Text(kind)) => {
                if text_eq(kind.as_str(), "URL") {
                    match decode_monitor(members, path) {
                        Ok(m) => Ok(MonitorMaybe::Url(m)),
                        Err(e) => Err(e),
                    }
                } else if text_eq(kind.as_str(), "HOMEPAGE") {
                    match decode_monitor(members, path) {
                        Ok(m) => Ok(MonitorMaybe::Homepage(m)),
                        Err(e) => Err(e),
                    }
                } else if text_eq(kind.as_str(), "REALBROWSER") {
                    match decode_monitor(members, path) {
                        Ok(m) => Ok(MonitorMaybe::RealBrowser(m)),
                        Err(e) => Err(e),
                    }
                } else {
                    Ok(MonitorMaybe::Unknown)
                }
            },
            Some(_) => Err(
                SchemaError {
                    path: field_path_string(path, "monitor_type"),
                    fault: SchemaFault::NotText,
                },
            ),
        },
        _ => Err(fault_at(path, SchemaFault::NotAnObject)),
    }
}

/// The outcome of reading each item of a list of monitors at `base`.
pub open spec fn monitor_results(items: Seq<JsonView>, base: Seq<char>) -> Seq<
    Result<MonitorMaybeView, FaultAt>,
> {
    Seq::new(items.len(), |i: int| monitor_maybe_of(items[i], index_path(base, i as nat)))
}

/// The monitors under `monitors`: none where the list is left out.
pub open spec fn monitor_list_of(members: Seq<(Seq<char>, JsonView)>, path: Seq<char>) -> Result<
    Seq<MonitorMaybeView>,
    FaultAt,
> {
    match member_of(members, "monitors"@) {
        None => Ok(Seq::empty()),
        Some(JsonView::Array(items)) => collect(
            monitor_results(items, field_path(path, "monitors"@)),
        ),
        Some(_) => Err(fault_at_field(path, "monitors"@, SchemaFault::NotAnArray)),
    }
}

/// Reads the monitors of the object at `path`.
pub fn decode_monitor_list(members: &Vec<(String, JsonValue)>, path: &str) -> (r: Result<
    Vec<MonitorMaybe>,
    SchemaError,
>)
    ensures
        match r {
            Ok(m) => monitor_list_of(members_view(members@), path@) == Ok::<
                Seq<MonitorMaybeView>,
                FaultAt,
            >(monitors_view(m@)),
            Err(e) => monitor_list_of(members_view(members@), path@) == Err::<
                Seq<MonitorMaybeView>,
                FaultAt,
            >(e@),
        },
{
    match member(members, "monitors") {
        None => {
            let out: Vec<MonitorMaybe> = Vec::new();
            assert(monitors_view(out@) =~= Seq::empty());
            Ok(out)
        },
        Some(JsonValue::Array(items)) => {
            let base = field_path_string(path, "monitors");
            let ghost results = monitor_results(items_view(items@), base@);
            let mut out: Vec<MonitorMaybe> = Vec::new();
            let mut i: usize = 0;
            assert(results.subrange(0, 0) =~= Seq::empty());
            assert(monitors_view(out@) =~= Seq::empty());
            while i < items.len()
                invariant
                    i <= items@.len(),
                    results == monitor_results(items_view(items@), base@),
                    base@ == field_path(path@, "monitors"@),
                    member_of(members_view(members@), "monitors"@) == Some(
                        JsonView::Array(items_view(items@)),
                    ),
                    collect(results.subrange(0, i as int)) == Ok::<Seq<MonitorMaybeView>, FaultAt>(
                        monitors_view(out@),
                    ),
                decreases items@.len() - i,
            {
                let item_path = index_path_string(base.as_str(), i);
                proof {
                    lemma_collect_step(results, i as int);
                }
                match decode_monitor_maybe(&items[i], item_path.as_str()) {
                    Ok(m) => {
                        let ghost before = out@;
                        out.push(m);
                        assert(monitors_view(out@) =~= monitors_view(before).push(m@));
                    },
                    Err(e) => {
                        proof {
                            lemma_collect_fault(results, i as int + 1);
                        }
                        return Err(e);
                    },
                }
                i += 1;
            }
            assert(results.subrange(0, i as int) =~= results);
            Ok(out)
        },
        Some(_) => Err(
            SchemaError {
                path: field_path_string(path, "monitors"),
                fault: SchemaFault::NotAnArray,
            },
        ),
    }
}

/// The group that a document at `path` stands for. Identifier and name must
/// be there; the monitors may be left out.
pub open spec fn group_of(doc: JsonView, path: Seq<char>) -> Result<MonitorGroupView, FaultAt> {
    match doc {
        JsonView::Object(members) => {
            let monitors = monitor_list_of(members, path);
            let group_id = required_text(members, "group_id"@, path);
            let group_name = required_text(members, "group_name"@, path);
            if monitors is Err {
                Err(monitors->Err_0)
            } else if group_id is Err {
                Err(group_id->Err_0)
            } else if group_name is Err {
                Err(group_name->Err_0)
            } else {
                Ok(
                    MonitorGroupView {
                        monitors: monitors->Ok_0,
                        group_id: group_id->Ok_0,
                        group_name: group_name->Ok_0,
                    },
                )
            }
        },
        _ => Err(FaultAt { path, fault: SchemaFault::NotAnObject }),
    }
}

/// Reads a group from the document at `path`.
pub fn decode_group(doc: &JsonValue, path: &str) -> (r: Result<MonitorGroup, SchemaError>)
    ensures
        match r {
            Ok(g) => group_of(doc@, path@) == Ok::<MonitorGroupView, FaultAt>(g@),
            Err(e) => group_of(doc@, path@) == Err::<MonitorGroupView, FaultAt>(e@),
        },
{
    match doc {
        JsonValue::Object(members) => {
            let monitors = match decode_monitor_list(members, path) {
                Ok(v) => v,
                Err(e) => {
                    return Err(e);
                },
            };
            let group_id = match read_required_text(members, "group_id", path) {
                Ok(v) => v,
                Err(e) => {
                    return Err(e);
                },
            };
            let group_name = match read_required_text(members, "group_name", path) {
                Ok(v) => v,
                Err(e) => {
                    return Err(e);
                },
            };
            Ok(MonitorGroup { monitors, group_id, group_name })
        },
        _ => Err(fault_at(path, SchemaFault::NotAnObject)),
    }
}

/// The outcome of reading each item of a list of groups at `base`.
pub open spec fn group_results(items: Seq<JsonView>, base: Seq<char>) -> Seq<
    Result<MonitorGroupView, FaultAt>,
> {
    Seq::new(items.len(), |i: int| group_of(items[i], index_path(base, i as nat)))
}

/// The groups under `monitor_groups`: none where the list is left out.
pub open spec fn group_list_of(members: Seq<(Seq<char>, JsonView)>, path: Seq<char>) -> Result<
    Seq<MonitorGroupView>,
    FaultAt,
> {
    match member_of(members, "monitor_groups"@) {
        None => Ok(Seq::empty()),
        Some(JsonView::Array(items)) => collect(
            group_results(items, field_path(path, "monitor_groups"@)),
        ),
        Some(_) => Err(fault_at_field(path, "monitor_groups"@, SchemaFault::NotAnArray)),
    }
}

/// Reads the groups of the object at `path`.
pub fn decode_group_list(members: &Vec<(String, JsonValue)>, path: &str) -> (r: Result<
    Vec<MonitorGroup>,
    SchemaError,
>)
    ensures
        match r {
            Ok(g) => group_list_of(members_view(members@), path@) == Ok::<
                Seq<MonitorGroupView>,
                FaultAt,
            >(groups_view(g@)),
            Err(e) => group_list_of(members_view(members@), path@) == Err::<
                Seq<MonitorGroupView>,
                FaultAt,
            >(e@),
        },
{
    match member(members, "monitor_groups") {
        None => {
            let out: Vec<MonitorGroup> = Vec::new();
            assert(groups_view(out@) =~= Seq::empty());
            Ok(out)
        },
        Some(JsonValue::Array(items)) => {
            let base = field_path_string(path, "monitor_groups");
            let ghost results = group_results(items_view(items@), base@);
            let mut out: Vec<MonitorGroup> = Vec::new();
            let mut i: usize = 0;
            assert(results.subrange(0, 0) =~= Seq::empty());
            assert(groups_view(out@) =~= Seq::empty());
            while i < items.len()
                invariant
                    i <= items@.len(),
                    results == group_results(items_view(items@), base@),
                    base@ == field_path(path@, "monitor_groups"@),
                    member_of(members_view(members@), "monitor_groups"@) == Some(
                        JsonView::Array(items_view(items@)),
                    ),
                    collect(results.subrange(0, i as int)) == Ok::<Seq<MonitorGroupView>, FaultAt>(
                        groups_view(out@),
                    ),
                decreases items@.len() - i,
            {
                let item_path = index_path_string(base.as_str(), i);
                proof {
                    lemma_collect_step(results, i as int);
                }
                match decode_group(&items[i], item_path.as_str()) {
                    Ok(g) => {
                        let ghost before = out@;
                        out.push(g);
                        assert(groups_view(out@) =~= groups_view(before).push(g@));
                    },
                    Err(e) => {
                        proof {
                            lemma_collect_fault(results, i as int + 1);
                        }
                        return Err(e);
                    },
                }
                i += 1;
            }
            assert(results.subrange(0, i as int) =~= results);
            Ok(out)
        },
        Some(_) => Err(
            SchemaError {
                path: field_path_string(path, "monitor_groups"),
                fault: SchemaFault::NotAnArray,
            },
        ),
    }
}

/// The report that a document at `path` stands for: its monitors and its
/// groups, each list empty where it is left out.
pub open spec fn data_of(doc: JsonView, path: Seq<char>) -> Result<CurrentStatusView, FaultAt> {
    match doc {
        JsonView::Object(members) => {
            let monitors = monitor_list_of(members, path);
            let groups = group_list_of(members, path);
            if monitors is Err {
                Err(monitors->Err_0)
            } else if groups is Err {
                Err(groups->Err_0)
            } else {
                Ok(CurrentStatusView { monitors: monitors->Ok_0, monitor_groups: groups->Ok_0 })
            }
        },
        _ => Err(FaultAt { path, fault: SchemaFault::NotAnObject }),
    }
}

/// Reads a report from the document at `path`.
pub fn decode_data(doc: &JsonValue, path: &str) -> (r: Result<CurrentStatusData, SchemaError>)
    ensures
        match r {
            Ok(d) => data_of(doc@, path@) == Ok::<CurrentStatusView, FaultAt>(d@),
            Err(e) => data_of(doc@, path@) == Err::<CurrentStatusView, FaultAt>(e@),
        },
{
    match doc {
        JsonValue::Object(members) => {
            let monitors = match decode_monitor_list(members, path) {
                Ok(v) => v,
                Err(e) => {
                    return Err(e);
                },
            };
            let monitor_groups = match decode_group_list(members, path) {
                Ok(v) => v,
                Err(e) => {
                    return Err(e);
                },
            };
            Ok(CurrentStatusData { monitors, monitor_groups })
        },
        _ => Err(fault_at(path, SchemaFault::NotAnObject)),
    }
}

/// The report in the answer's envelope: the member `data` of the root,
/// which must be there.
pub open spec fn inner_of(root: JsonView) -> Result<CurrentStatusView, FaultAt> {
    match root {
        JsonView::Object(members) => match member_of(members, "data"@) {
            None => Err(fault_at_field(ROOT@, "data"@, SchemaFault::MissingField)),
            Some(data) => data_of(data, "data"@),
        },
        _ => Err(FaultAt { path: ROOT@, fault: SchemaFault::NotAnObject }),
    }
}

/// Reads the report in the answer's envelope.
pub fn decode_inner(root: &JsonValue) -> (r: Result<CurrentStatusResponseInner, SchemaError>)
    ensures
        match r {
            Ok(inner) => inner_of(root@) == Ok::<CurrentStatusView, FaultAt>(inner.data@),
            Err(e) => inner_of(root@) == Err::<CurrentStatusView, FaultAt>(e@),
        },
{
    match root {
        JsonValue::Object(members) => match member(members, "data") {
            None => Err(
                SchemaError {
                    path: field_path_string(ROOT, "data"),
                    fault: SchemaFault::MissingField,
                },
            ),
            Some(data) => match decode_data(data, "data") {
                Ok(data) => Ok(CurrentStatusResponseInner { data }),
                Err(e) => Err(e),
            },
        },
        _ => Err(fault_at(ROOT, SchemaFault::NotAnObject)),
    }
}

/// The refusal in the answer's envelope, where the root holds one: an error
/// code that is an unsigned integer below 2^16, and a message that is a text.
pub open spec fn api_error_of(root: JsonView) -> Option<ApiErrorView> {
    match root {
        JsonView::Object(members) => match (
            member_of(members, "error_code"@),
            member_of(members, "message"@),
        ) {
            (Some(JsonView::Number(Some(code))), Some(JsonView::Text(message))) => if code
                <= 0xffff {
                Some(ApiErrorView { error_code: code as u16, message })
            } else {
                None
            },
            _ => None,
        },
        _ => None,
    }
}

/// Reads the refusal in the answer's envelope, where there is one.
pub fn decode_api_error(root: &JsonValue) -> (r: Option<ApiError>)
    ensures
        match r {
            Some(e) => api_error_of(root@) == Some(e@),
            None => api_error_of(root@) is None,
        },
{
    match root {
        JsonValue::Object(members) => {
            let error_code = match member(members, "error_code") {
                Some(JsonValue::Number(Some(code))) => *code,
                _ => {
                    return None;
                },
            };
            let message = match member(members, "message") {
                Some(JsonValue::Text(message)) => message.clone(),
                _ => {
                    return None;
                },
            };
            if error_code <= 0xffff {
                Some(ApiError { error_code: error_code as u16, message })
            } else {
                None
            }
        },
        _ => None,
    }
}

/// The answer that a document stands for: a report where the document holds
/// one in the expected shape; else a refusal where it holds one; else the
/// fault that kept the report from being read.
pub open spec fn response_of(root: JsonView) -> Result<CurrentStatusResponseView, FaultAt> {
    match inner_of(root) {
        Ok(data) => Ok(CurrentStatusResponseView::Success(data)),
        Err(e) => match api_error_of(root) {
            Some(refusal) => Ok(CurrentStatusResponseView::Error(refusal)),
            None => Err(e),
        },
    }
}

/// Reads the answer from a document.
pub fn decode_response(root: &JsonValue) -> (r: Result<CurrentStatusResponse, SchemaError>)
    ensures
        match r {
            Ok(response) => response_of(root@) == Ok::<CurrentStatusResponseView, FaultAt>(
                response@,
            ),
            Err(e) => response_of(root@) == Err::<CurrentStatusResponseView, FaultAt>(e@),
        },
{
    match decode_inner(root) {
        Ok(inner) => Ok(CurrentStatusResponse::Success(inner)),
        Err(e) => match decode_api_error(root) {
            Some(refusal) => Ok(CurrentStatusResponse::Error(refusal)),
            None => Err(e),
        },
    }
}

/// What an answer means for the poll: the report, or the refusal by its
/// kind. A refusal with the message [`AUTH_EXPIRED_MESSAGE`] says that the
/// credential has expired; any other is an error of the service.
pub open spec fn status_of_response(response: CurrentStatusResponseView) -> Result<
    CurrentStatusView,
    CurrentStatusErrorView,
> {
    match response {
        CurrentStatusResponseView::Success(data) => Ok(data),
        CurrentStatusResponseView::Error(refusal) => if refusal.message == AUTH_EXPIRED_MESSAGE@ {
            Err(CurrentStatusErrorView::ApiAuthError(refusal.message))
        } else {
            Err(CurrentStatusErrorView::ApiUnknownError(refusal.message))
        },
    }
}

/// Decides what an answer means for the poll.
pub fn current_status_from_response(response: CurrentStatusResponse) -> (r: Result<
    CurrentStatusData,
    CurrentStatusError,
>)
    ensures
        match r {
            Ok(data) => status_of_response(response@) == Ok::<
                CurrentStatusView,
                CurrentStatusErrorView,
            >(data@),
            Err(e) => status_of_response(response@) == Err::<
                CurrentStatusView,
                CurrentStatusErrorView,
            >(e@),
        },
{
    match response {
        CurrentStatusResponse::Success(inner) => Ok(inner.data),
        CurrentStatusResponse::Error(refusal) => {
            if text_eq(refusal.message.as_str(), AUTH_EXPIRED_MESSAGE) {
                Err(CurrentStatusError::ApiAuthError(refusal.message))
            } else {
                Err(CurrentStatusError::ApiUnknownError(refusal.message))
            }
        },
    }
}

/// What the outcome of reading the answer as JSON means for the poll. A
/// text that is no JSON is a parse error with the reader's message and
/// path; a document that is neither a report nor a refusal is a parse error
/// with the path to the first fault and the fault in words.
pub open spec fn current_status_of(parsed: Result<JsonView, JsonErrorView>) -> Result<
    CurrentStatusView,
    CurrentStatusErrorView,
> {
    match parsed {
        Err(e) => Err(CurrentStatusErrorView::ParseError { path: e.path, message: e.message }),
        Ok(root) => match response_of(root) {
            Err(e) => Err(
                CurrentStatusErrorView::ParseError { path: e.path, message: e.fault.spec_message() },
            ),
            Ok(response) => status_of_response(response),
        },
    }
}

/// Decides what an answer means for the poll, from the outcome of reading
/// it as JSON.
pub fn current_status_from_json(parsed: Result<JsonValue, JsonError>) -> (r: Result<
    CurrentStatusData,
    CurrentStatusError,
>)
    ensures
        match r {
            Ok(data) => current_status_of(json_result_view(parsed)) == Ok::<
                CurrentStatusView,
                CurrentStatusErrorView,
            >(data@),
            Err(e) => current_status_of(json_result_view(parsed)) == Err::<
                CurrentStatusView,
                CurrentStatusErrorView,
            >(e@),
        },
{
    match parsed {
        Err(e) => Err(CurrentStatusError::ParseError { path: e.path, message: e.message }),
        Ok(root) => match decode_response(&root) {
            Err(e) => Err(
                CurrentStatusError::ParseError {
                    path: e.path,
                    message: String::from_str(e.fault.message()),
                },
            ),
            Ok(response) => current_status_from_response(response),
        },
    }
}

/// Reads the service's answer to a status request: the report, or why
/// there is none.
pub fn parse_current_status(json: &str) -> (r: Result<CurrentStatusData, CurrentStatusError>)
    ensures
        match r {
            Ok(data) => current_status_of(json_outcome(json@)) == Ok::<
                CurrentStatusView,
                CurrentStatusErrorView,
            >(data@),
            Err(e) => current_status_of(json_outcome(json@)) == Err::<
                CurrentStatusView,
                CurrentStatusErrorView,
            >(e@),
        },
{
    current_status_from_json(parse_json(json))
}

/// An answer whose `data` is an object without monitors and without groups
/// is the report that has none, whatever else the answer holds beside `data`
/// and whatever else `data` holds.
pub proof fn law_lists_left_out_are_empty(
    root: Seq<(Seq<char>, JsonView)>,
    data: Seq<(Seq<char>, JsonView)>,
)
    requires
        member_of(root, "data"@) == Some(JsonView::Object(data)),
        member_of(data, "monitors"@) is None,
        member_of(data, "monitor_groups"@) is None,
    ensures
        current_status_of(Ok(JsonView::Object(root))) == Ok::<
            CurrentStatusView,
            CurrentStatusErrorView,
        >(CurrentStatusView { monitors: Seq::empty(), monitor_groups: Seq::empty() }),
{
}

} // verus!

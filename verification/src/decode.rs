//! Reading the members of a JSON object against a schema.

use vstd::prelude::*;
use vstd::string::*;
use crate::json::{JsonValue, JsonView, ROOT, members_view};
use crate::site24x7_types::{DATE_FORMAT, Status, Timestamp, timestamp_parsed};
use crate::text::{decimal, decimal_string, join, text_eq};

verus! {

/// How a document falls short of the schema.
#[derive(Clone, Copy, Debug, PartialEq, Eq, Structural)]
pub enum SchemaFault {
    MissingField,
    NotAnObject,
    NotAnArray,
    NotText,
    NotUnsigned,
    BadTimestamp,
    NoLocations,
}

impl SchemaFault {
/// The fault in words.
    pub open spec fn spec_message(self) -> Seq<char> {
        match self {
            SchemaFault::MissingField => "missing field"@,
            SchemaFault::NotAnObject => "invalid type: expected an object"@,
            SchemaFault::NotAnArray => "invalid type: expected an array"@,
            SchemaFault::NotText => "invalid type: expected a string"@,
            SchemaFault::NotUnsigned => "invalid type: expected an unsigned integer"@,
            SchemaFault::BadTimestamp => "invalid timestamp: expected YYYY-MM-DDThh:mm:ss[.ffffff]+hhmm"@,
            SchemaFault::NoLocations => "invalid length: expected at least one location"@,
        }
    }

    /// The fault in words.
    pub fn message(self) -> (r: &'static str)
        ensures
            r@ == self.spec_message(),
    {
        match self {
            SchemaFault::MissingField => "missing field",
            SchemaFault::NotAnObject => "invalid type: expected an object",
            SchemaFault::NotAnArray => "invalid type: expected an array",
            SchemaFault::NotText => "invalid type: expected a string",
            SchemaFault::NotUnsigned => "invalid type: expected an unsigned integer",
            SchemaFault::BadTimestamp => "invalid timestamp: expected YYYY-MM-DDThh:mm:ss[.ffffff]+hhmm",
            SchemaFault::NoLocations => "invalid length: expected at least one location",
        }
    }
}

/// A fault, and the path from the document's root to where it was found.
#[derive(Clone, Debug, PartialEq)]
pub struct SchemaError {
    pub path: String,
    pub fault: SchemaFault,
}

/// The mathematical value of a [`SchemaError`].
pub struct FaultAt {
    pub path: Seq<char>,
    pub fault: SchemaFault,
}

impl View for SchemaError {
    type V = FaultAt;

    open spec fn view(&self) -> FaultAt {
        FaultAt { path: self.path@, fault: self.fault }
    }
}

/// The path of a member: its name where the root holds it, else the path of
/// the object that holds it, a dot, and its name.
pub open spec fn field_path(path: Seq<char>, name: Seq<char>) -> Seq<char> {
    if path == ROOT@ {
        name
    } else {
        path + "."@ + name
    }
}

/// The path of an item of an array: the array's path and the item's index
/// in square brackets.
pub open spec fn index_path(path: Seq<char>, index: nat) -> Seq<char> {
    path + "["@ + decimal(index) + "]"@
}

/// Writes the path of a member of the object at `path`.
pub fn field_path_string(path: &str, name: &str) -> (r: String)
    ensures
        r@ == field_path(path@, name@),
{
    if text_eq(path, ROOT) {
        String::from_str(name)
    } else {
        let mut out = join(path, ".");
        out.append(name);
        out
    }
}

/// Writes the path of an item of the array at `path`.
pub fn index_path_string(path: &str, index: usize) -> (r: String)
    ensures
        r@ == index_path(path@, index as nat),
{
    let mut out = join(path, "[");
    let digits = decimal_string(index);
    out.append(digits.as_str());
    out.append("]");
    out
}

/// The fault `fault` at the member `name` of the object at `path`.
pub open spec fn fault_at_field(path: Seq<char>, name: Seq<char>, fault: SchemaFault) -> FaultAt {
    FaultAt { path: field_path(path, name), fault }
}

fn field_error(path: &str, name: &str, fault: SchemaFault) -> (r: SchemaError)
    ensures
        r@ == fault_at_field(path@, name@, fault),
{
    SchemaError { path: field_path_string(path, name), fault }
}

/// The first member of the given name.
pub open spec fn member_of(members: Seq<(Seq<char>, JsonView)>, name: Seq<char>) -> Option<JsonView>
    decreases members.len(),
{
    if members.len() == 0 {
        None
    } else if members[0].0 == name {
        Some(members[0].1)
    } else {
        member_of(members.drop_first(), name)
    }
}

/// Looks a member up by its name.
pub fn member<'a>(members: &'a Vec<(String, JsonValue)>, name: &str) -> (r: Option<&'a JsonValue>)
    ensures
        match r {
            Some(v) => member_of(members_view(members@), name@) == Some(v@),
            None => member_of(members_view(members@), name@) is None,
        },
{
    let ghost all = members_view(members@);
    let mut i: usize = 0;
    assert(all.subrange(0, all.len() as int) =~= all);
    while i < members.len()
        invariant
            i <= members@.len(),
            all == members_view(members@),
            member_of(all, name@) == member_of(all.subrange(i as int, all.len() as int), name@),
        decreases members@.len() - i,
    {
        let ghost rest = all.subrange(i as int, all.len() as int);
        assert(rest[0] == all[i as int]);
        if text_eq(members[i].0.as_str(), name) {
            return Some(&members[i].1);
        }
        assert(rest.drop_first() =~= all.subrange(i as int + 1, all.len() as int));
        i += 1;
    }
    None
}

/// A member that must be there and be a text.
pub open spec fn required_text(
    members: Seq<(Seq<char>, JsonView)>,
    name: Seq<char>,
    path: Seq<char>,
) -> Result<Seq<char>, FaultAt> {
    match member_of(members, name) {
        None => Err(fault_at_field(path, name, SchemaFault::MissingField)),
        Some(JsonView::Text(s)) => Ok(s),
        Some(_) => Err(fault_at_field(path, name, SchemaFault::NotText)),
    }
}

/// Reads a member that must be there and be a text.
pub fn read_required_text(members: &Vec<(String, JsonValue)>, name: &str, path: &str) -> (r: Result<
    String,
    SchemaError,
>)
    ensures
        match r {
            Ok(s) => required_text(members_view(members@), name@, path@) == Ok::<
                Seq<char>,
                FaultAt,
            >(s@),
            Err(e) => required_text(members_view(members@), name@, path@) == Err::<
                Seq<char>,
                FaultAt,
            >(e@),
        },
{
    match member(members, name) {
        None => Err(field_error(path, name, SchemaFault::MissingField)),
        Some(JsonValue::Text(s)) => Ok(s.clone()),
        Some(_) => Err(field_error(path, name, SchemaFault::NotText)),
    }
}

/// A text that may be left out: anything but a text counts as left out.
pub open spec fn lenient_text(members: Seq<(Seq<char>, JsonView)>, name: Seq<char>) -> Option<
    Seq<char>,
> {
    match member_of(members, name) {
        Some(JsonView::Text(s)) => Some(s),
        _ => None,
    }
}

/// Reads a text that may be left out.
pub fn read_lenient_text(members: &Vec<(String, JsonValue)>, name: &str) -> (r: Option<String>)
    ensures
        match r {
            Some(s) => lenient_text(members_view(members@), name@) == Some(s@),
            None => lenient_text(members_view(members@), name@) is None,
        },
{
    match member(members, name) {
        Some(JsonValue::Text(s)) => Some(s.clone()),
        _ => None,
    }
}

/// A measurement that may be left out: anything but an unsigned integer
/// that fits in 64 bits counts as left out.
pub open spec fn lenient_u64(members: Seq<(Seq<char>, JsonView)>, name: Seq<char>) -> Option<u64> {
    match member_of(members, name) {
        Some(JsonView::Number(Some(v))) => Some(v),
        _ => None,
    }
}

/// Reads a measurement that may be left out.
pub fn read_lenient_u64(members: &Vec<(String, JsonValue)>, name: &str) -> (r: Option<u64>)
    ensures
        r == lenient_u64(members_view(members@), name@),
{
    match member(members, name) {
        Some(JsonValue::Number(Some(v))) => Some(*v),
        _ => None,
    }
}

/// A status: a configuration error where it is left out, else the status
/// that its code stands for. A member that is no unsigned integer is a fault.
pub open spec fn status_of(members: Seq<(Seq<char>, JsonView)>, name: Seq<char>, path: Seq<char>) -> Result<
    Status,
    FaultAt,
> {
    match member_of(members, name) {
        None => Ok(Status::ConfigurationError),
        Some(JsonView::Number(Some(code))) => Ok(Status::spec_from_code(code)),
        Some(_) => Err(fault_at_field(path, name, SchemaFault::NotUnsigned)),
    }
}

/// Reads a status.
pub fn read_status(members: &Vec<(String, JsonValue)>, name: &str, path: &str) -> (r: Result<
    Status,
    SchemaError,
>)
    ensures
        match r {
            Ok(s) => status_of(members_view(members@), name@, path@) == Ok::<Status, FaultAt>(s),
            Err(e) => status_of(members_view(members@), name@, path@) == Err::<Status, FaultAt>(
                e@,
            ),
        },
{
    match member(members, name) {
        None => Ok(Status::default()),
        Some(JsonValue::Number(Some(code))) => Ok(Status::from_code(*code)),
        Some(_) => Err(field_error(path, name, SchemaFault::NotUnsigned)),
    }
}

/// A timestamp: none where the member is left out or null. A text that is
/// not in the service's format is a fault, and so is anything but a text.
pub open spec fn timestamp_of(
    members: Seq<(Seq<char>, JsonView)>,
    name: Seq<char>,
    path: Seq<char>,
) -> Result<Option<Timestamp>, FaultAt> {
    match member_of(members, name) {
        None => Ok(None),
        Some(JsonView::Null) => Ok(None),
        Some(JsonView::Text(s)) => match timestamp_parsed(s, DATE_FORMAT@) {
            Some(t) => Ok(Some(t)),
            None => Err(fault_at_field(path, name, SchemaFault::BadTimestamp)),
        },
        Some(_) => Err(fault_at_field(path, name, SchemaFault::NotText)),
    }
}

/// Reads a timestamp.
pub fn read_timestamp(members: &Vec<(String, JsonValue)>, name: &str, path: &str) -> (r: Result<
    Option<Timestamp>,
    SchemaError,
>)
    ensures
        match r {
            Ok(t) => timestamp_of(members_view(members@), name@, path@) == Ok::<
                Option<Timestamp>,
                FaultAt,
            >(t),
            Err(e) => timestamp_of(members_view(members@), name@, path@) == Err::<
                Option<Timestamp>,
                FaultAt,
            >(e@),
        },
{
    match member(members, name) {
        None => Ok(None),
        Some(JsonValue::Null) => Ok(None),
        Some(JsonValue::Text(s)) => match Timestamp::parse(s.as_str()) {
            Some(t) => Ok(Some(t)),
            None => Err(field_error(path, name, SchemaFault::BadTimestamp)),
        },
        Some(_) => Err(field_error(path, name, SchemaFault::NotText)),
    }
}

/// The outcomes of reading the items of a list, gathered: the values in
/// order where every item could be read, else the first fault.
pub open spec fn collect<T>(results: Seq<Result<T, FaultAt>>) -> Result<Seq<T>, FaultAt>
    decreases results.len(),
{
    if results.len() == 0 {
        Ok(Seq::empty())
    } else {
        match collect(results.drop_last()) {
            Err(e) => Err(e),
            Ok(done) => match results.last() {
                Ok(v) => Ok(done.push(v)),
                Err(e) => Err(e),
            },
        }
    }
}

/// Where every item could be read, there are as many values as items.
pub proof fn lemma_collect_len<T>(results: Seq<Result<T, FaultAt>>)
    ensures
        collect(results) is Ok ==> collect(results)->Ok_0.len() == results.len(),
    decreases results.len(),
{
    if results.len() > 0 {
        lemma_collect_len(results.drop_last());
    }
}

/// Gathering one more outcome.
pub proof fn lemma_collect_step<T>(results: Seq<Result<T, FaultAt>>, i: int)
    requires
        0 <= i < results.len(),
    ensures
        collect(results.subrange(0, i + 1)) == match collect(results.subrange(0, i)) {
            Err(e) => Err::<Seq<T>, FaultAt>(e),
            Ok(done) => match results[i] {
                Ok(v) => Ok(done.push(v)),
                Err(e) => Err(e),
            },
        },
{
    assert(results.subrange(0, i + 1).drop_last() =~= results.subrange(0, i));
}

/// A fault among the first outcomes is the fault of the whole list.
pub proof fn lemma_collect_fault<T>(results: Seq<Result<T, FaultAt>>, i: int)
    requires
        0 <= i <= results.len(),
        collect(results.subrange(0, i)) is Err,
    ensures
        collect(results) == collect(results.subrange(0, i)),
    decreases results.len() - i,
{
    if i < results.len() {
        lemma_collect_step(results, i);
        lemma_collect_fault(results, i + 1);
    } else {
        assert(results.subrange(0, i) =~= results);
    }
}

} // verus!

//! The status payload of the monitoring service as data, with the
//! mathematical value of each type.

use vstd::prelude::*;
use vstd::string::*;
use crate::text::{head, lemma_head_and_tail, split_first, tail};

verus! {

/// The format of the service's timestamps, in `chrono`'s notation.
pub const DATE_FORMAT: &'static str = "%Y-%m-%dT%H:%M:%S%.f%z";

/// Where the service and its credential issuer are reached, and as whom.
#[derive(Clone, Debug)]
pub struct Site24x7ClientInfo {
    pub site24x7_endpoint: String,
    pub zoho_endpoint: String,
    pub client_id: String,
    pub client_secret: String,
}

/// The mathematical value of a [`Site24x7ClientInfo`].
pub struct Site24x7ClientInfoView {
    pub site24x7_endpoint: Seq<char>,
    pub zoho_endpoint: Seq<char>,
    pub client_id: Seq<char>,
    pub client_secret: Seq<char>,
}

impl View for Site24x7ClientInfo {
    type V = Site24x7ClientInfoView;

    open spec fn view(&self) -> Site24x7ClientInfoView {
        Site24x7ClientInfoView {
            site24x7_endpoint: self.site24x7_endpoint@,
            zoho_endpoint: self.zoho_endpoint@,
            client_id: self.client_id@,
            client_secret: self.client_secret@,
        }
    }
}

/// The domain of the credential issuer's region: what stands after the
/// first dot of the service's domain, or all of it where it has no dot.
pub open spec fn region_of(endpoint: Seq<char>) -> Seq<char> {
    match tail(endpoint, '.') {
        Some(region) => region,
        None => endpoint,
    }
}

impl Site24x7ClientInfo {
    /// The client for the service at the domain `endpoint`: the service is
    /// reached at `https://www.<endpoint>/api`, the credential issuer at
    /// `https://accounts.zoho.<region>`.
    pub fn for_endpoint(endpoint: &str, client_id: String, client_secret: String) -> (r:
        Site24x7ClientInfo)
        ensures
            r@ == (Site24x7ClientInfoView {
                site24x7_endpoint: "https://www."@ + endpoint@ + "/api"@,
                zoho_endpoint: "https://accounts.zoho."@ + region_of(endpoint@),
                client_id: client_id@,
                client_secret: client_secret@,
            }),
    {
        let mut site24x7_endpoint = String::from_str("https://www.");
        site24x7_endpoint.append(endpoint);
        site24x7_endpoint.append("/api");
        let mut zoho_endpoint = String::from_str("https://accounts.zoho.");
        let (_, rest) = split_first(endpoint, '.');
        match rest {
            Some(region) => zoho_endpoint.append(region.as_str()),
            None => zoho_endpoint.append(endpoint),
        }
        Site24x7ClientInfo { site24x7_endpoint, zoho_endpoint, client_id, client_secret }
    }
}

/// The health of a monitor or of one of its locations.
#[derive(Clone, Copy, Debug, PartialEq, Eq, Structural)]
pub enum Status {
    Down,
    Up,
    Trouble,
    Critical,
    Suspended,
    Maintenance,
    Discovery,
    ConfigurationError,
}

impl Status {
    /// The number under which the service reports this status.
    pub open spec fn spec_code(self) -> u8 {
        match self {
            Status::Down => 0,
            Status::Up => 1,
            Status::Trouble => 2,
            Status::Critical => 3,
            Status::Suspended => 5,
            Status::Maintenance => 7,
            Status::Discovery => 9,
            Status::ConfigurationError => 10,
        }
    }

    /// The status that the service means by `code`. A number that it has
    /// given no meaning stands for a configuration error.
    pub open spec fn spec_from_code(code: u64) -> Status {
        if code == 0 {
            Status::Down
        } else if code == 1 {
            Status::Up
        } else if code == 2 {
            Status::Trouble
        } else if code == 3 {
            Status::Critical
        } else if code == 5 {
            Status::Suspended
        } else if code == 7 {
            Status::Maintenance
        } else if code == 9 {
            Status::Discovery
        } else {
            Status::ConfigurationError
        }
    }

    /// The number under which the service reports this status.
    #[verifier::when_used_as_spec(spec_code)]
    pub fn code(self) -> (r: u8)
        ensures
            r == self.spec_code(),
    {
        match self {
            Status::Down => 0,
            Status::Up => 1,
            Status::Trouble => 2,
            Status::Critical => 3,
            Status::Suspended => 5,
            Status::Maintenance => 7,
            Status::Discovery => 9,
            Status::ConfigurationError => 10,
        }
    }

    /// The status that the service means by `code`.
    #[verifier::when_used_as_spec(spec_from_code)]
    pub fn from_code(code: u64) -> (r: Status)
        ensures
            r == Status::spec_from_code(code),
    {
        if code == 0 {
            Status::Down
        } else if code == 1 {
            Status::Up
        } else if code == 2 {
            Status::Trouble
        } else if code == 3 {
            Status::Critical
        } else if code == 5 {
            Status::Suspended
        } else if code == 7 {
            Status::Maintenance
        } else if code == 9 {
            Status::Discovery
        } else {
            Status::ConfigurationError
        }
    }

    /// Whether the status is `Up`.
    pub open spec fn spec_is_up(self) -> bool {
        self == Status::Up
    }

    /// Whether the status is `Up`.
    #[verifier::when_used_as_spec(spec_is_up)]
    pub fn is_up(self) -> (r: bool)
        ensures
            r == (self == Status::Up),
    {
        match self {
            Status::Up => true,
            _ => false,
        }
    }
}

/// A status that was not reported is taken for a configuration error: that
/// is what the service most often means by leaving it out.
impl Default for Status {
    fn default() -> (r: Status)
        ensures
            r == Status::ConfigurationError,
    {
        Status::ConfigurationError
    }
}

/// Reading a code back gives the status it was taken from.
pub proof fn law_status_code_round_trip(status: Status)
    ensures
        Status::spec_from_code(status.spec_code() as u64) == status,
{
}

/// An instant with the offset from UTC under which it was written.
#[derive(Clone, Copy, Debug, PartialEq, Eq, Structural)]
pub struct Timestamp {
    /// Seconds since 1970-01-01T00:00:00 UTC, leap seconds not counted.
    pub seconds: i64,
    /// Nanoseconds past `seconds`.
    pub nanos: u32,
    /// Seconds by which the local time written is ahead of UTC.
    pub offset_seconds: i32,
}

/// What `chrono::DateTime::parse_from_str` makes of a text under a format:
/// the instant and offset that it reads, or nothing where it refuses the text.
pub uninterp spec fn timestamp_parsed(text: Seq<char>, format: Seq<char>) -> Option<Timestamp>;

/// `chrono::DateTime::parse_from_str`, the `DateTime` it returns written out
/// as its Unix time, its nanoseconds and its offset. The contract names the
/// outcome [`timestamp_parsed`].
#[verifier::external_body]
fn timestamp_from_text(text: &str, format: &str) -> (r: Option<Timestamp>)
    ensures
        r == timestamp_parsed(text@, format@),
{
    match chrono::DateTime::parse_from_str(text, format) {
        Ok(d) => Some(
            Timestamp {
                seconds: d.timestamp(),
                nanos: d.timestamp_subsec_nanos(),
                offset_seconds: d.offset().local_minus_utc(),
            },
        ),
        Err(_) => None,
    }
}

impl Timestamp {
    /// Reads a timestamp in the service's format, [`DATE_FORMAT`].
    pub fn parse(text: &str) -> (r: Option<Timestamp>)
        ensures
            r == timestamp_parsed(text@, DATE_FORMAT@),
    {
        timestamp_from_text(text, DATE_FORMAT)
    }
}

/// One probe site's reading of a monitor.
#[derive(Clone, Debug, PartialEq)]
pub struct Location {
    pub status: Status,
    /// The latency in milliseconds, where the site measured one.
    pub attribute_value: Option<u64>,
    pub location_name: String,
    pub last_polled_time: Option<Timestamp>,
}

/// The mathematical value of a [`Location`].
pub struct LocationView {
    pub status: Status,
    pub attribute_value: Option<u64>,
    pub location_name: Seq<char>,
    pub last_polled_time: Option<Timestamp>,
}

impl View for Location {
    type V = LocationView;

    open spec fn view(&self) -> LocationView {
        LocationView {
            status: self.status,
            attribute_value: self.attribute_value,
            location_name: self.location_name@,
            last_polled_time: self.last_polled_time,
        }
    }
}

/// A label on a monitor: a key, and a value that may be empty.
#[derive(Clone, Debug, PartialEq)]
pub struct Tag {
    pub key: String,
    pub value: String,
}

/// The mathematical value of a [`Tag`].
pub struct TagView {
    pub key: Seq<char>,
    pub value: Seq<char>,
}

impl View for Tag {
    type V = TagView;

    open spec fn view(&self) -> TagView {
        TagView { key: self.key@, value: self.value@ }
    }
}

/// The tag that a text stands for: the key is what stands before the first
/// colon, the value what stands after it, empty where there is no colon.
pub open spec fn tag_of(text: Seq<char>) -> TagView {
    TagView {
        key: head(text, ':'),
        value: match tail(text, ':') {
            Some(v) => v,
            None => Seq::empty(),
        },
    }
}

/// A tag is split at the first colon only: its key holds no colon, and a
/// text with a colon is the key, a colon and the value, whatever colons the
/// value holds; a text without a colon is the key, and the value is empty.
pub proof fn law_tag_splits_at_first_colon(text: Seq<char>)
    ensures
        !tag_of(text).key.contains(':'),
        text.contains(':') ==> text == tag_of(text).key.push(':') + tag_of(text).value,
        !text.contains(':') ==> tag_of(text).key == text && tag_of(text).value.len() == 0,
{
    lemma_head_and_tail(text, ':');
    if tail(text, ':') is Some {
        let key = head(text, ':');
        assert(text[key.len() as int] == ':');
    }
}

impl Tag {
    /// Reads a tag written as `key:value` or as `key`.
    pub fn parse(text: &str) -> (r: Tag)
        ensures
            r@ == tag_of(text@),
    {
        let (key, rest) = split_first(text, ':');
        match rest {
            Some(value) => Tag { key, value },
            None => Tag { key, value: String::new() },
        }
    }
}

/// One configured check, with the readings of its locations.
#[derive(Clone, Debug, PartialEq)]
pub struct Monitor {
    pub name: String,
    pub unit: Option<String>,
    pub attribute_key: Option<String>,
    pub status: Status,
    pub locations: Vec<Location>,
    pub attribute_name: String,
    pub attribute_value: Option<u64>,
    pub monitor_id: String,
    pub tags: Vec<Tag>,
    pub last_polled_time: Option<Timestamp>,
}

/// The mathematical value of a [`Monitor`].
pub struct MonitorView {
    pub name: Seq<char>,
    pub unit: Option<Seq<char>>,
    pub attribute_key: Option<Seq<char>>,
    pub status: Status,
    pub locations: Seq<LocationView>,
    pub attribute_name: Seq<char>,
    pub attribute_value: Option<u64>,
    pub monitor_id: Seq<char>,
    pub tags: Seq<TagView>,
    pub last_polled_time: Option<Timestamp>,
}

/// The values of a list of locations.
pub open spec fn locations_view(locations: Seq<Location>) -> Seq<LocationView> {
    locations.map_values(|l: Location| l@)
}

/// The values of a list of tags.
pub open spec fn tags_view(tags: Seq<Tag>) -> Seq<TagView> {
    tags.map_values(|t: Tag| t@)
}

/// The value of a text that may be left out.
pub open spec fn text_option_view(text: Option<String>) -> Option<Seq<char>> {
    match text {
        Some(s) => Some(s@),
        None => None,
    }
}

impl View for Monitor {
    type V = MonitorView;

    open spec fn view(&self) -> MonitorView {
        MonitorView {
            name: self.name@,
            unit: text_option_view(self.unit),
            attribute_key: text_option_view(self.attribute_key),
            status: self.status,
            locations: locations_view(self.locations@),
            attribute_name: self.attribute_name@,
            attribute_value: self.attribute_value,
            monitor_id: self.monitor_id@,
            tags: tags_view(self.tags@),
            last_polled_time: self.last_polled_time,
        }
    }
}

/// A monitor by kind. A kind that this library does not know carries nothing.
#[derive(Clone, Debug, PartialEq)]
pub enum MonitorMaybe {
    Url(Monitor),
    Homepage(Monitor),
    RealBrowser(Monitor),
    Unknown,
}

/// The mathematical value of a [`MonitorMaybe`].
pub enum MonitorMaybeView {
    Url(MonitorView),
    Homepage(MonitorView),
    RealBrowser(MonitorView),
    Unknown,
}

impl MonitorMaybeView {
    /// The monitor, for a kind that carries one.
    pub open spec fn monitor(self) -> Option<MonitorView> {
        match self {
            MonitorMaybeView::Url(m) => Some(m),
            MonitorMaybeView::Homepage(m) => Some(m),
            MonitorMaybeView::RealBrowser(m) => Some(m),
            MonitorMaybeView::Unknown => None,
        }
    }

    /// The kind as the service spells it.
    pub open spec fn monitor_type(self) -> Seq<char> {
        match self {
            MonitorMaybeView::Url(_) => "URL"@,
            MonitorMaybeView::Homepage(_) => "HOMEPAGE"@,
            MonitorMaybeView::RealBrowser(_) => "REALBROWSER"@,
            MonitorMaybeView::Unknown => "Unknown"@,
        }
    }
}

impl View for MonitorMaybe {
    type V = MonitorMaybeView;

    open spec fn view(&self) -> MonitorMaybeView {
        match *self {
            MonitorMaybe::Url(m) => MonitorMaybeView::Url(m@),
            MonitorMaybe::Homepage(m) => MonitorMaybeView::Homepage(m@),
            MonitorMaybe::RealBrowser(m) => MonitorMaybeView::RealBrowser(m@),
            MonitorMaybe::Unknown => MonitorMaybeView::Unknown,
        }
    }
}

impl MonitorMaybe {
    /// The monitor, for a kind that carries one.
    pub fn monitor(&self) -> (r: Option<&Monitor>)
        ensures
            match r {
                Some(m) => self@.monitor() == Some(m@),
                None => self@.monitor() is None,
            },
    {
        match self {
            MonitorMaybe::Url(m) => Some(m),
            MonitorMaybe::Homepage(m) => Some(m),
            MonitorMaybe::RealBrowser(m) => Some(m),
            MonitorMaybe::Unknown => None,
        }
    }

    /// The kind as the service spells it, which is the value of the
    /// `monitor_type` label.
    pub fn monitor_type(&self) -> (r: &'static str)
        ensures
            r@ == self@.monitor_type(),
    {
        match self {
            MonitorMaybe::Url(_) => "URL",
            MonitorMaybe::Homepage(_) => "HOMEPAGE",
            MonitorMaybe::RealBrowser(_) => "REALBROWSER",
            MonitorMaybe::Unknown => "Unknown",
        }
    }

    /// The kind as a `String`.
    pub fn to_string(&self) -> (r: String)
        ensures
            r@ == self@.monitor_type(),
    {
        String::from_str(self.monitor_type())
    }
}

/// The values of a list of monitors.
pub open spec fn monitors_view(monitors: Seq<MonitorMaybe>) -> Seq<MonitorMaybeView> {
    monitors.map_values(|m: MonitorMaybe| m@)
}

/// A named set of monitors.
#[derive(Clone, Debug, PartialEq)]
pub struct MonitorGroup {
    pub monitors: Vec<MonitorMaybe>,
    pub group_id: String,
    pub group_name: String,
}

/// The mathematical value of a [`MonitorGroup`].
pub struct MonitorGroupView {
    pub monitors: Seq<MonitorMaybeView>,
    pub group_id: Seq<char>,
    pub group_name: Seq<char>,
}

impl View for MonitorGroup {
    type V = MonitorGroupView;

    open spec fn view(&self) -> MonitorGroupView {
        MonitorGroupView {
            monitors: monitors_view(self.monitors@),
            group_id: self.group_id@,
            group_name: self.group_name@,
        }
    }
}

/// The values of a list of groups.
pub open spec fn groups_view(groups: Seq<MonitorGroup>) -> Seq<MonitorGroupView> {
    groups.map_values(|g: MonitorGroup| g@)
}

/// What one poll reported: the monitors outside any group, and the groups.
#[derive(Clone, Debug, PartialEq)]
pub struct CurrentStatusData {
    pub monitors: Vec<MonitorMaybe>,
    pub monitor_groups: Vec<MonitorGroup>,
}

/// The mathematical value of a [`CurrentStatusData`].
pub struct CurrentStatusView {
    pub monitors: Seq<MonitorMaybeView>,
    pub monitor_groups: Seq<MonitorGroupView>,
}

impl View for CurrentStatusData {
    type V = CurrentStatusView;

    open spec fn view(&self) -> CurrentStatusView {
        CurrentStatusView {
            monitors: monitors_view(self.monitors@),
            monitor_groups: groups_view(self.monitor_groups@),
        }
    }
}

/// The service's answer where it refuses a request.
#[derive(Clone, Debug)]
pub struct ApiError {
    pub error_code: u16,
    pub message: String,
}

/// The mathematical value of an [`ApiError`].
pub struct ApiErrorView {
    pub error_code: u16,
    pub message: Seq<char>,
}

impl View for ApiError {
    type V = ApiErrorView;

    open spec fn view(&self) -> ApiErrorView {
        ApiErrorView { error_code: self.error_code, message: self.message@ }
    }
}

/// The service's answer where it reports.
#[derive(Clone, Debug)]
pub struct CurrentStatusResponseInner {
    pub data: CurrentStatusData,
}

/// The service's answer to a status request: a report or a refusal.
#[derive(Clone, Debug)]
pub enum CurrentStatusResponse {
    Success(CurrentStatusResponseInner),
    Error(ApiError),
}

/// The mathematical value of a [`CurrentStatusResponse`].
pub enum CurrentStatusResponseView {
    Success(CurrentStatusView),
    Error(ApiErrorView),
}

impl View for CurrentStatusResponse {
    type V = CurrentStatusResponseView;

    open spec fn view(&self) -> CurrentStatusResponseView {
        match *self {
            CurrentStatusResponse::Success(inner) => CurrentStatusResponseView::Success(inner.data@),
            CurrentStatusResponse::Error(e) => CurrentStatusResponseView::Error(e@),
        }
    }
}

/// The message with which the service refuses a credential that is invalid
/// or has expired.
pub const AUTH_EXPIRED_MESSAGE: &'static str = "OAuth Access Token is invalid or has expired.";

/// Why a poll brought no report.
#[derive(Clone, Debug, PartialEq)]
pub enum CurrentStatusError {
    /// The service refused the credential as invalid or expired.
    ApiAuthError(String),
    /// The service refused the request for another reason.
    ApiUnknownError(String),
    /// The answer was no JSON, or not of the expected shape. `path` leads
    /// from the answer's root to the first place that is not as expected.
    ParseError { path: String, message: String },
    /// The request did not get through, or no new credential could be had.
    Other(String),
}

/// The mathematical value of a [`CurrentStatusError`].
pub enum CurrentStatusErrorView {
    ApiAuthError(Seq<char>),
    ApiUnknownError(Seq<char>),
    ParseError { path: Seq<char>, message: Seq<char> },
    Other(Seq<char>),
}

impl CurrentStatusErrorView {
    /// The error in words.
    pub open spec fn message(self) -> Seq<char> {
        match self {
            CurrentStatusErrorView::ApiAuthError(m) => "API auth error: "@ + m,
            CurrentStatusErrorView::ApiUnknownError(m) => "Unknown API error: "@ + m,
            CurrentStatusErrorView::ParseError { path, message } => "Parse error: "@ + path
                + ": "@ + message,
            CurrentStatusErrorView::Other(m) => m,
        }
    }
}

impl View for CurrentStatusError {
    type V = CurrentStatusErrorView;

    open spec fn view(&self) -> CurrentStatusErrorView {
        match *self {
            CurrentStatusError::ApiAuthError(m) => CurrentStatusErrorView::ApiAuthError(m@),
            CurrentStatusError::ApiUnknownError(m) => CurrentStatusErrorView::ApiUnknownError(m@),
            CurrentStatusError::ParseError { path, message } => CurrentStatusErrorView::ParseError {
                path: path@,
                message: message@,
            },
            CurrentStatusError::Other(m) => CurrentStatusErrorView::Other(m@),
        }
    }
}

impl CurrentStatusError {
    /// The error in words.
    pub fn to_string(&self) -> (r: String)
        ensures
            r@ == self@.message(),
    {
        match self {
            CurrentStatusError::ApiAuthError(m) => {
                let mut out = String::from_str("API auth error: ");
                out.append(m.as_str());
                out
            },
            CurrentStatusError::ApiUnknownError(m) => {
                let mut out = String::from_str("Unknown API error: ");
                out.append(m.as_str());
                out
            },
            CurrentStatusError::ParseError { path, message } => {
                let mut out = String::from_str("Parse error: ");
                out.append(path.as_str());
                out.append(": ");
                out.append(message.as_str());
                out
            },
            CurrentStatusError::Other(m) => m.clone(),
        }
    }
}

} // verus!

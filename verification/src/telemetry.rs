//! Telemetry settings: the event names sent, whether sending is on, and
//! where events go.

use vstd::prelude::*;
use crate::text::{chars_of, opt_str_view, opt_view, push_all, same_chars, to_lowercase, lowercase, all_ascii, ascii_lowercase};

verus! {

/// The kinds of event reported.
#[derive(Debug, Clone, Copy)]
pub enum EventType {
    Check,
    Release,
    VersionBump,
    Init,
    Error,
}

/// The name under which an event kind is sent (snake case).
pub open spec fn wire_name_of(e: EventType) -> Seq<char> {
    match e {
        EventType::Check => "check"@,
        EventType::Release => "release"@,
        EventType::VersionBump => "version_bump"@,
        EventType::Init => "init"@,
        EventType::Error => "error"@,
    }
}

impl EventType {
    /// The name under which this event kind is sent (snake case).
    pub fn wire_name(&self) -> (res: &'static str)
        ensures
            res@ == wire_name_of(*self),
    {
        match self {
            EventType::Check => "check",
            EventType::Release => "release",
            EventType::VersionBump => "version_bump",
            EventType::Init => "init",
            EventType::Error => "error",
        }
    }
}

/// Telemetry is on unless `FERRFLOW_TELEMETRY` reads, in any case,
/// `false`, `0`, `off` or `no`.
pub open spec fn telemetry_on(setting: Option<Seq<char>>) -> bool {
    match setting {
        Some(v) => {
            let l = lowercase(v);
            !(l == "false"@ || l == "0"@ || l == "off"@ || l == "no"@)
        },
        None => true,
    }
}

/// Telemetry is on when `FERRFLOW_TELEMETRY` is unset; for an ASCII value
/// it is off exactly when the value, in any letter case, is `false`, `0`,
/// `off` or `no`.
pub proof fn telemetry_switch(value: Seq<char>)
    ensures
        telemetry_on(None),
        all_ascii(value) ==> (telemetry_on(Some(value)) <==> !(ascii_lowercase(value) == "false"@
            || ascii_lowercase(value) == "0"@ || ascii_lowercase(value) == "off"@
            || ascii_lowercase(value) == "no"@)),
{
}

/// Whether telemetry is on, given the value of `FERRFLOW_TELEMETRY`
/// (`None` when unset).
pub fn check_enabled(val: Option<&str>) -> (res: bool)
    ensures
        res == telemetry_on(opt_str_view(val)),
{
    match val {
        Some(v) => {
            let lower = to_lowercase(v);
            let l = chars_of(lower.as_str());
            let c = l.as_slice();
            !(same_chars(c, "false") || same_chars(c, "0") || same_chars(c, "off") || same_chars(
                c,
                "no",
            ))
        },
        None => true,
    }
}

/// The telemetry API base URL: `FERRFLOW_API_URL` when set, the hosted API
/// otherwise.
pub fn api_url(setting: Option<String>) -> (res: String)
    ensures
        res@ == match opt_view(setting) {
            Some(u) => u,
            None => "https://api.ferrflow.com"@,
        },
{
    match setting {
        Some(u) => u,
        None => "https://api.ferrflow.com".to_owned(),
    }
}

/// Where an event is posted, or `None` when telemetry is off: the API base
/// URL followed by `/events`.
pub fn event_endpoint(telemetry_setting: Option<&str>, api_url_setting: Option<String>) -> (res:
    Option<String>)
    ensures
        !telemetry_on(opt_str_view(telemetry_setting)) ==> res is None,
        telemetry_on(opt_str_view(telemetry_setting)) ==> (res matches Some(u) && u@ == match opt_view(
            api_url_setting,
        ) {
            Some(b) => b,
            None => "https://api.ferrflow.com"@,
        } + "/events"@),
{
    if !check_enabled(telemetry_setting) {
        return None;
    }
    let mut url = api_url(api_url_setting);
    push_all(&mut url, "/events");
    Some(url)
}


#[verifier::external_type_specification]
#[verifier::external_body]
pub struct ExJsonValue(serde_json::Value);

/// What an event reports.
pub struct EventPayload {
    pub event_type: EventType,
    pub package_name: Option<String>,
    pub package_version: Option<String>,
    pub metadata: Option<serde_json::Value>,
}

fn owned(s: Option<&str>) -> (res: Option<String>)
    ensures
        opt_view(res) == opt_str_view(s),
{
    match s {
        Some(v) => Some(v.to_owned()),
        None => None,
    }
}

/// The payload of an event about a package.
pub fn event_payload(
    event_type: EventType,
    package_name: Option<&str>,
    package_version: Option<&str>,
    metadata: Option<serde_json::Value>,
) -> (res: EventPayload)
    ensures
        res.event_type == event_type,
        opt_view(res.package_name) == opt_str_view(package_name),
        opt_view(res.package_version) == opt_str_view(package_version),
        res.metadata == metadata,
{
    EventPayload {
        event_type,
        package_name: owned(package_name),
        package_version: owned(package_version),
        metadata,
    }
}

/// The value of one member of the payload object.
pub enum PayloadValue {
    /// The event kind, sent under its wire name.
    Event(EventType),
    Text(String),
    Metadata(serde_json::Value),
}

/// One member of the payload object, by its key's view.
pub open spec fn member_view(m: (&'static str, PayloadValue)) -> (Seq<char>, PayloadValue) {
    (m.0@, m.1)
}

/// The members of the payload object, in order: the event type always,
/// then the package name, the package version and the metadata when
/// present; absent ones are left out.
pub open spec fn payload_members(p: EventPayload) -> Seq<(Seq<char>, PayloadValue)> {
    seq![("event_type"@, PayloadValue::Event(p.event_type))] + match p.package_name {
        Some(n) => seq![("package_name"@, PayloadValue::Text(n))],
        None => Seq::<(Seq<char>, PayloadValue)>::empty(),
    } + match p.package_version {
        Some(v) => seq![("package_version"@, PayloadValue::Text(v))],
        None => Seq::<(Seq<char>, PayloadValue)>::empty(),
    } + match p.metadata {
        Some(m) => seq![("metadata"@, PayloadValue::Metadata(m))],
        None => Seq::<(Seq<char>, PayloadValue)>::empty(),
    }
}

impl EventPayload {
    /// The members of the payload object (see [`payload_members`]).
    pub fn into_members(self) -> (res: Vec<(&'static str, PayloadValue)>)
        ensures
            res@.map_values(|m: (&'static str, PayloadValue)| member_view(m)) == payload_members(
                self,
            ),
    {
        let ghost p = self;
        let mut out: Vec<(&'static str, PayloadValue)> = Vec::new();
        out.push(("event_type", PayloadValue::Event(self.event_type)));
        let ghost step1 = out@.map_values(|m: (&'static str, PayloadValue)| member_view(m));
        assert(step1 =~= seq![("event_type"@, PayloadValue::Event(p.event_type))]);
        match self.package_name {
            Some(n) => {
                out.push(("package_name", PayloadValue::Text(n)));
            },
            None => {},
        }
        let ghost step2 = out@.map_values(|m: (&'static str, PayloadValue)| member_view(m));
        assert(step2 =~= step1 + match p.package_name {
            Some(n) => seq![("package_name"@, PayloadValue::Text(n))],
            None => Seq::<(Seq<char>, PayloadValue)>::empty(),
        });
        match self.package_version {
            Some(v) => {
                out.push(("package_version", PayloadValue::Text(v)));
            },
            None => {},
        }
        let ghost step3 = out@.map_values(|m: (&'static str, PayloadValue)| member_view(m));
        assert(step3 =~= step2 + match p.package_version {
            Some(v) => seq![("package_version"@, PayloadValue::Text(v))],
            None => Seq::<(Seq<char>, PayloadValue)>::empty(),
        });
        match self.metadata {
            Some(m) => {
                out.push(("metadata", PayloadValue::Metadata(m)));
            },
            None => {},
        }
        assert(out@.map_values(|m: (&'static str, PayloadValue)| member_view(m)) =~= step3
            + match p.metadata {
            Some(m) => seq![("metadata"@, PayloadValue::Metadata(m))],
            None => Seq::<(Seq<char>, PayloadValue)>::empty(),
        });
        out
    }
}

} // verus!

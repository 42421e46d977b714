//! The enumeration capability's data: host services as the system reports
//! them, read out of the JSON that the system query returns, and the rules
//! applied to the resulting list.

use vstd::prelude::*;

use crate::textmatch::str_eq;

verus! {

/// Most services a target list may carry in one request.
pub const MAX_SERVICES_PAYLOAD: usize = 10_000;

/// The abstract value of one reported service.
pub struct ServiceInfoView {
    pub name: Seq<char>,
    pub description: Seq<char>,
    pub status: Seq<char>,
    pub start_mode: Seq<char>,
    pub end_mode: Option<Seq<char>>,
    pub log_on_as: Seq<char>,
    pub path: Seq<char>,
}

/// One host service as the enumeration capability reports it.
pub struct ServiceInfo {
    /// Service name identifier.
    pub name: String,
    /// Human-readable display name.
    pub description: String,
    /// Observed state.
    pub status: String,
    /// Declared start mode, normalized.
    pub start_mode: String,
    /// Desired end state, once an operator declares one.
    pub end_mode: Option<String>,
    /// Account under which the service runs.
    pub log_on_as: String,
    /// Path to the service executable.
    pub path: String,
}

impl View for ServiceInfo {
    type V = ServiceInfoView;

    open spec fn view(&self) -> ServiceInfoView {
        ServiceInfoView {
            name: self.name@,
            description: self.description@,
            status: self.status@,
            start_mode: self.start_mode@,
            end_mode: crate::model::opt_str_view(self.end_mode),
            log_on_as: self.log_on_as@,
            path: self.path@,
        }
    }
}

/// The abstract values of a run of reported services, in order.
pub open spec fn info_views_of(v: Seq<ServiceInfo>) -> Seq<ServiceInfoView> {
    v.map_values(|s: ServiceInfo| s@)
}

impl Clone for ServiceInfo {
    /// A copy holding the same abstract value.
    fn clone(&self) -> (r: Self)
        ensures
            r@ == self@,
    {
        ServiceInfo {
            name: self.name.clone(),
            description: self.description.clone(),
            status: self.status.clone(),
            start_mode: self.start_mode.clone(),
            end_mode: crate::model::clone_opt_string(&self.end_mode),
            log_on_as: self.log_on_as.clone(),
            path: self.path.clone(),
        }
    }
}

/// A raw start mode as the services console displays it: `Auto` becomes
/// `Automatic`, with its delayed variant spelled out; `Manual` and
/// `Disabled` stand; an unknown mode is preserved as it came.
pub open spec fn normalized_mode(raw: Seq<char>, delayed: bool) -> Seq<char> {
    if raw == "Auto"@ {
        if delayed {
            "Automatic (Delayed Start)"@
        } else {
            "Automatic"@
        }
    } else if raw == "Manual"@ {
        "Manual"@
    } else if raw == "Disabled"@ {
        "Disabled"@
    } else {
        raw
    }
}

/// Normalizes a raw start mode to the services console's display form.
pub fn normalize_start_mode(raw_mode: &str, delayed: bool) -> (r: String)
    ensures
        r@ == normalized_mode(raw_mode@, delayed),
{
    if str_eq(raw_mode, "Auto") {
        if delayed {
            String::from_str("Automatic (Delayed Start)")
        } else {
            String::from_str("Automatic")
        }
    } else if str_eq(raw_mode, "Manual") {
        String::from_str("Manual")
    } else if str_eq(raw_mode, "Disabled") {
        String::from_str("Disabled")
    } else {
        String::from_str(raw_mode)
    }
}

/// Builds one reported service from its raw fields: every field carried
/// over, the start mode normalized, and no end state declared yet.
pub fn service_info_from_fields(
    name: String,
    description: String,
    status: String,
    raw_start_mode: String,
    delayed_auto_start: bool,
    log_on_as: String,
    path: String,
) -> (r: ServiceInfo)
    ensures
        r@.name == name@,
        r@.description == description@,
        r@.status == status@,
        r@.start_mode == normalized_mode(raw_start_mode@, delayed_auto_start),
        r@.end_mode is None,
        r@.log_on_as == log_on_as@,
        r@.path == path@,
{
    let start_mode = normalize_start_mode(raw_start_mode.as_str(), delayed_auto_start);
    ServiceInfo { name, description, status, start_mode, end_mode: None, log_on_as, path }
}

#[verifier::external_type_specification]
#[verifier::external_body]
pub struct ExJsonValue(serde_json::Value);

/// Relies on `serde_json::from_slice` to read a JSON document; whether it
/// reads one depends on the bytes, and the error's detail is dropped.
#[verifier::external_body]
pub(crate) fn json_parse(bytes: &[u8]) -> Option<serde_json::Value> {
    serde_json::from_slice(bytes).ok()
}

/// Relies on `serde_json::Value::get` to look a key up in a JSON object.
#[verifier::external_body]
pub(crate) fn json_get<'a>(v: &'a serde_json::Value, key: &str) -> Option<&'a serde_json::Value> {
    v.get(key)
}

/// Relies on `serde_json::Value::as_str`: the value's text where it is a
/// JSON string, nothing otherwise.
#[verifier::external_body]
pub(crate) fn json_as_str(v: &serde_json::Value) -> Option<String> {
    match v.as_str() {
        Some(s) => Some(s.to_string()),
        None => None,
    }
}

/// Relies on `serde_json::Value::as_bool`: the value where it is a JSON
/// boolean, nothing otherwise.
#[verifier::external_body]
pub(crate) fn json_as_bool(v: &serde_json::Value) -> Option<bool> {
    v.as_bool()
}

/// Relies on `serde_json::Value::as_array`: the elements where the value is
/// a JSON array, nothing otherwise.
#[verifier::external_body]
pub(crate) fn json_as_array(v: &serde_json::Value) -> Option<&Vec<serde_json::Value>> {
    v.as_array()
}

/// Relies on `serde_json::Value::is_object`.
#[verifier::external_body]
pub(crate) fn json_is_object(v: &serde_json::Value) -> bool {
    v.is_object()
}

/// The named string field of a JSON object, or empty when it is absent or
/// not a string.
fn json_string_field(item: &serde_json::Value, key: &str) -> String {
    match json_get(item, key) {
        Some(v) => match json_as_str(v) {
            Some(s) => s,
            None => String::new(),
        },
        None => String::new(),
    }
}

/// The named boolean field of a JSON object, or `false` when it is absent
/// or not a boolean.
fn json_bool_field(item: &serde_json::Value, key: &str) -> bool {
    match json_get(item, key) {
        Some(v) => match json_as_bool(v) {
            Some(b) => b,
            None => false,
        },
        None => false,
    }
}

/// Reads one reported service out of the JSON the system query returned:
/// absent fields degrade to empty text, the start mode is normalized, and
/// no end state is declared. What each field holds depends on the JSON
/// value, which nothing in the library inspects further.
pub fn parse_service_json(item: &serde_json::Value) -> (r: ServiceInfo)
    ensures
        r@.end_mode is None,
{
    let name = json_string_field(item, "Name");
    let description = json_string_field(item, "DisplayName");
    let status = json_string_field(item, "State");
    let raw_start_mode = json_string_field(item, "StartMode");
    let delayed = json_bool_field(item, "DelayedAutoStart");
    let log_on_as = json_string_field(item, "StartName");
    let path = json_string_field(item, "PathName");
    service_info_from_fields(name, description, status, raw_start_mode, delayed, log_on_as, path)
}

/// Reads one reported service per element of a JSON array, in order.
pub fn services_from_values(items: &Vec<serde_json::Value>) -> (r: Vec<ServiceInfo>)
    ensures
        r@.len() == items@.len(),
        forall|i: int| 0 <= i < r@.len() ==> (#[trigger] r@[i])@.end_mode is None,
{
    let n = items.len();
    let mut out: Vec<ServiceInfo> = Vec::new();
    let mut i: usize = 0;
    while i < n
        invariant
            i <= n,
            n == items@.len(),
            out@.len() == i,
            forall|j: int| 0 <= j < i ==> (#[trigger] out@[j])@.end_mode is None,
        decreases n - i,
    {
        let info = parse_service_json(&items[i]);
        out.push(info);
        i += 1;
    }
    out
}

/// Reads the system query's JSON document: an array yields one service per
/// element, a lone object yields one service, anything else an empty list.
pub fn services_from_json(json: &serde_json::Value) -> (r: Vec<ServiceInfo>)
    ensures
        forall|i: int| 0 <= i < r@.len() ==> (#[trigger] r@[i])@.end_mode is None,
{
    match json_as_array(json) {
        Some(items) => services_from_values(items),
        None => {
            if json_is_object(json) {
                let mut out: Vec<ServiceInfo> = Vec::new();
                out.push(parse_service_json(json));
                out
            } else {
                Vec::new()
            }
        },
    }
}

/// Reads the system query's raw bytes: nothing where they are not a JSON
/// document, otherwise the services the document yields.
pub fn services_from_json_bytes(bytes: &[u8]) -> (r: Option<Vec<ServiceInfo>>)
    ensures
        r matches Some(v) ==> forall|i: int|
            0 <= i < v@.len() ==> (#[trigger] v@[i])@.end_mode is None,
{
    match json_parse(bytes) {
        Some(json) => Some(services_from_json(&json)),
        None => None,
    }
}

/// A target survives pruning when an end state is declared for it and that
/// end state differs from its start mode.
pub open spec fn keeps_pruned(s: ServiceInfoView) -> bool {
    s.end_mode matches Some(e) && e != s.start_mode
}

/// The targets that survive pruning, in order.
pub open spec fn pruned_of(vs: Seq<ServiceInfoView>) -> Seq<ServiceInfoView>
    decreases vs.len(),
{
    if vs.len() == 0 {
        Seq::empty()
    } else if keeps_pruned(vs.last()) {
        pruned_of(vs.drop_last()).push(vs.last())
    } else {
        pruned_of(vs.drop_last())
    }
}

/// Keeps exactly the targets whose declared end state differs from their
/// start mode, in their original order.
pub fn prune_targets(services: &Vec<ServiceInfo>) -> (r: Vec<ServiceInfo>)
    ensures
        info_views_of(r@) == pruned_of(info_views_of(services@)),
{
    let n = services.len();
    let mut out: Vec<ServiceInfo> = Vec::new();
    let mut i: usize = 0;
    while i < n
        invariant
            i <= n,
            n == services@.len(),
            info_views_of(out@) == pruned_of(info_views_of(services@.subrange(0, i as int))),
        decreases n - i,
    {
        let s = &services[i];
        let keep = match &s.end_mode {
            Some(e) => !str_eq(e.as_str(), s.start_mode.as_str()),
            None => false,
        };
        let ghost prev_out = out@;
        if keep {
            out.push(s.clone());
        }
        proof {
            let prefix = info_views_of(services@.subrange(0, i as int));
            let prefix_next = info_views_of(services@.subrange(0, (i + 1) as int));
            assert(services@.subrange(0, (i + 1) as int).drop_last() =~= services@.subrange(
                0,
                i as int,
            ));
            assert(prefix_next.drop_last() =~= prefix);
            assert(prefix_next.last() == services@[i as int]@);
            assert(keep == keeps_pruned(prefix_next.last()));
            assert(prefix_next.len() == i + 1);
            assert(pruned_of(prefix_next) == (if keeps_pruned(prefix_next.last()) {
                pruned_of(prefix_next.drop_last()).push(prefix_next.last())
            } else {
                pruned_of(prefix_next.drop_last())
            }));
            if keep {
                assert(info_views_of(out@) =~= info_views_of(prev_out).push(
                    services@[i as int]@,
                ));
            }
            assert(info_views_of(out@) =~= pruned_of(prefix_next));
        }
        i += 1;
    }
    proof {
        assert(services@.subrange(0, n as int) =~= services@);
    }
    out
}

/// Whether a posted target list is within the accepted payload size.
pub fn targets_payload_within_limit(services: &Vec<ServiceInfo>) -> (r: bool)
    ensures
        r == (services@.len() <= MAX_SERVICES_PAYLOAD),
{
    services.len() <= MAX_SERVICES_PAYLOAD
}

} // verus!

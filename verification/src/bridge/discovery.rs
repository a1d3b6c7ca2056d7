//! Discovery of bridges: the cloud lookup service, local service
//! advertisement, a scan of the local subnets, and a user-supplied address.
//!
//! The functions here build the requests of each method, interpret what
//! came back, and rank the outcomes. Sending the requests is the caller's
//! part.

use crate::bridge::client::{Exchange, HttpMethod, Request, RequestBody};
use crate::bridge::{text_of, BridgeInfo};
use crate::error::{fails_with, ErrorView, HueStatusError, Result};
use crate::json::{json_document, JsonValue};
use crate::text::{
    byte_prefix, concat2, concat3, decimal, join, joined, lemma_byte_prefix_of_short_text, prefix_of,
    u64_to_string, views,
};
use vstd::prelude::*;
use vstd::string::*;
use vstd::utf8::*;

verus! {

/// The discovery engine: the time limit of each of its requests.
#[derive(Debug, Clone, PartialEq, Eq)]
pub struct BridgeDiscovery {
    /// The time limit of each request, in seconds.
    pub timeout_seconds: u64,
    pub verbose: bool,
}

/// The method by which bridges were found.
#[derive(Debug, Clone, Copy, PartialEq, Eq)]
pub enum DiscoveryMethod {
    /// The cloud lookup service.
    PhilipsService,
    /// Local service advertisement.
    Mdns,
    /// An address that the user supplied.
    Manual,
    /// A scan of the local subnets.
    NetworkScan,
}

/// The bridges that one run of one discovery method found.
#[derive(Debug, Clone, PartialEq, Eq)]
pub struct DiscoveryResult {
    pub bridges: Vec<DiscoveredBridge>,
    pub method: DiscoveryMethod,
}

/// What a run of all discovery methods does next.
#[derive(Debug, PartialEq, Eq)]
pub enum DiscoveryStep {
    /// Run this method and report its outcome.
    Run(DiscoveryMethod),
    /// Stop: discovery is finished with this result.
    Done(Result<DiscoveryResult>),
}

/// A bridge that a discovery method found.
#[derive(Debug, PartialEq, Eq)]
pub struct DiscoveredBridge {
    /// The address of the bridge.
    pub ip: String,
    /// The bridge's identifier.
    pub id: Option<String>,
    /// The bridge's display name.
    pub name: Option<String>,
    /// The bridge's model.
    pub model: Option<String>,
    /// The version of the bridge's API.
    pub version: Option<String>,
    pub port: Option<u16>,
}

impl Clone for DiscoveredBridge {
    fn clone(&self) -> (copy: Self)
        ensures
            copy == *self,
    {
        DiscoveredBridge {
            ip: self.ip.clone(),
            id: self.id.clone(),
            name: self.name.clone(),
            model: self.model.clone(),
            version: self.version.clone(),
            port: self.port,
        }
    }
}

/// The mathematical value of a [`DiscoveredBridge`], with texts as character sequences.
pub ghost struct DiscoveredBridgeView {
    pub ip: Seq<char>,
    pub id: Option<Seq<char>>,
    pub name: Option<Seq<char>>,
    pub model: Option<Seq<char>>,
    pub version: Option<Seq<char>>,
    pub port: Option<u16>,
}

impl View for DiscoveredBridge {
    type V = DiscoveredBridgeView;

    open spec fn view(&self) -> DiscoveredBridgeView {
        DiscoveredBridgeView {
            ip: self.ip@,
            id: text_of(self.id),
            name: text_of(self.name),
            model: text_of(self.model),
            version: text_of(self.version),
            port: self.port,
        }
    }
}

/// A bridge as the cloud discovery service lists it.
#[derive(Debug, PartialEq, Eq)]
pub struct PhilipsDiscoveryResponse {
    pub id: String,
    pub internalipaddress: String,
    pub port: Option<u16>,
}

impl Clone for PhilipsDiscoveryResponse {
    fn clone(&self) -> (copy: Self)
        ensures
            copy == *self,
    {
        PhilipsDiscoveryResponse {
            id: self.id.clone(),
            internalipaddress: self.internalipaddress.clone(),
            port: self.port,
        }
    }
}

impl DiscoveryMethod {
    /// The rank of the method when outcomes are compared: the cloud
    /// service (4) before a manual address (3), before local advertisement
    /// (2), before a subnet scan (1).
    pub open spec fn priority(self) -> int {
        match self {
            DiscoveryMethod::PhilipsService => 4,
            DiscoveryMethod::Manual => 3,
            DiscoveryMethod::Mdns => 2,
            DiscoveryMethod::NetworkScan => 1,
        }
    }

    /// How a summary names the method.
    pub open spec fn label(self) -> Seq<char> {
        match self {
            DiscoveryMethod::PhilipsService => "Philips service"@,
            DiscoveryMethod::Mdns => "mDNS"@,
            DiscoveryMethod::Manual => "manual entry"@,
            DiscoveryMethod::NetworkScan => "network scan"@,
        }
    }

    /// The rank of the method when outcomes are compared.
    pub fn rank(self) -> (rank: u8)
        ensures
            rank == self.priority(),
    {
        match self {
            DiscoveryMethod::PhilipsService => 4,
            DiscoveryMethod::Manual => 3,
            DiscoveryMethod::Mdns => 2,
            DiscoveryMethod::NetworkScan => 1,
        }
    }

    /// How a summary names the method.
    pub fn description(self) -> (name: &'static str)
        ensures
            name@ == self.label(),
    {
        match self {
            DiscoveryMethod::PhilipsService => "Philips service",
            DiscoveryMethod::Mdns => "mDNS",
            DiscoveryMethod::Manual => "manual entry",
            DiscoveryMethod::NetworkScan => "network scan",
        }
    }
}

/// The short form of an identifier: its first eight bytes, or fewer where
/// the identifier is shorter or would be cut inside a character.
pub open spec fn short_id(id: Seq<char>) -> Seq<char> {
    byte_prefix(id, 8)
}

/// An identifier of at most eight bytes is its own short form.
pub proof fn lemma_short_id_of_short_identifier(id: Seq<char>)
    requires
        encode_utf8(id).len() <= 8,
    ensures
        short_id(id) == id,
{
    lemma_byte_prefix_of_short_text(id, 8);
}

impl DiscoveredBridgeView {
    /// The name under which the bridge is shown: its name with its address,
    /// or the start of its identifier with its address, or its address
    /// alone.
    pub open spec fn display_text(self) -> Seq<char> {
        match self.name {
            Some(name) => name + " ("@ + self.ip + ")"@,
            None => match self.id {
                Some(id) => "Bridge "@ + short_id(id) + " ("@ + self.ip + ")"@,
                None => "Bridge at "@ + self.ip,
            },
        }
    }

    /// The parts of the bridge's summary: the address, and each of the
    /// identifier, name, model and API version that is known.
    pub open spec fn summary_parts(self) -> Seq<Seq<char>> {
        let parts = seq!["IP: "@ + self.ip];
        let parts = match self.id {
            Some(id) => parts.push("ID: "@ + id),
            None => parts,
        };
        let parts = match self.name {
            Some(name) => parts.push("Name: "@ + name),
            None => parts,
        };
        let parts = match self.model {
            Some(model) => parts.push("Model: "@ + model),
            None => parts,
        };
        match self.version {
            Some(version) => parts.push("API: "@ + version),
            None => parts,
        }
    }
}

impl DiscoveredBridge {
    /// Renders the name under which the bridge is shown.
    pub fn display_name(&self) -> (text: String)
        ensures
            text@ == self@.display_text(),
    {
        match &self.name {
            Some(name) => {
                let mut text = concat3(name.as_str(), " (", self.ip.as_str());
                text.append(")");
                text
            },
            None => match &self.id {
                Some(id) => {
                    let prefix = prefix_of(id.as_str(), 8);
                    let mut text = concat3("Bridge ", prefix, " (");
                    text.append(self.ip.as_str());
                    text.append(")");
                    text
                },
                None => concat2("Bridge at ", self.ip.as_str()),
            },
        }
    }

    /// Renders the summary of the bridge: its parts, separated by commas.
    pub fn summary(&self) -> (text: String)
        ensures
            text@ == joined(self@.summary_parts(), ", "@),
    {
        let mut parts: Vec<String> = Vec::new();
        parts.push(concat2("IP: ", self.ip.as_str()));
        assert(views(parts@) =~= seq!["IP: "@ + self.ip@]);
        let ghost mut expected = views(parts@);
        if let Some(id) = &self.id {
            parts.push(concat2("ID: ", id.as_str()));
            proof {
                expected = expected.push("ID: "@ + id@);
            }
        }
        assert(views(parts@) =~= expected);
        if let Some(name) = &self.name {
            parts.push(concat2("Name: ", name.as_str()));
            proof {
                expected = expected.push("Name: "@ + name@);
            }
        }
        assert(views(parts@) =~= expected);
        if let Some(model) = &self.model {
            parts.push(concat2("Model: ", model.as_str()));
            proof {
                expected = expected.push("Model: "@ + model@);
            }
        }
        assert(views(parts@) =~= expected);
        if let Some(version) = &self.version {
            parts.push(concat2("API: ", version.as_str()));
            proof {
                expected = expected.push("API: "@ + version@);
            }
        }
        assert(views(parts@) =~= expected);
        join(&parts, ", ")
    }

    /// Whether the identifier and the name of the bridge are known.
    pub fn is_complete(&self) -> (yes: bool)
        ensures
            yes == (self.id is Some && self.name is Some),
    {
        self.id.is_some() && self.name.is_some()
    }

    /// Converts the bridge to the discovery record. The address, the name,
    /// the model, the version and the port are carried over as they are,
    /// and so is the identifier; a bridge without an identifier gets an
    /// empty one.
    pub fn to_bridge_info(&self) -> (info: BridgeInfo)
        ensures
            info.internalipaddress == self.ip,
            match self.id {
                Some(id) => info.id == id,
                None => info.id@.len() == 0,
            },
            info.name == self.name,
            info.modelid == self.model,
            info.swversion == self.version,
            info.port == self.port,
    {
        BridgeInfo {
            id: match &self.id {
                Some(id) => id.clone(),
                None => String::new(),
            },
            internalipaddress: self.ip.clone(),
            port: self.port,
            name: self.name.clone(),
            modelid: self.model.clone(),
            swversion: self.version.clone(),
        }
    }
}

impl DiscoveryResult {
    /// The one-line summary of the outcome.
    pub open spec fn summary_text(&self) -> Seq<char> {
        "Found "@ + decimal(self.bridges@.len()) + " bridge(s) via "@ + self.method.label()
    }

    /// The first bridge of the outcome.
    pub fn first_bridge(&self) -> (first: Option<&DiscoveredBridge>)
        ensures
            match first {
                Some(bridge) => self.bridges@.len() > 0 && *bridge == self.bridges@[0],
                None => self.bridges@.len() == 0,
            },
    {
        if self.bridges.len() > 0 {
            Some(&self.bridges[0])
        } else {
            None
        }
    }

    /// Whether the outcome holds a bridge.
    pub fn has_bridges(&self) -> (yes: bool)
        ensures
            yes == (self.bridges@.len() > 0),
    {
        self.bridges.len() > 0
    }

    /// The number of bridges in the outcome.
    pub fn bridge_count(&self) -> (n: usize)
        ensures
            n == self.bridges@.len(),
    {
        self.bridges.len()
    }

    /// Renders the one-line summary of the outcome.
    pub fn summary(&self) -> (text: String)
        ensures
            text@ == self.summary_text(),
    {
        let count = u64_to_string(self.bridges.len() as u64);
        let mut text = concat3("Found ", count.as_str(), " bridge(s) via ");
        text.append(self.method.description());
        text
    }
}

/// The URL at which a bridge at `ip` identifies itself.
pub open spec fn identity_url(ip: Seq<char>) -> Seq<char> {
    "http://"@ + ip + "/api/0/config"@
}

/// The bridge at `ip` as its configuration `config` describes it. An
/// identifier that is already known takes precedence over the one in the
/// configuration.
pub open spec fn described(ip: Seq<char>, known_id: Option<Seq<char>>, config: JsonValue) -> DiscoveredBridgeView {
    DiscoveredBridgeView {
        ip,
        id: match known_id {
            Some(id) => Some(id),
            None => config.text_member("bridgeid"@),
        },
        name: config.text_member("name"@),
        model: config.text_member("modelid"@),
        version: config.text_member("apiversion"@),
        port: Some(80u16),
    }
}

/// What the query for a bridge's identity at `ip` yields, given what the
/// transport brought back.
pub open spec fn enrichment(ip: Seq<char>, known_id: Option<Seq<char>>, exchange: Exchange) -> core::result::Result<
    DiscoveredBridgeView,
    ErrorView,
> {
    match exchange {
        Exchange::TimedOut => Err(ErrorView::TimeoutError { operation: "Bridge info query for "@ + ip }),
        Exchange::Failed { description } => Err(ErrorView::NetworkError { source: description@ }),
        Exchange::Answered { status, status_text, body } => if !(200 <= status <= 299) {
            Err(ErrorView::BridgeConnectionFailed { reason: "HTTP "@ + status_text@ })
        } else {
            match json_document(body@) {
                Err(failure) => Err(ErrorView::NetworkError { source: failure.message@ }),
                Ok(config) => Ok(described(ip, known_id, config)),
            }
        },
    }
}

/// What a probe of the address `ip` finds: a bridge, where the answer has a
/// success status and its body is a JSON document with a member `bridgeid`.
pub open spec fn probed(ip: Seq<char>, exchange: Exchange) -> Option<DiscoveredBridgeView> {
    match exchange {
        Exchange::Answered { status, status_text, body } => if 200 <= status <= 299 {
            match json_document(body@) {
                Ok(config) => if config.member("bridgeid"@) is Some {
                    Some(described(ip, None, config))
                } else {
                    None
                },
                Err(_) => None,
            }
        } else {
            None
        },
        _ => None,
    }
}

/// What the validation of a bridge at `ip` yields, given what the transport
/// brought back.
pub open spec fn validation(ip: Seq<char>, exchange: Exchange) -> Option<ErrorView> {
    match exchange {
        Exchange::TimedOut => Some(ErrorView::TimeoutError { operation: "Bridge validation for "@ + ip }),
        Exchange::Failed { description } => Some(ErrorView::BridgeConnectionFailed { reason: description@ }),
        Exchange::Answered { status, status_text, body } => if !(200 <= status <= 299) {
            Some(ErrorView::BridgeConnectionFailed { reason: "HTTP "@ + status_text@ })
        } else {
            match json_document(body@) {
                Err(failure) => Some(
                    ErrorView::BridgeConnectionFailed { reason: "Invalid response: "@ + failure.message@ },
                ),
                Ok(config) => if config.member("bridgeid"@) is Some {
                    None
                } else {
                    Some(ErrorView::BridgeConnectionFailed { reason: "Not a Hue bridge"@ })
                },
            }
        },
    }
}

/// The record that an element of the cloud service's list holds: its
/// identifier, its address, and its port if it has one. An element holds a
/// record when it has strings `id` and `internalipaddress`, and its `port`
/// is absent, null, or a number from 0 to 65535.
pub open spec fn record_of(item: JsonValue) -> Option<(Seq<char>, Seq<char>, Option<u16>)> {
    match (item.text_member("id"@), item.text_member("internalipaddress"@)) {
        (Some(id), Some(ip)) => match item.member("port"@) {
            None => Some((id, ip, None)),
            Some(JsonValue::Null) => Some((id, ip, None)),
            Some(port) => match port.unsigned() {
                Some(n) => if n <= 65535 {
                    Some((id, ip, Some(n as u16)))
                } else {
                    None
                },
                None => None,
            },
        },
        _ => None,
    }
}

/// Whether every element of `items` holds a record.
pub open spec fn is_record_list(items: Seq<JsonValue>) -> bool {
    forall|i: int| 0 <= i < items.len() ==> record_of(#[trigger] items[i]) is Some
}

/// Whether `record` is the record that `item` holds.
pub open spec fn lists(item: JsonValue, record: PhilipsDiscoveryResponse) -> bool {
    record_of(item) == Some((record.id@, record.internalipaddress@, record.port))
}

/// Whether `records` are the records that the list `document` holds.
pub open spec fn lists_all(document: JsonValue, records: Seq<PhilipsDiscoveryResponse>) -> bool {
    &&& document.elements() is Some
    &&& records.len() == document.elements()->0.len()
    &&& forall|i: int| 0 <= i < records.len() ==> lists(document.elements()->0[i], #[trigger] records[i])
}

/// Whether `result` is what the cloud service's list `document` yields:
/// its records, or the error that tells that it is not a list of records.
pub open spec fn is_listing(document: JsonValue, result: Result<Vec<PhilipsDiscoveryResponse>>) -> bool {
    if document.elements() is Some && is_record_list(document.elements()->0) {
        result matches Ok(records) && lists_all(document, records@)
    } else {
        fails_with(
            result,
            ErrorView::DiscoveryServiceUnreachable {
                reason: "Invalid JSON response: not a list of bridge records"@,
            },
        )
    }
}

/// Whether `result` is what the cloud service's answer yields.
pub open spec fn is_service_outcome(exchange: Exchange, result: Result<Vec<PhilipsDiscoveryResponse>>) -> bool {
    match exchange {
        Exchange::TimedOut => fails_with(
            result,
            ErrorView::TimeoutError { operation: "Philips discovery service"@ },
        ),
        Exchange::Failed { description } => fails_with(
            result,
            ErrorView::DiscoveryServiceUnreachable { reason: description@ },
        ),
        Exchange::Answered { status, status_text, body } => if !(200 <= status <= 299) {
            fails_with(result, ErrorView::DiscoveryServiceUnreachable { reason: "HTTP "@ + status_text@ })
        } else {
            match json_document(body@) {
                Err(failure) => fails_with(
                    result,
                    ErrorView::DiscoveryServiceUnreachable {
                        reason: "Invalid JSON response: "@ + failure.message@,
                    },
                ),
                Ok(document) => is_listing(document, result),
            }
        },
    }
}

/// The bridge that a record of the cloud service describes by itself.
pub open spec fn listed(record: PhilipsDiscoveryResponse) -> DiscoveredBridgeView {
    DiscoveredBridgeView {
        ip: record.internalipaddress@,
        id: Some(record.id@),
        name: None,
        model: None,
        version: None,
        port: record.port,
    }
}

/// The bridge that is known by its address alone.
pub open spec fn bare(ip: Seq<char>) -> DiscoveredBridgeView {
    DiscoveredBridgeView { ip, id: None, name: None, model: None, version: None, port: None }
}

/// The candidate number `i`: what its enrichment found, or, where the
/// enrichment failed or is missing, the basic description.
pub open spec fn candidate(basic: DiscoveredBridgeView, enrichments: Seq<Result<DiscoveredBridge>>, i: int) -> DiscoveredBridgeView {
    if 0 <= i < enrichments.len() {
        match enrichments[i] {
            Ok(bridge) => bridge@,
            Err(_) => basic,
        }
    } else {
        basic
    }
}

/// The bridges among the first `n` probes, in order.
pub open spec fn found(probes: Seq<Option<DiscoveredBridge>>, n: int) -> Seq<DiscoveredBridge>
    decreases n,
{
    if n <= 0 {
        Seq::empty()
    } else {
        match probes[n - 1] {
            Some(bridge) => found(probes, n - 1).push(bridge),
            None => found(probes, n - 1),
        }
    }
}

/// The bridges of the first `n` ranges, one range after the other.
pub open spec fn flattened(ranges: Seq<Vec<DiscoveredBridge>>, n: int) -> Seq<DiscoveredBridge>
    decreases n,
{
    if n <= 0 {
        Seq::empty()
    } else {
        flattened(ranges, n - 1) + ranges[n - 1]@
    }
}

/// Whether the outcome number `i` holds a bridge.
pub open spec fn holds_bridge(results: Seq<DiscoveryResult>, i: int) -> bool {
    0 <= i < results.len() && results[i].bridges@.len() > 0
}

/// Whether the outcome number `i` is the best: it holds a bridge, no
/// outcome that holds one has a higher priority, and among those of the
/// same priority it is the last.
pub open spec fn is_best(results: Seq<DiscoveryResult>, i: int) -> bool {
    &&& holds_bridge(results, i)
    &&& forall|j: int| #[trigger]
        holds_bridge(results, j) ==> results[j].method.priority() < results[i].method.priority() || (
        results[j].method.priority() == results[i].method.priority() && j <= i)
}

/// Where the cloud service found a bridge, the best outcome is one of the
/// cloud service.
pub proof fn lemma_cloud_service_wins(results: Seq<DiscoveryResult>, cloud: int, best: int)
    requires
        holds_bridge(results, cloud),
        results[cloud].method == DiscoveryMethod::PhilipsService,
        is_best(results, best),
    ensures
        results[best].method == DiscoveryMethod::PhilipsService,
{
    assert(holds_bridge(results, cloud));
}

/// There is at most one best outcome.
pub proof fn lemma_best_is_unique(results: Seq<DiscoveryResult>, a: int, b: int)
    requires
        is_best(results, a),
        is_best(results, b),
    ensures
        a == b,
{
    assert(holds_bridge(results, a));
    assert(holds_bridge(results, b));
}

/// The outcome of a run of all methods, given the outcome of each: the
/// first of the cloud service, local advertisement and the subnet scan
/// that found a bridge; a method that failed or found nothing is passed
/// over.
pub open spec fn first_found(
    cloud: Result<DiscoveryResult>,
    local: Result<DiscoveryResult>,
    scan: Result<DiscoveryResult>,
) -> Option<DiscoveryResult> {
    if found_any(cloud) {
        Some(cloud->Ok_0)
    } else if found_any(local) {
        Some(local->Ok_0)
    } else if found_any(scan) {
        Some(scan->Ok_0)
    } else {
        None
    }
}

/// Whether a method succeeded and found a bridge.
pub open spec fn found_any(outcome: Result<DiscoveryResult>) -> bool {
    outcome matches Ok(result) && result.bridges@.len() > 0
}

/// What follows the run of `ran` with `outcome` in a run of all methods.
pub open spec fn next_step(ran: DiscoveryMethod, outcome: Result<DiscoveryResult>) -> DiscoveryStep {
    if found_any(outcome) {
        DiscoveryStep::Done(Ok(outcome->Ok_0))
    } else {
        match ran {
            DiscoveryMethod::PhilipsService => DiscoveryStep::Run(DiscoveryMethod::Mdns),
            DiscoveryMethod::Mdns => DiscoveryStep::Run(DiscoveryMethod::NetworkScan),
            _ => DiscoveryStep::Done(Err(HueStatusError::BridgeNotFound)),
        }
    }
}

fn basic_from_record(record: &PhilipsDiscoveryResponse) -> (bridge: DiscoveredBridge)
    ensures
        bridge@ == listed(*record),
{
    DiscoveredBridge {
        ip: record.internalipaddress.clone(),
        id: Some(record.id.clone()),
        name: None,
        model: None,
        version: None,
        port: record.port,
    }
}

fn basic_from_address(ip: &String) -> (bridge: DiscoveredBridge)
    ensures
        bridge@ == bare(ip@),
{
    DiscoveredBridge { ip: ip.clone(), id: None, name: None, model: None, version: None, port: None }
}

fn enriched_or(basic: DiscoveredBridge, enrichments: &Vec<Result<DiscoveredBridge>>, i: usize) -> (bridge:
    DiscoveredBridge)
    ensures
        bridge@ == candidate(basic@, enrichments@, i as int),
{
    if i < enrichments.len() {
        match &enrichments[i] {
            Ok(bridge) => bridge.clone(),
            Err(_) => basic,
        }
    } else {
        basic
    }
}

/// Reads the record that an element of the cloud service's list holds.
pub fn decode_record(item: &JsonValue) -> (decoded: Option<PhilipsDiscoveryResponse>)
    ensures
        match decoded {
            Some(record) => lists(*item, record),
            None => record_of(*item) is None,
        },
{
    let id = match item.string_member("id") {
        Some(id) => id,
        None => { return None; },
    };
    let internalipaddress = match item.string_member("internalipaddress") {
        Some(ip) => ip,
        None => { return None; },
    };
    match item.get("port") {
        None => Some(PhilipsDiscoveryResponse { id, internalipaddress, port: None }),
        Some(JsonValue::Null) => Some(PhilipsDiscoveryResponse { id, internalipaddress, port: None }),
        Some(port) => match port.as_u64() {
            Some(n) => {
                if n <= 65535 {
                    Some(PhilipsDiscoveryResponse { id, internalipaddress, port: Some(n as u16) })
                } else {
                    None
                }
            },
            None => None,
        },
    }
}

/// Reads the cloud service's list: the records that the elements of
/// `document` hold, or the error that tells that it is not such a list.
pub fn decode_records(document: &JsonValue) -> (result: Result<Vec<PhilipsDiscoveryResponse>>)
    ensures
        is_listing(*document, result),
{
    let items = match document.as_array() {
        Some(items) => items,
        None => {
            return Err(
                HueStatusError::DiscoveryServiceUnreachable {
                    reason: String::from_str("Invalid JSON response: not a list of bridge records"),
                },
            );
        },
    };
    let mut records: Vec<PhilipsDiscoveryResponse> = Vec::new();
    let mut i: usize = 0;
    while i < items.len()
        invariant
            i <= items.len(),
            records@.len() == i,
            document.elements() == Some(items@),
            forall|j: int| 0 <= j < i ==> lists(items@[j], #[trigger] records@[j]),
        decreases items.len() - i,
    {
        match decode_record(&items[i]) {
            Some(record) => {
                records.push(record);
            },
            None => {
                assert(record_of(items@[i as int]) is None);
                return Err(
                    HueStatusError::DiscoveryServiceUnreachable {
                        reason: String::from_str("Invalid JSON response: not a list of bridge records"),
                    },
                );
            },
        }
        i += 1;
    }
    proof {
        assert forall|j: int| 0 <= j < items@.len() implies record_of(#[trigger] items@[j]) is Some by {
            assert(lists(items@[j], records@[j]));
        }
    }
    Ok(records)
}

impl Default for BridgeDiscovery {
    fn default() -> (discovery: Self)
        ensures
            discovery == (BridgeDiscovery { timeout_seconds: 10, verbose: false }),
    {
        BridgeDiscovery { timeout_seconds: 10, verbose: false }
    }
}

impl BridgeDiscovery {
    /// A discovery engine with a time limit of 10 seconds.
    pub fn new() -> (discovery: Result<Self>)
        ensures
            discovery == Ok::<Self, HueStatusError>(BridgeDiscovery { timeout_seconds: 10, verbose: false }),
    {
        Ok(BridgeDiscovery { timeout_seconds: 10, verbose: false })
    }

    /// The engine with the time limit `timeout_seconds`.
    pub fn with_timeout(self, timeout_seconds: u64) -> (discovery: Self)
        ensures
            discovery == (BridgeDiscovery { timeout_seconds, ..self }),
    {
        BridgeDiscovery { timeout_seconds, verbose: self.verbose }
    }

    /// The engine with verbose mode set.
    pub fn with_verbose(self, verbose: bool) -> (discovery: Self)
        ensures
            discovery == (BridgeDiscovery { verbose, ..self }),
    {
        BridgeDiscovery { timeout_seconds: self.timeout_seconds, verbose }
    }

    /// The first step of a run of all methods: the cloud service.
    pub fn discover_all_begin(&self) -> (step: DiscoveryStep)
        ensures
            step == DiscoveryStep::Run(DiscoveryMethod::PhilipsService),
    {
        DiscoveryStep::Run(DiscoveryMethod::PhilipsService)
    }

    /// Decides what follows the run of the method `ran` with `outcome`: an
    /// outcome that holds a bridge ends discovery; otherwise the next
    /// method runs, and after the last one discovery ends without a bridge.
    pub fn discover_all_next(&self, ran: DiscoveryMethod, outcome: Result<DiscoveryResult>) -> (step:
        DiscoveryStep)
        ensures
            step == next_step(ran, outcome),
    {
        match outcome {
            Ok(result) => {
                if result.bridges.len() > 0 {
                    return DiscoveryStep::Done(Ok(result));
                }
            },
            Err(_) => {},
        }
        match ran {
            DiscoveryMethod::PhilipsService => DiscoveryStep::Run(DiscoveryMethod::Mdns),
            DiscoveryMethod::Mdns => DiscoveryStep::Run(DiscoveryMethod::NetworkScan),
            _ => DiscoveryStep::Done(Err(HueStatusError::BridgeNotFound)),
        }
    }

    /// Runs all methods against given outcomes: the cloud service first,
    /// then local advertisement, then the subnet scan. The first outcome
    /// that holds a bridge is returned; where none does, no bridge was
    /// found.
    pub fn discover_all(
        &self,
        cloud: Result<DiscoveryResult>,
        local: Result<DiscoveryResult>,
        scan: Result<DiscoveryResult>,
    ) -> (result: Result<DiscoveryResult>)
        ensures
            result == match first_found(cloud, local, scan) {
                Some(found) => Ok::<DiscoveryResult, HueStatusError>(found),
                None => Err::<DiscoveryResult, HueStatusError>(HueStatusError::BridgeNotFound),
            },
    {
        let step = self.discover_all_begin();
        let step = match step {
            DiscoveryStep::Run(method) => self.discover_all_next(method, cloud),
            done => done,
        };
        let step = match step {
            DiscoveryStep::Run(method) => self.discover_all_next(method, local),
            done => done,
        };
        let step = match step {
            DiscoveryStep::Run(method) => self.discover_all_next(method, scan),
            done => done,
        };
        match step {
            DiscoveryStep::Done(result) => result,
            DiscoveryStep::Run(_) => Err(HueStatusError::BridgeNotFound),
        }
    }

    /// The request to the cloud lookup service.
    pub fn philips_service_request(&self) -> (request: Request)
        ensures
            request.method == HttpMethod::Get,
            request.url@ == "https://discovery.meethue.com/"@,
            request.body == RequestBody::Empty,
    {
        Request {
            method: HttpMethod::Get,
            url: String::from_str("https://discovery.meethue.com/"),
            body: RequestBody::Empty,
        }
    }

    /// Interprets the answer of the cloud lookup service: its records, or
    /// the reason why the service could not be used.
    pub fn philips_service_records(&self, exchange: Exchange) -> (result: Result<Vec<PhilipsDiscoveryResponse>>)
        ensures
            is_service_outcome(exchange, result),
    {
        match exchange {
            Exchange::TimedOut => Err(
                HueStatusError::TimeoutError { operation: String::from_str("Philips discovery service") },
            ),
            Exchange::Failed { description } => Err(
                HueStatusError::DiscoveryServiceUnreachable { reason: description },
            ),
            Exchange::Answered { status, status_text, body } => {
                if !(200 <= status && status <= 299) {
                    return Err(
                        HueStatusError::DiscoveryServiceUnreachable { reason: concat2("HTTP ", status_text.as_str()) },
                    );
                }
                match JsonValue::parse(body.as_str()) {
                    Err(failure) => Err(
                        HueStatusError::DiscoveryServiceUnreachable {
                            reason: concat2("Invalid JSON response: ", failure.message.as_str()),
                        },
                    ),
                    Ok(document) => decode_records(&document),
                }
            },
        }
    }

    /// Assembles the outcome of the cloud lookup: for each record, what the
    /// query of the bridge itself found, or, where that query failed, what
    /// the record says.
    pub fn discover_via_philips_service(
        &self,
        records: &Vec<PhilipsDiscoveryResponse>,
        enrichments: &Vec<Result<DiscoveredBridge>>,
    ) -> (result: DiscoveryResult)
        ensures
            result.method == DiscoveryMethod::PhilipsService,
            result.bridges@.len() == records@.len(),
            forall|i: int|
                0 <= i < records@.len() ==> (#[trigger] result.bridges@[i])@ == candidate(
                    listed(records@[i]),
                    enrichments@,
                    i,
                ),
    {
        let mut bridges: Vec<DiscoveredBridge> = Vec::new();
        let mut i: usize = 0;
        while i < records.len()
            invariant
                i <= records.len(),
                bridges@.len() == i,
                forall|j: int|
                    0 <= j < i ==> (#[trigger] bridges@[j])@ == candidate(listed(records@[j]), enrichments@, j),
            decreases records.len() - i,
        {
            let basic = basic_from_record(&records[i]);
            bridges.push(enriched_or(basic, enrichments, i));
            i += 1;
        }
        DiscoveryResult { bridges, method: DiscoveryMethod::PhilipsService }
    }

    /// The addresses that local service advertisement yields. This method
    /// is not implemented and finds nothing.
    pub fn mdns_discovery_blocking() -> (addresses: Result<Vec<String>>)
        ensures
            addresses matches Ok(found) && found@.len() == 0,
    {
        Ok(Vec::new())
    }

    /// Assembles the outcome of local service advertisement: for each
    /// address, what the query of the bridge itself found, or, where that
    /// query failed, the address alone.
    pub fn discover_via_mdns(&self, addresses: &Vec<String>, enrichments: &Vec<Result<DiscoveredBridge>>) -> (result:
        DiscoveryResult)
        ensures
            result.method == DiscoveryMethod::Mdns,
            result.bridges@.len() == addresses@.len(),
            forall|i: int|
                0 <= i < addresses@.len() ==> (#[trigger] result.bridges@[i])@ == candidate(
                    bare(addresses@[i]@),
                    enrichments@,
                    i,
                ),
    {
        let mut bridges: Vec<DiscoveredBridge> = Vec::new();
        let mut i: usize = 0;
        while i < addresses.len()
            invariant
                i <= addresses.len(),
                bridges@.len() == i,
                forall|j: int|
                    0 <= j < i ==> (#[trigger] bridges@[j])@ == candidate(bare(addresses@[j]@), enrichments@, j),
            decreases addresses.len() - i,
        {
            let basic = basic_from_address(&addresses[i]);
            bridges.push(enriched_or(basic, enrichments, i));
            i += 1;
        }
        DiscoveryResult { bridges, method: DiscoveryMethod::Mdns }
    }

    /// The network prefixes to scan: the first three octets of each local
    /// IPv4 address, or, where none is known, four common private ranges.
    pub fn get_local_network_ranges(&self, local_addresses: &Vec<(u8, u8, u8, u8)>) -> (ranges: Vec<String>)
        ensures
            local_addresses@.len() == 0 ==> ranges@.len() == 4 && ranges@[0]@ == "192.168.1"@ && ranges@[1]@
                == "192.168.0"@ && ranges@[2]@ == "10.0.1"@ && ranges@[3]@ == "172.16.0"@,
            local_addresses@.len() > 0 ==> ranges@.len() == local_addresses@.len() && forall|i: int|
                0 <= i < ranges@.len() ==> (#[trigger] ranges@[i])@ == decimal(local_addresses@[i].0 as nat)
                    + "."@ + decimal(local_addresses@[i].1 as nat) + "."@ + decimal(
                    local_addresses@[i].2 as nat,
                ),
    {
        let mut ranges: Vec<String> = Vec::new();
        let mut i: usize = 0;
        while i < local_addresses.len()
            invariant
                i <= local_addresses.len(),
                ranges@.len() == i,
                forall|j: int|
                    0 <= j < i ==> (#[trigger] ranges@[j])@ == decimal(local_addresses@[j].0 as nat) + "."@
                        + decimal(local_addresses@[j].1 as nat) + "."@ + decimal(local_addresses@[j].2 as nat),
            decreases local_addresses.len() - i,
        {
            let address = local_addresses[i];
            let mut range = u64_to_string(address.0 as u64);
            range.append(".");
            range.append(u64_to_string(address.1 as u64).as_str());
            range.append(".");
            range.append(u64_to_string(address.2 as u64).as_str());
            ranges.push(range);
            i += 1;
        }
        if ranges.len() == 0 {
            ranges.push(String::from_str("192.168.1"));
            ranges.push(String::from_str("192.168.0"));
            ranges.push(String::from_str("10.0.1"));
            ranges.push(String::from_str("172.16.0"));
        }
        ranges
    }

    /// The 254 host addresses of the network `network`: its prefix followed
    /// by each number from 1 to 254.
    pub fn scan_targets(&self, network: &str) -> (targets: Vec<String>)
        ensures
            targets@.len() == 254,
            forall|i: int|
                0 <= i < 254 ==> (#[trigger] targets@[i])@ == network@ + "."@ + decimal((i + 1) as nat),
    {
        let mut targets: Vec<String> = Vec::new();
        let mut host: u64 = 1;
        while host <= 254
            invariant
                1 <= host <= 255,
                targets@.len() == host - 1,
                forall|i: int|
                    0 <= i < host - 1 ==> (#[trigger] targets@[i])@ == network@ + "."@ + decimal((i + 1) as nat),
            decreases 255 - host,
        {
            targets.push(concat3(network, ".", u64_to_string(host).as_str()));
            host += 1;
        }
        targets
    }

    /// The request that asks the bridge at `ip` to identify itself.
    pub fn identity_request(&self, ip: &str) -> (request: Request)
        ensures
            request.method == HttpMethod::Get,
            request.url@ == identity_url(ip@),
            request.body == RequestBody::Empty,
    {
        Request { method: HttpMethod::Get, url: concat3("http://", ip, "/api/0/config"), body: RequestBody::Empty }
    }

    /// The bridge at `ip` as its configuration describes it.
    pub fn bridge_from_config(ip: &str, known_id: Option<String>, config: &JsonValue) -> (bridge: DiscoveredBridge)
        ensures
            bridge@ == described(ip@, text_of(known_id), *config),
    {
        let id = match known_id {
            Some(id) => Some(id),
            None => config.string_member("bridgeid"),
        };
        DiscoveredBridge {
            ip: String::from_str(ip),
            id,
            name: config.string_member("name"),
            model: config.string_member("modelid"),
            version: config.string_member("apiversion"),
            port: Some(80),
        }
    }

    /// Probes the answer of the address `ip` for a bridge. An answer counts
    /// only if it has a success status and its body is a JSON document
    /// with a member `bridgeid`; anything else means that no bridge is
    /// there.
    pub fn test_bridge_at_ip(ip: &str, exchange: &Exchange) -> (bridge: Option<DiscoveredBridge>)
        ensures
            match bridge {
                Some(b) => probed(ip@, *exchange) == Some(b@),
                None => probed(ip@, *exchange) is None,
            },
    {
        match exchange {
            Exchange::Answered { status, status_text, body } => {
                if 200 <= *status && *status <= 299 {
                    match JsonValue::parse(body.as_str()) {
                        Ok(config) => {
                            if config.get("bridgeid").is_some() {
                                Some(Self::bridge_from_config(ip, None, &config))
                            } else {
                                None
                            }
                        },
                        Err(_) => None,
                    }
                } else {
                    None
                }
            },
            _ => None,
        }
    }

    /// The bridges that the probes of one network range found, in the
    /// order of the probes. Probes that found nothing are dropped.
    pub fn scan_network_range(&self, probes: &Vec<Option<DiscoveredBridge>>) -> (bridges: Vec<DiscoveredBridge>)
        ensures
            bridges@ == found(probes@, probes@.len() as int),
    {
        let mut bridges: Vec<DiscoveredBridge> = Vec::new();
        let mut i: usize = 0;
        while i < probes.len()
            invariant
                i <= probes.len(),
                bridges@ == found(probes@, i as int),
            decreases probes.len() - i,
        {
            match &probes[i] {
                Some(bridge) => {
                    bridges.push(bridge.clone());
                },
                None => {},
            }
            i += 1;
        }
        bridges
    }

    /// Assembles the outcome of the subnet scan from the bridges found in
    /// each range, one range after the other.
    pub fn discover_via_network_scan(&self, ranges: &Vec<Vec<DiscoveredBridge>>) -> (result: DiscoveryResult)
        ensures
            result.method == DiscoveryMethod::NetworkScan,
            result.bridges@ == flattened(ranges@, ranges@.len() as int),
    {
        let mut bridges: Vec<DiscoveredBridge> = Vec::new();
        let mut i: usize = 0;
        while i < ranges.len()
            invariant
                i <= ranges.len(),
                bridges@ == flattened(ranges@, i as int),
            decreases ranges.len() - i,
        {
            let range = &ranges[i];
            let ghost before = bridges@;
            let mut k: usize = 0;
            while k < range.len()
                invariant
                    k <= range.len(),
                    bridges@ == before + range@.take(k as int),
                decreases range.len() - k,
            {
                bridges.push(range[k].clone());
                assert(range@.take(k as int + 1) =~= range@.take(k as int).push(range@[k as int]));
                assert(bridges@ =~= before + range@.take(k as int + 1));
                k += 1;
            }
            assert(range@.take(range@.len() as int) =~= range@);
            i += 1;
        }
        DiscoveryResult { bridges, method: DiscoveryMethod::NetworkScan }
    }

    /// Interprets the answer to the query for the identity of the bridge at
    /// `ip`.
    pub fn enrich_bridge_info(&self, ip: &str, known_id: Option<String>, exchange: Exchange) -> (result: Result<
        DiscoveredBridge,
    >)
        ensures
            match result {
                Ok(bridge) => enrichment(ip@, text_of(known_id), exchange) == Ok::<DiscoveredBridgeView, ErrorView>(
                    bridge@,
                ),
                Err(error) => enrichment(ip@, text_of(known_id), exchange) == Err::<
                    DiscoveredBridgeView,
                    ErrorView,
                >(error@),
            },
    {
        match exchange {
            Exchange::TimedOut => Err(
                HueStatusError::TimeoutError { operation: concat2("Bridge info query for ", ip) },
            ),
            Exchange::Failed { description } => Err(HueStatusError::NetworkError { source: description }),
            Exchange::Answered { status, status_text, body } => {
                if !(200 <= status && status <= 299) {
                    return Err(
                        HueStatusError::BridgeConnectionFailed { reason: concat2("HTTP ", status_text.as_str()) },
                    );
                }
                match JsonValue::parse(body.as_str()) {
                    Err(failure) => Err(HueStatusError::NetworkError { source: failure.message }),
                    Ok(config) => Ok(Self::bridge_from_config(ip, known_id, &config)),
                }
            },
        }
    }

    /// The request that tests a user-supplied address, or the error that
    /// tells that the address is not well-formed. Whether it is well-formed
    /// is for the caller to find out.
    pub fn discover_manual_request(&self, ip: &str, address_is_valid: bool) -> (request: Result<Request>)
        ensures
            match request {
                Ok(r) => address_is_valid && r.method == HttpMethod::Get && r.url@ == identity_url(ip@) && r.body
                    == RequestBody::Empty,
                Err(error) => !address_is_valid && error@ == (ErrorView::InvalidConfig {
                    reason: "Invalid IP address: "@ + ip@,
                }),
            },
    {
        if !address_is_valid {
            return Err(HueStatusError::InvalidConfig { reason: concat2("Invalid IP address: ", ip) });
        }
        Ok(self.identity_request(ip))
    }

    /// The outcome of testing a user-supplied address, from the outcome of
    /// the query for the bridge's identity: the bridge, or no bridge where
    /// the query failed in any way.
    pub fn discover_manual(&self, enrichment: Result<DiscoveredBridge>) -> (result: Result<DiscoveryResult>)
        ensures
            match enrichment {
                Ok(bridge) => result matches Ok(found) && found.method == DiscoveryMethod::Manual
                    && found.bridges@ == seq![bridge],
                Err(_) => result == Err::<DiscoveryResult, HueStatusError>(HueStatusError::BridgeNotFound),
            },
    {
        match enrichment {
            Ok(bridge) => {
                let mut bridges: Vec<DiscoveredBridge> = Vec::new();
                bridges.push(bridge);
                assert(bridges@ =~= seq![bridge]);
                Ok(DiscoveryResult { bridges, method: DiscoveryMethod::Manual })
            },
            Err(_) => Err(HueStatusError::BridgeNotFound),
        }
    }

    /// Interprets the answer to the validation of `bridge`: it passes where
    /// the answer has a success status and is a JSON document with a member
    /// `bridgeid`.
    pub fn validate_bridge(&self, bridge: &DiscoveredBridge, exchange: Exchange) -> (result: Result<()>)
        ensures
            match result {
                Ok(()) => validation(bridge.ip@, exchange) is None,
                Err(error) => validation(bridge.ip@, exchange) == Some(error@),
            },
    {
        match exchange {
            Exchange::TimedOut => Err(
                HueStatusError::TimeoutError { operation: concat2("Bridge validation for ", bridge.ip.as_str()) },
            ),
            Exchange::Failed { description } => Err(HueStatusError::BridgeConnectionFailed { reason: description }),
            Exchange::Answered { status, status_text, body } => {
                if !(200 <= status && status <= 299) {
                    return Err(
                        HueStatusError::BridgeConnectionFailed { reason: concat2("HTTP ", status_text.as_str()) },
                    );
                }
                match JsonValue::parse(body.as_str()) {
                    Err(failure) => Err(
                        HueStatusError::BridgeConnectionFailed {
                            reason: concat2("Invalid response: ", failure.message.as_str()),
                        },
                    ),
                    Ok(config) => {
                        if config.get("bridgeid").is_some() {
                            Ok(())
                        } else {
                            Err(HueStatusError::BridgeConnectionFailed { reason: String::from_str("Not a Hue bridge") })
                        }
                    },
                }
            },
        }
    }

    /// Selects the best bridge among the outcomes of several methods: the
    /// first bridge of the best outcome that holds one. The cloud service
    /// ranks before a manual address, that before local advertisement, and
    /// that before a subnet scan; among outcomes of the same method the
    /// last one counts.
    pub fn select_best_bridge(results: &[DiscoveryResult]) -> (best: Option<&DiscoveredBridge>)
        ensures
            match best {
                Some(bridge) => exists|i: int| is_best(results@, i) && *bridge == results@[i].bridges@[0],
                None => forall|i: int| !holds_bridge(results@, i),
            },
    {
        let mut chosen: Option<usize> = None;
        let mut i: usize = 0;
        while i < results.len()
            invariant
                i <= results.len(),
                match chosen {
                    Some(c) => c < i && is_best(results@.take(i as int), c as int),
                    None => forall|j: int| !holds_bridge(results@.take(i as int), j),
                },
            decreases results.len() - i,
        {
            let ghost before = results@.take(i as int);
            let ghost now = results@.take(i as int + 1);
            proof {
                assert forall|j: int| 0 <= j < i implies #[trigger] now[j] == before[j] by {}
                assert(now[i as int] == results@[i as int]);
                assert forall|j: int| holds_bridge(now, j) && j != i implies holds_bridge(before, j) by {
                    assert(now[j] == before[j]);
                }
            }
            if results[i].bridges.len() > 0 {
                let replace = match chosen {
                    Some(c) => results[i].method.rank() >= results[c].method.rank(),
                    None => true,
                };
                if replace {
                    proof {
                        assert(holds_bridge(now, i as int));
                        assert forall|j: int| #[trigger] holds_bridge(now, j) implies now[j].method.priority()
                            < now[i as int].method.priority() || (now[j].method.priority() == now[i as int].method.priority()
                            && j <= i) by {
                            if j != i {
                                assert(holds_bridge(before, j));
                                assert(now[j] == before[j]);
                                match chosen {
                                    Some(c) => {
                                        assert(now[c as int] == before[c as int]);
                                    },
                                    None => {},
                                }
                            }
                        }
                    }
                    chosen = Some(i);
                } else {
                    proof {
                        let c = chosen->0 as int;
                        assert(now[c] == before[c]);
                        assert(holds_bridge(now, c));
                        assert forall|j: int| #[trigger] holds_bridge(now, j) implies now[j].method.priority()
                            < now[c].method.priority() || (now[j].method.priority() == now[c].method.priority() && j
                            <= c) by {
                            if j != i {
                                assert(holds_bridge(before, j));
                                assert(now[j] == before[j]);
                            }
                        }
                    }
                }
            } else {
                proof {
                    match chosen {
                        Some(c) => {
                            let c = c as int;
                            assert(now[c] == before[c]);
                            assert(holds_bridge(now, c));
                            assert forall|j: int| #[trigger] holds_bridge(now, j) implies now[j].method.priority()
                                < now[c].method.priority() || (now[j].method.priority() == now[c].method.priority()
                                && j <= c) by {
                                assert(holds_bridge(before, j));
                                assert(now[j] == before[j]);
                            }
                        },
                        None => {
                            assert forall|j: int| !holds_bridge(now, j) by {
                                if holds_bridge(now, j) {
                                    assert(holds_bridge(before, j));
                                }
                            }
                        },
                    }
                }
            }
            i += 1;
        }
        proof {
            assert(results@.take(results@.len() as int) =~= results@);
        }
        match chosen {
            Some(c) => Some(&results[c].bridges[0]),
            None => None,
        }
    }
}

} // verus!

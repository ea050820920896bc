use crate::json::{json_quote, json_quoted};
use crate::state::NodeMode;
use crate::text::{
    chars_of, decimal, opt_view, push_decimal, push_replaced, replaced, str_eq, string_of,
    trimmed_end, trimmed_end_len, views, without_suffix_run, without_suffix_run_len,
};
use vstd::prelude::*;

verus! {

/// What the coordination service assigned to this node.
#[derive(Debug, Clone)]
pub struct ClusterAssignment {
    pub mode: String,
    pub cluster_id: Option<String>,
    pub rpc_port: u16,
    pub rpc_peers: Option<Vec<String>>,
}

/// The coordination service's answer to a registration.
#[derive(Debug, Clone)]
pub struct RegisterResponse {
    pub success: bool,
    pub message: String,
    pub assignment: Option<ClusterAssignment>,
}

/// An assignment as a mathematical value.
pub struct AssignmentModel {
    pub mode: Seq<char>,
    pub cluster_id: Option<Seq<char>>,
    pub rpc_port: u16,
    pub rpc_peers: Seq<Seq<char>>,
}

impl View for ClusterAssignment {
    type V = AssignmentModel;

    open spec fn view(&self) -> AssignmentModel {
        AssignmentModel {
            mode: self.mode@,
            cluster_id: opt_view(self.cluster_id),
            rpc_port: self.rpc_port,
            rpc_peers: match self.rpc_peers {
                Some(peers) => views(peers@),
                None => Seq::empty(),
            },
        }
    }
}

/// The assignment of an optional reference, as an optional model.
pub open spec fn assignment_view(assignment: Option<&ClusterAssignment>) -> Option<
    AssignmentModel,
> {
    match assignment {
        Some(a) => Some(a@),
        None => None,
    }
}

/// The mode that a name on the wire stands for, if it stands for one.
pub open spec fn mode_of_name(name: Seq<char>) -> Option<NodeMode> {
    if name == "standalone"@ {
        Some(NodeMode::Standalone)
    } else if name == "rpc-server"@ {
        Some(NodeMode::RpcServer)
    } else if name == "coordinator"@ {
        Some(NodeMode::Coordinator)
    } else {
        None
    }
}

/// Decodes a mode name from the wire. An unknown name decodes to nothing.
pub fn decode_mode(name: &str) -> (mode: Option<NodeMode>)
    ensures
        mode == mode_of_name(name@),
{
    if str_eq(name, "standalone") {
        Some(NodeMode::Standalone)
    } else if str_eq(name, "rpc-server") {
        Some(NodeMode::RpcServer)
    } else if str_eq(name, "coordinator") {
        Some(NodeMode::Coordinator)
    } else {
        None
    }
}

/// What the node does about an assignment.
#[derive(Debug, Clone)]
pub enum ModeDecision {
    /// Serve alone; nothing is relaunched.
    Standalone,
    /// The mode name was not understood: keep the present mode; nothing is
    /// relaunched.
    Unchanged,
    /// Coordinator without peers: stay as the node is and ask again at the
    /// next registration; nothing is relaunched.
    AwaitPeers,
    /// Stop the engine and run a worker process on `rpc_port`.
    Worker { rpc_port: u16, cluster_id: Option<String> },
    /// Relaunch the engine with the peers attached.
    Coordinator { peers: Vec<String>, cluster_id: Option<String> },
}

/// A decision as a mathematical value.
pub enum DecisionModel {
    Standalone,
    Unchanged,
    AwaitPeers,
    Worker { rpc_port: u16, cluster_id: Option<Seq<char>> },
    Coordinator { peers: Seq<Seq<char>>, cluster_id: Option<Seq<char>> },
}

impl View for ModeDecision {
    type V = DecisionModel;

    open spec fn view(&self) -> DecisionModel {
        match self {
            ModeDecision::Standalone => DecisionModel::Standalone,
            ModeDecision::Unchanged => DecisionModel::Unchanged,
            ModeDecision::AwaitPeers => DecisionModel::AwaitPeers,
            ModeDecision::Worker { rpc_port, cluster_id } => DecisionModel::Worker {
                rpc_port: *rpc_port,
                cluster_id: opt_view(*cluster_id),
            },
            ModeDecision::Coordinator { peers, cluster_id } => DecisionModel::Coordinator {
                peers: views(peers@),
                cluster_id: opt_view(*cluster_id),
            },
        }
    }
}

impl DecisionModel {
    /// The decision tears the engine down: to relaunch it, or to make room
    /// for a worker process.
    pub open spec fn stops_engine(self) -> bool {
        self is Worker || self is Coordinator
    }

    /// The decision launches the engine again.
    pub open spec fn relaunches(self) -> bool {
        self is Coordinator
    }

    /// The node's mode once the decision has been carried out with success.
    pub open spec fn mode_after(self, current: NodeMode) -> NodeMode {
        match self {
            DecisionModel::Standalone => NodeMode::Standalone,
            DecisionModel::Unchanged => current,
            DecisionModel::AwaitPeers => current,
            DecisionModel::Worker { .. } => NodeMode::RpcServer,
            DecisionModel::Coordinator { .. } => NodeMode::Coordinator,
        }
    }
}

/// The local setting that forces the node to serve alone.
pub open spec fn forces_standalone(distributed_mode: Seq<char>) -> bool {
    distributed_mode == "standalone"@
}

/// The decision for an assignment under the local setting. The setting wins
/// where it forces standalone; no assignment means standalone; a coordinator
/// without peers waits; a name that is not understood changes nothing.
pub open spec fn decision_for(
    assignment: Option<AssignmentModel>,
    distributed_mode: Seq<char>,
) -> DecisionModel {
    if forces_standalone(distributed_mode) {
        DecisionModel::Standalone
    } else {
        match assignment {
            None => DecisionModel::Standalone,
            Some(a) => match mode_of_name(a.mode) {
                None => DecisionModel::Unchanged,
                Some(NodeMode::Standalone) => DecisionModel::Standalone,
                Some(NodeMode::RpcServer) => DecisionModel::Worker {
                    rpc_port: a.rpc_port,
                    cluster_id: a.cluster_id,
                },
                Some(NodeMode::Coordinator) => if a.rpc_peers.len() == 0 {
                    DecisionModel::AwaitPeers
                } else {
                    DecisionModel::Coordinator { peers: a.rpc_peers, cluster_id: a.cluster_id }
                },
            },
        }
    }
}

fn clone_strings(items: &Vec<String>) -> (out: Vec<String>)
    ensures
        views(out@) == views(items@),
{
    let mut out: Vec<String> = Vec::new();
    let mut i: usize = 0;
    while i < items.len()
        invariant
            i <= items.len(),
            out@.len() == i,
            views(out@) == views(items@).take(i as int),
        decreases items.len() - i,
    {
        let ghost before = out@;
        out.push(items[i].clone());
        assert forall|j: int| 0 <= j < i + 1 implies views(out@)[j] == views(items@).take(
            i + 1,
        )[j] by {
            if j < i {
                assert(views(before)[j] == views(items@).take(i as int)[j]);
            }
        }
        assert(views(out@) =~= views(items@).take(i + 1));
        i += 1;
    }
    assert(views(items@).take(items.len() as int) =~= views(items@));
    out
}

fn clone_opt(text: &Option<String>) -> (out: Option<String>)
    ensures
        opt_view(out) == opt_view(*text),
{
    match text {
        Some(t) => Some(t.clone()),
        None => None,
    }
}

/// Decides what the node does about an assignment, under the local setting
/// for distributed serving.
pub fn reconcile(assignment: Option<&ClusterAssignment>, distributed_mode: &str) -> (decision:
    ModeDecision)
    ensures
        decision@ == decision_for(assignment_view(assignment), distributed_mode@),
{
    if str_eq(distributed_mode, "standalone") {
        return ModeDecision::Standalone;
    }
    match assignment {
        None => ModeDecision::Standalone,
        Some(a) => match decode_mode(a.mode.as_str()) {
            None => ModeDecision::Unchanged,
            Some(NodeMode::Standalone) => ModeDecision::Standalone,
            Some(NodeMode::RpcServer) => ModeDecision::Worker {
                rpc_port: a.rpc_port,
                cluster_id: clone_opt(&a.cluster_id),
            },
            Some(NodeMode::Coordinator) => match &a.rpc_peers {
                None => ModeDecision::AwaitPeers,
                Some(peers) => {
                    if peers.len() == 0 {
                        ModeDecision::AwaitPeers
                    } else {
                        ModeDecision::Coordinator {
                            peers: clone_strings(peers),
                            cluster_id: clone_opt(&a.cluster_id),
                        }
                    }
                },
            },
        },
    }
}

/// An assignment as coordinator that names no peer relaunches nothing and
/// leaves the node in the mode it has: a standalone node stays standalone.
pub proof fn lemma_coordinator_without_peers(
    assignment: AssignmentModel,
    distributed_mode: Seq<char>,
    current: NodeMode,
)
    requires
        assignment.mode == "coordinator"@,
        assignment.rpc_peers.len() == 0,
    ensures
        !decision_for(Some(assignment), distributed_mode).stops_engine(),
        !decision_for(Some(assignment), distributed_mode).relaunches(),
        current is Standalone ==> decision_for(Some(assignment), distributed_mode).mode_after(
            current,
        ) is Standalone,
{
    reveal_strlit("coordinator");
    reveal_strlit("standalone");
    reveal_strlit("rpc-server");
    assert("coordinator"@.len() == 11);
    assert("standalone"@.len() == 10);
    assert("rpc-server"@.len() == 10);
}

/// Where the local setting forces standalone, no assignment moves the node.
pub proof fn lemma_forced_standalone_wins(assignment: Option<AssignmentModel>)
    ensures
        decision_for(assignment, "standalone"@) is Standalone,
{
}


/// The address under which the engine of this node can be reached.
pub open spec fn endpoint_text(host: Seq<char>, port: u16) -> Seq<char> {
    "http://"@ + host + ":"@ + decimal(port as nat)
}

/// The address under which the engine of this node can be reached.
pub fn registration_endpoint(host: &str, port: u16) -> (endpoint: String)
    ensures
        endpoint@ == endpoint_text(host@, port),
{
    let mut endpoint = "http://".to_owned();
    endpoint.append(host);
    endpoint.append(":");
    push_decimal(&mut endpoint, port as u64);
    endpoint
}

/// The text that a registration signs: address, endpoint, capabilities and
/// timestamp, in this order, as one JSON object without spaces. The order is
/// part of the agreement with the coordination service.
pub open spec fn registration_message_text(
    address: Seq<char>,
    endpoint: Seq<char>,
    model: Seq<char>,
    timestamp: u64,
) -> Seq<char> {
    "{\"address\":"@ + json_quoted(address) + ",\"endpoint\":"@ + json_quoted(endpoint)
        + ",\"capabilities\":["@ + json_quoted("inference"@) + ","@ + json_quoted(model)
        + "],\"timestamp\":"@ + decimal(timestamp as nat) + "}"@
}

/// Builds the text that a registration signs.
pub fn registration_message(address: &str, endpoint: &str, model: &str, timestamp: u64) -> (text:
    String)
    ensures
        text@ == registration_message_text(address@, endpoint@, model@, timestamp),
{
    let mut text = "{\"address\":".to_owned();
    text.append(json_quote(address).as_str());
    text.append(",\"endpoint\":");
    text.append(json_quote(endpoint).as_str());
    text.append(",\"capabilities\":[");
    text.append(json_quote("inference").as_str());
    text.append(",");
    text.append(json_quote(model).as_str());
    text.append("],\"timestamp\":");
    push_decimal(&mut text, timestamp);
    text.append("}");
    text
}

/// The capabilities that a registration declares for a model.
pub fn registration_capabilities(model: &str) -> (capabilities: Vec<String>)
    ensures
        views(capabilities@) == seq!["inference"@, model@],
{
    let mut capabilities: Vec<String> = Vec::new();
    capabilities.push("inference".to_owned());
    capabilities.push(model.to_owned());
    assert(views(capabilities@) =~= seq!["inference"@, model@]);
    capabilities
}

/// A service address followed by a path, with no slash doubled between them.
pub open spec fn service_url_text(base: Seq<char>, path: Seq<char>) -> Seq<char> {
    trimmed_end(base, '/') + path
}

/// Joins a service address and a path.
pub fn service_url(base: &str, path: &str) -> (url: String)
    ensures
        url@ == service_url_text(base@, path@),
{
    let chars = chars_of(base);
    let keep = trimmed_end_len(chars.as_slice(), '/');
    let mut kept: Vec<char> = Vec::new();
    let mut i: usize = 0;
    while i < keep
        invariant
            i <= keep <= chars.len(),
            kept@ == chars@.take(i as int),
        decreases keep - i,
    {
        kept.push(chars[i]);
        assert(chars@.take(i + 1) =~= chars@.take(i as int).push(chars@[i as int]));
        i += 1;
    }
    let mut url = string_of(kept.as_slice());
    url.append(path);
    url
}

/// The address at which registrations are filed.
pub fn register_url(oracle_url: &str) -> (url: String)
    ensures
        url@ == service_url_text(oracle_url@, "/api/nodes/register"@),
{
    service_url(oracle_url, "/api/nodes/register")
}

/// The address of the relay that belongs to a coordination service: the
/// service's address without slashes and `/oracle` at its end, with the
/// scheme changed from HTTP to WebSocket, followed by the relay's path.
pub open spec fn relay_url_text(oracle_url: Seq<char>) -> Seq<char> {
    replaced(
        replaced(
            without_suffix_run(trimmed_end(oracle_url, '/'), "/oracle"@),
            "https://"@,
            "wss://"@,
        ),
        "http://"@,
        "ws://"@,
    ) + "/ws/agent-relay"@
}

/// The address of the relay that belongs to a coordination service.
pub fn relay_url(oracle_url: &str) -> (url: String)
    ensures
        url@ == relay_url_text(oracle_url@),
{
    let chars = chars_of(oracle_url);
    let trimmed = trimmed_end_len(chars.as_slice(), '/');
    let base = vstd::slice::slice_subrange(chars.as_slice(), 0, trimmed);
    assert(base@ =~= chars@.take(trimmed as int));
    let suffix = chars_of("/oracle");
    let kept = without_suffix_run_len(base, suffix.as_slice());
    let root = vstd::slice::slice_subrange(base, 0, kept);
    assert(root@ =~= base@.take(kept as int));
    proof {
        reveal_strlit("https://");
        reveal_strlit("http://");
    }
    let secure = chars_of("https://");
    let secure_ws = chars_of("wss://");
    let plain = chars_of("http://");
    let plain_ws = chars_of("ws://");
    let mut first: Vec<char> = Vec::new();
    push_replaced(&mut first, root, secure.as_slice(), secure_ws.as_slice());
    assert(first@ =~= replaced(root@, "https://"@, "wss://"@));
    let mut second: Vec<char> = Vec::new();
    push_replaced(&mut second, first.as_slice(), plain.as_slice(), plain_ws.as_slice());
    assert(second@ =~= replaced(first@, "http://"@, "ws://"@));
    let mut url = string_of(second.as_slice());
    url.append("/ws/agent-relay");
    url
}

/// Whether the node offers itself for distributed serving: it does unless
/// the local setting disables that.
pub fn can_distribute(distributed_mode: &str) -> (offered: bool)
    ensures
        offered == (distributed_mode@ != "disabled"@),
{
    !str_eq(distributed_mode, "disabled")
}

/// The memory that a registration reports, in megabytes: the configured
/// limit where there is one, else all that the machine has.
pub open spec fn reported_ram(ram_limit_gb: u32, total_ram_mb: u64) -> u64 {
    if ram_limit_gb > 0 {
        (ram_limit_gb * 1024) as u64
    } else {
        total_ram_mb
    }
}

/// The memory that a registration reports, in megabytes.
pub fn reported_ram_mb(ram_limit_gb: u32, total_ram_mb: u64) -> (ram_mb: u64)
    ensures
        ram_mb == reported_ram(ram_limit_gb, total_ram_mb),
{
    if ram_limit_gb > 0 {
        (ram_limit_gb as u64) * 1024
    } else {
        total_ram_mb
    }
}


/// What came back from the coordination service, as its caller saw it.
#[derive(Debug, Clone)]
pub enum OracleReply {
    /// The request did not reach the service; the text says why.
    Unreachable(String),
    /// The service answered with a status that is no success.
    Refused { status: String, body: String },
    /// The service answered with success, but its answer could not be read.
    Unreadable(String),
    /// The service answered with success and this response.
    Answered(RegisterResponse),
}

/// Why a registration brought no assignment.
#[derive(Debug, Clone)]
pub enum RegisterError {
    /// The service was not reached, or its answer could not be used. The
    /// agent goes on serving alone.
    Network { message: String },
    /// The service declined the registration.
    Rejected { message: String },
}

/// The longest text of a refused answer that is passed on.
pub const REFUSAL_TEXT_LIMIT: usize = 300;

/// The first `limit` characters of a text, or all of it where it is shorter.
pub open spec fn clipped(text: Seq<char>, limit: int) -> Seq<char> {
    if text.len() <= limit {
        text
    } else {
        text.take(limit)
    }
}

/// The first `limit` characters of a text, or all of it where it is shorter.
pub fn clip(text: &str, limit: usize) -> (out: String)
    ensures
        out@ == clipped(text@, limit as int),
{
    let chars = chars_of(text);
    if chars.len() <= limit {
        text.to_owned()
    } else {
        let head = vstd::slice::slice_subrange(chars.as_slice(), 0, limit);
        assert(head@ =~= chars@.take(limit as int));
        string_of(head)
    }
}

/// What a reply means for the registration: the assignment of an accepted
/// one, which may be none, or the error with its message.
pub open spec fn outcome_text(reply: OracleReply) -> Result<Option<ClusterAssignment>, Seq<char>> {
    match reply {
        OracleReply::Unreachable(why) => Err("Oracle register request failed: "@ + why@),
        OracleReply::Refused { status, body } => Err(
            "Oracle register failed ("@ + status@ + "): "@ + clipped(
                body@,
                REFUSAL_TEXT_LIMIT as int,
            ),
        ),
        OracleReply::Unreadable(why) => Err("Oracle response parse error: "@ + why@),
        OracleReply::Answered(response) => if response.success {
            Ok(response.assignment)
        } else {
            Err("Oracle registration rejected: "@ + response.message@)
        },
    }
}

/// A reply is a rejection where the service answered and declined.
pub open spec fn is_rejection(reply: OracleReply) -> bool {
    reply matches OracleReply::Answered(response) && !response.success
}

/// Interprets a reply of the coordination service. Success is owed exactly
/// for an answer that accepts; a declining answer is a rejection, and
/// everything else a network error.
pub fn registration_outcome(reply: OracleReply) -> (outcome: Result<
    Option<ClusterAssignment>,
    RegisterError,
>)
    ensures
        outcome matches Ok(assignment) ==> outcome_text(reply) == Ok::<
            Option<ClusterAssignment>,
            Seq<char>,
        >(assignment),
        outcome matches Err(RegisterError::Rejected { message }) ==> is_rejection(reply)
            && outcome_text(reply) == Err::<Option<ClusterAssignment>, Seq<char>>(message@),
        outcome matches Err(RegisterError::Network { message }) ==> !is_rejection(reply)
            && outcome_text(reply) == Err::<Option<ClusterAssignment>, Seq<char>>(message@),
{
    match reply {
        OracleReply::Unreachable(why) => {
            let mut message = "Oracle register request failed: ".to_owned();
            message.append(why.as_str());
            Err(RegisterError::Network { message })
        },
        OracleReply::Refused { status, body } => {
            let mut message = "Oracle register failed (".to_owned();
            message.append(status.as_str());
            message.append("): ");
            message.append(clip(body.as_str(), REFUSAL_TEXT_LIMIT).as_str());
            Err(RegisterError::Network { message })
        },
        OracleReply::Unreadable(why) => {
            let mut message = "Oracle response parse error: ".to_owned();
            message.append(why.as_str());
            Err(RegisterError::Network { message })
        },
        OracleReply::Answered(response) => {
            if response.success {
                Ok(response.assignment)
            } else {
                let mut message = "Oracle registration rejected: ".to_owned();
                message.append(response.message.as_str());
                Err(RegisterError::Rejected { message })
            }
        },
    }
}

impl RegisterError {
    /// The error in words.
    pub fn message(&self) -> (text: &str)
        ensures
            text@ == match *self {
                RegisterError::Network { message } => message@,
                RegisterError::Rejected { message } => message@,
            },
    {
        match self {
            RegisterError::Network { message } => message.as_str(),
            RegisterError::Rejected { message } => message.as_str(),
        }
    }
}


/// The text that a report of readiness signs: address, model and timestamp,
/// in this order, as one JSON object without spaces.
pub open spec fn ready_message_text(address: Seq<char>, model: Seq<char>, timestamp: u64) -> Seq<
    char,
> {
    "{\"address\":"@ + json_quoted(address) + ",\"model\":"@ + json_quoted(model)
        + ",\"timestamp\":"@ + decimal(timestamp as nat) + "}"@
}

/// Builds the text that a report of readiness signs.
pub fn ready_message(address: &str, model: &str, timestamp: u64) -> (text: String)
    ensures
        text@ == ready_message_text(address@, model@, timestamp),
{
    let mut text = "{\"address\":".to_owned();
    text.append(json_quote(address).as_str());
    text.append(",\"model\":");
    text.append(json_quote(model).as_str());
    text.append(",\"timestamp\":");
    push_decimal(&mut text, timestamp);
    text.append("}");
    text
}

/// The body of a report of readiness: what was signed, and the signature,
/// as one JSON object with its keys in alphabetical order.
pub open spec fn ready_payload_text(
    address: Seq<char>,
    model: Seq<char>,
    timestamp: u64,
    signature: Seq<char>,
) -> Seq<char> {
    "{\"address\":"@ + json_quoted(address) + ",\"model\":"@ + json_quoted(model)
        + ",\"signature\":"@ + json_quoted(signature) + ",\"timestamp\":"@ + decimal(
        timestamp as nat,
    ) + "}"@
}

/// Builds the body of a report of readiness.
pub fn ready_payload(address: &str, model: &str, timestamp: u64, signature: &str) -> (text:
    String)
    ensures
        text@ == ready_payload_text(address@, model@, timestamp, signature@),
{
    let mut text = "{\"address\":".to_owned();
    text.append(json_quote(address).as_str());
    text.append(",\"model\":");
    text.append(json_quote(model).as_str());
    text.append(",\"signature\":");
    text.append(json_quote(signature).as_str());
    text.append(",\"timestamp\":");
    push_decimal(&mut text, timestamp);
    text.append("}");
    text
}

/// The address at which readiness is reported.
pub fn ready_url(oracle_url: &str) -> (url: String)
    ensures
        url@ == service_url_text(oracle_url@, "/api/v1/pipeline/ready"@),
{
    service_url(oracle_url, "/api/v1/pipeline/ready")
}

/// What a node declares of itself when it joins a pipeline.
#[derive(Debug, Clone)]
pub struct PipelineNode {
    pub address: String,
    pub http_endpoint: String,
    pub model: String,
    pub ram_mb: u64,
    pub device: String,
    pub vram_mb: u64,
    pub timestamp: u64,
}

/// The text that a registration with a pipeline signs: address, both
/// endpoints, model, memory, device, graphics memory and timestamp, in this
/// order, as one JSON object without spaces. A node without a second
/// endpoint names its HTTP endpoint twice.
pub open spec fn pipeline_message_text(node: PipelineNode) -> Seq<char> {
    "{\"address\":"@ + json_quoted(node.address@) + ",\"grpcEndpoint\":"@ + json_quoted(
        node.http_endpoint@,
    ) + ",\"httpEndpoint\":"@ + json_quoted(node.http_endpoint@) + ",\"model\":"@ + json_quoted(
        node.model@,
    ) + ",\"ramMb\":"@ + decimal(node.ram_mb as nat) + ",\"device\":"@ + json_quoted(
        node.device@,
    ) + ",\"vramMb\":"@ + decimal(node.vram_mb as nat) + ",\"timestamp\":"@ + decimal(
        node.timestamp as nat,
    ) + "}"@
}

/// Builds the text that a registration with a pipeline signs.
pub fn pipeline_message(node: &PipelineNode) -> (text: String)
    ensures
        text@ == pipeline_message_text(*node),
{
    let endpoint = json_quote(node.http_endpoint.as_str());
    let mut text = "{\"address\":".to_owned();
    text.append(json_quote(node.address.as_str()).as_str());
    text.append(",\"grpcEndpoint\":");
    text.append(endpoint.as_str());
    text.append(",\"httpEndpoint\":");
    text.append(endpoint.as_str());
    text.append(",\"model\":");
    text.append(json_quote(node.model.as_str()).as_str());
    text.append(",\"ramMb\":");
    push_decimal(&mut text, node.ram_mb);
    text.append(",\"device\":");
    text.append(json_quote(node.device.as_str()).as_str());
    text.append(",\"vramMb\":");
    push_decimal(&mut text, node.vram_mb);
    text.append(",\"timestamp\":");
    push_decimal(&mut text, node.timestamp);
    text.append("}");
    text
}

/// The body of a registration with a pipeline: what was signed, and the
/// signature, as one JSON object with its keys in alphabetical order.
pub open spec fn pipeline_payload_text(node: PipelineNode, signature: Seq<char>) -> Seq<char> {
    "{\"address\":"@ + json_quoted(node.address@) + ",\"device\":"@ + json_quoted(node.device@)
        + ",\"grpcEndpoint\":"@ + json_quoted(node.http_endpoint@) + ",\"httpEndpoint\":"@
        + json_quoted(node.http_endpoint@) + ",\"model\":"@ + json_quoted(node.model@)
        + ",\"ramMb\":"@ + decimal(node.ram_mb as nat) + ",\"signature\":"@ + json_quoted(
        signature,
    ) + ",\"timestamp\":"@ + decimal(node.timestamp as nat) + ",\"vramMb\":"@ + decimal(
        node.vram_mb as nat,
    ) + "}"@
}

/// Builds the body of a registration with a pipeline.
pub fn pipeline_payload(node: &PipelineNode, signature: &str) -> (text: String)
    ensures
        text@ == pipeline_payload_text(*node, signature@),
{
    let endpoint = json_quote(node.http_endpoint.as_str());
    let mut text = "{\"address\":".to_owned();
    text.append(json_quote(node.address.as_str()).as_str());
    text.append(",\"device\":");
    text.append(json_quote(node.device.as_str()).as_str());
    text.append(",\"grpcEndpoint\":");
    text.append(endpoint.as_str());
    text.append(",\"httpEndpoint\":");
    text.append(endpoint.as_str());
    text.append(",\"model\":");
    text.append(json_quote(node.model.as_str()).as_str());
    text.append(",\"ramMb\":");
    push_decimal(&mut text, node.ram_mb);
    text.append(",\"signature\":");
    text.append(json_quote(signature).as_str());
    text.append(",\"timestamp\":");
    push_decimal(&mut text, node.timestamp);
    text.append(",\"vramMb\":");
    push_decimal(&mut text, node.vram_mb);
    text.append("}");
    text
}

/// The address at which a node joins a pipeline.
pub fn pipeline_register_url(oracle_url: &str) -> (url: String)
    ensures
        url@ == service_url_text(oracle_url@, "/api/v1/pipeline/register"@),
{
    service_url(oracle_url, "/api/v1/pipeline/register")
}

/// What an answer to a registration with a pipeline means, given whether
/// it is a JSON document that says `success` and the message it holds: the
/// registration stands only where the document says so.
pub open spec fn pipeline_answer(accepted: bool, message: Option<Seq<char>>) -> Option<Seq<char>> {
    if accepted {
        None
    } else {
        Some(
            "Oracle registration rejected: "@ + match message {
                Some(m) => m,
                None => "unknown"@,
            },
        )
    }
}

/// Judges an answer to a registration with a pipeline.
pub fn pipeline_outcome(accepted: bool, message: Option<String>) -> (outcome: Result<
    (),
    RegisterError,
>)
    ensures
        outcome is Ok <==> accepted,
        outcome matches Err(e) ==> e matches RegisterError::Rejected { message: text }
            && pipeline_answer(accepted, opt_view(message)) == Some(text@),
{
    if accepted {
        Ok(())
    } else {
        let mut text = "Oracle registration rejected: ".to_owned();
        match message {
            Some(m) => text.append(m.as_str()),
            None => text.append("unknown"),
        }
        Err(RegisterError::Rejected { message: text })
    }
}

} // verus!

use crate::config::DEFAULT_HTTP_PORT;
use crate::system::{describe_exit_code, exit_diagnosis};
use crate::text::opt_view;
use vstd::prelude::*;

verus! {

/// The role of this node in a cluster.
#[derive(Debug, Clone, Copy, PartialEq, Eq, Structural)]
pub enum NodeMode {
    Standalone,
    RpcServer,
    Coordinator,
}

impl NodeMode {
    /// The name of the mode on the wire.
    pub open spec fn wire_name(self) -> Seq<char> {
        match self {
            NodeMode::Standalone => "standalone"@,
            NodeMode::RpcServer => "rpc-server"@,
            NodeMode::Coordinator => "coordinator"@,
        }
    }

    /// The name of the mode on the wire.
    pub fn as_str(&self) -> (name: &'static str)
        ensures
            name@ == self.wire_name(),
    {
        match self {
            NodeMode::Standalone => "standalone",
            NodeMode::RpcServer => "rpc-server",
            NodeMode::Coordinator => "coordinator",
        }
    }
}

/// What the agent is doing, as one authoritative status.
#[derive(Debug, Clone, Copy, PartialEq, Eq, Structural)]
pub enum AgentStatus {
    Stopped,
    Starting,
    Running,
    Stopping,
    Error,
}

impl AgentStatus {
    /// The agent has been started and has neither failed nor been stopped.
    pub open spec fn is_active(self) -> bool {
        self is Starting || self is Running
    }

    /// An exit of the engine in this status was asked for by a stop command.
    pub open spec fn expects_exit(self) -> bool {
        self is Stopped || self is Stopping
    }
}

/// Status and port, as handed to an observer.
#[derive(Debug, Clone)]
pub struct AgentStatusResponse {
    pub status: AgentStatus,
    pub http_port: u16,
}

/// Why a start command was refused.
#[derive(Debug, Clone, Copy, PartialEq, Eq, Structural)]
pub enum StartError {
    AlreadyActive,
}

/// Why a stop command was refused.
#[derive(Debug, Clone, Copy, PartialEq, Eq, Structural)]
pub enum StopError {
    NotRunning,
}

impl StartError {
    /// The error in words.
    pub fn message(&self) -> (text: String)
        ensures
            text@ == "Agent is already running or starting"@,
    {
        "Agent is already running or starting".to_owned()
    }
}

impl StopError {
    /// The error in words.
    pub fn message(&self) -> (text: String)
        ensures
            text@ == "Agent is not running"@,
    {
        "Agent is not running".to_owned()
    }
}

/// What a stop command leaves for its caller to carry out, in this order:
/// cancel the tasks, then terminate the engine and the worker.
#[derive(Debug, Clone)]
pub struct StopPlan {
    pub cancel_tasks: Vec<u64>,
    pub kill_engine: Option<u32>,
    pub kill_worker: Option<u32>,
}

/// How an exit of the engine was classified.
#[derive(Debug, Clone)]
pub enum ExitReport {
    /// The exit followed a stop command; nothing changed.
    Expected,
    /// The engine crashed. `peer_loss` is set where it ran as coordinator, in
    /// which case the likeliest cause is a peer that disappeared.
    Crash { peer_loss: bool, diagnosis: String },
}

/// How an exit of the worker process was classified.
#[derive(Debug, Clone, Copy, PartialEq, Eq, Structural)]
pub enum WorkerExitReport {
    /// The worker ended while the node no longer depended on it.
    Terminated,
    /// The worker ended while the node served as a worker.
    Crash,
}

/// The agent's record as a mathematical value: what the transitions are stated over.
pub struct AgentModel {
    pub pid: Option<u32>,
    pub status: AgentStatus,
    pub http_port: u16,
    pub start_time: Option<u64>,
    pub background_tasks: Seq<u64>,
    pub model_path: Option<Seq<char>>,
    pub agent_address: Option<Seq<char>>,
    pub node_mode: NodeMode,
    pub cluster_id: Option<Seq<char>>,
    pub rpc_server_pid: Option<u32>,
}

impl AgentModel {
    /// A stopped or failed agent is standalone and belongs to no cluster, and
    /// a stopped one tracks no process, no task and no start time.
    pub open spec fn wf(self) -> bool {
        &&& (self.status is Stopped || self.status is Error) ==> self.node_mode is Standalone
            && self.cluster_id is None
        &&& self.status is Stopped ==> self.pid is None && self.rpc_server_pid is None
            && self.background_tasks.len() == 0 && self.start_time is None
    }

    /// The record of an agent that has not been started.
    pub open spec fn initial() -> AgentModel {
        AgentModel {
            pid: None,
            status: AgentStatus::Stopped,
            http_port: DEFAULT_HTTP_PORT,
            start_time: None,
            background_tasks: Seq::empty(),
            model_path: None,
            agent_address: None,
            node_mode: NodeMode::Standalone,
            cluster_id: None,
            rpc_server_pid: None,
        }
    }

    /// A start command is refused while the agent is starting or running.
    pub open spec fn start_refused(self) -> bool {
        self.status.is_active()
    }

    /// The record after a start command for `http_port`.
    pub open spec fn start(self, http_port: u16) -> AgentModel {
        if self.start_refused() {
            self
        } else {
            AgentModel { status: AgentStatus::Starting, http_port, ..self }
        }
    }

    /// The record after a start attempt failed before readiness.
    pub open spec fn fail_start(self) -> AgentModel {
        if self.status is Starting {
            AgentModel {
                status: AgentStatus::Error,
                node_mode: NodeMode::Standalone,
                cluster_id: None,
                ..self
            }
        } else {
            self
        }
    }

    /// The record after the engine was launched.
    pub open spec fn launched(
        self,
        pid: Option<u32>,
        now: u64,
        model_path: Seq<char>,
        agent_address: Seq<char>,
    ) -> AgentModel {
        if self.status is Starting {
            AgentModel {
                pid,
                start_time: Some(now),
                model_path: Some(model_path),
                agent_address: Some(agent_address),
                ..self
            }
        } else {
            self
        }
    }

    /// The record after the engine reported that it is ready.
    pub open spec fn ready(self) -> AgentModel {
        if self.status is Starting {
            AgentModel { status: AgentStatus::Running, ..self }
        } else {
            self
        }
    }

    /// An exit of the engine is a crash unless a stop command came before it.
    pub open spec fn exit_is_crash(self) -> bool {
        !self.status.expects_exit()
    }

    /// The record after the engine exited.
    pub open spec fn engine_exit(self) -> AgentModel {
        if self.exit_is_crash() {
            AgentModel {
                status: AgentStatus::Error,
                pid: None,
                node_mode: NodeMode::Standalone,
                cluster_id: None,
                ..self
            }
        } else {
            self
        }
    }

    /// The record after the process `exited` ended: the exit of the engine
    /// that the record tracks, where it is that one, and nothing otherwise.
    /// An engine that the agent gave up for a change of role is tracked no
    /// longer, so its exit changes nothing.
    pub open spec fn exit_of(self, exited: Option<u32>) -> AgentModel {
        if self.pid == exited {
            self.engine_exit()
        } else {
            self
        }
    }

    /// An exit of the worker is a crash while the node serves as a worker and
    /// no stop command came before it.
    pub open spec fn worker_exit_is_crash(self) -> bool {
        self.node_mode is RpcServer && !self.status.expects_exit()
    }

    /// The record after the worker process exited.
    pub open spec fn worker_exit(self) -> AgentModel {
        if self.worker_exit_is_crash() {
            AgentModel {
                status: AgentStatus::Error,
                rpc_server_pid: None,
                node_mode: NodeMode::Standalone,
                cluster_id: None,
                ..self
            }
        } else {
            self
        }
    }

    /// A stop command is refused on a stopped agent.
    pub open spec fn stop_refused(self) -> bool {
        self.status is Stopped
    }

    /// The record once a stop command has been accepted.
    pub open spec fn begin_stop(self) -> AgentModel {
        if self.stop_refused() {
            self
        } else {
            AgentModel {
                status: AgentStatus::Stopping,
                background_tasks: Seq::empty(),
                pid: None,
                rpc_server_pid: None,
                ..self
            }
        }
    }

    /// The record once the plan of a stop command has been carried out.
    pub open spec fn finish_stop(self) -> AgentModel {
        if self.status is Stopping {
            AgentModel {
                status: AgentStatus::Stopped,
                pid: None,
                rpc_server_pid: None,
                start_time: None,
                node_mode: NodeMode::Standalone,
                cluster_id: None,
                background_tasks: Seq::empty(),
                ..self
            }
        } else {
            self
        }
    }

    /// The record after the engine was given up for a worker process.
    pub open spec fn release_engine(self) -> AgentModel {
        if self.status is Running {
            AgentModel { pid: None, ..self }
        } else {
            self
        }
    }

    /// The record after a worker process was started for a cluster.
    pub open spec fn enter_worker(self, worker_pid: u32, cluster_id: Option<Seq<char>>) -> AgentModel {
        if self.status is Running {
            AgentModel {
                rpc_server_pid: Some(worker_pid),
                node_mode: NodeMode::RpcServer,
                cluster_id,
                ..self
            }
        } else {
            self
        }
    }

    /// The record after the engine was torn down to be relaunched as coordinator.
    pub open spec fn begin_coordinator_restart(self) -> AgentModel {
        if self.status is Running {
            AgentModel { status: AgentStatus::Starting, pid: None, ..self }
        } else {
            self
        }
    }

    /// The record after the engine was relaunched.
    pub open spec fn relaunched(self, pid: u32) -> AgentModel {
        if self.status is Starting {
            AgentModel { pid: Some(pid), ..self }
        } else {
            self
        }
    }

    /// The record after the relaunched engine took up its role as coordinator.
    pub open spec fn enter_coordinator(self, cluster_id: Option<Seq<char>>) -> AgentModel {
        if self.status.is_active() {
            AgentModel { node_mode: NodeMode::Coordinator, cluster_id, ..self }
        } else {
            self
        }
    }

    /// The record after an assignment that leaves the node on its own.
    pub open spec fn enter_standalone(self) -> AgentModel {
        AgentModel { node_mode: NodeMode::Standalone, ..self }
    }

    /// A background task is taken on unless the agent is stopped.
    pub open spec fn add_task(self, task: u64) -> AgentModel {
        if self.status is Stopped {
            self
        } else {
            AgentModel { background_tasks: self.background_tasks.push(task), ..self }
        }
    }

    /// A worker serves no inference requests, so it gets no relay.
    pub open spec fn relay_allowed(self) -> bool {
        !(self.node_mode is RpcServer)
    }
}

/// The single record of what the agent is doing. Processes are tracked by pid
/// and background tasks by the number their owner gave them.
#[derive(Debug, Clone)]
pub struct AgentState {
    pub pid: Option<u32>,
    pub status: AgentStatus,
    pub http_port: u16,
    pub start_time: Option<u64>,
    pub background_tasks: Vec<u64>,
    pub model_path: Option<String>,
    pub agent_address: Option<String>,
    pub node_mode: NodeMode,
    pub cluster_id: Option<String>,
    pub rpc_server_pid: Option<u32>,
}

impl View for AgentState {
    type V = AgentModel;

    open spec fn view(&self) -> AgentModel {
        AgentModel {
            pid: self.pid,
            status: self.status,
            http_port: self.http_port,
            start_time: self.start_time,
            background_tasks: self.background_tasks@,
            model_path: opt_view(self.model_path),
            agent_address: opt_view(self.agent_address),
            node_mode: self.node_mode,
            cluster_id: opt_view(self.cluster_id),
            rpc_server_pid: self.rpc_server_pid,
        }
    }
}

impl AgentState {
    /// The record of an agent that has not been started.
    pub fn new() -> (state: AgentState)
        ensures
            state@ == AgentModel::initial(),
    {
        AgentState {
            pid: None,
            status: AgentStatus::Stopped,
            http_port: DEFAULT_HTTP_PORT,
            start_time: None,
            background_tasks: Vec::new(),
            model_path: None,
            agent_address: None,
            node_mode: NodeMode::Standalone,
            cluster_id: None,
            rpc_server_pid: None,
        }
    }

    /// Status and port for an observer.
    pub fn status_response(&self) -> (response: AgentStatusResponse)
        ensures
            response.status == self@.status,
            response.http_port == self@.http_port,
    {
        AgentStatusResponse { status: self.status, http_port: self.http_port }
    }

    /// A start command. It is refused while the agent is starting or running,
    /// and then changes nothing; otherwise the agent is starting on `http_port`.
    pub fn begin_start(&mut self, http_port: u16) -> (outcome: Result<(), StartError>)
        ensures
            outcome is Err <==> old(self)@.start_refused(),
            final(self)@ == old(self)@.start(http_port),
    {
        match self.status {
            AgentStatus::Starting | AgentStatus::Running => Err(StartError::AlreadyActive),
            _ => {
                self.status = AgentStatus::Starting;
                self.http_port = http_port;
                Ok(())
            },
        }
    }

    /// A start attempt failed before the engine was ready: a bad key or a
    /// launch that did not succeed. A starting agent becomes failed and
    /// standalone; in any other status nothing changes.
    pub fn fail_start(&mut self) -> (changed: bool)
        ensures
            changed == (old(self)@.status is Starting),
            final(self)@ == old(self)@.fail_start(),
    {
        match self.status {
            AgentStatus::Starting => {
                self.status = AgentStatus::Error;
                self.node_mode = NodeMode::Standalone;
                self.cluster_id = None;
                true
            },
            _ => false,
        }
    }

    /// The engine was launched for a starting agent: its pid, the time, the
    /// model and the node's address are recorded. In any other status nothing
    /// changes.
    pub fn record_launch(
        &mut self,
        pid: Option<u32>,
        now: u64,
        model_path: String,
        agent_address: String,
    ) -> (recorded: bool)
        ensures
            recorded == (old(self)@.status is Starting),
            final(self)@ == old(self)@.launched(pid, now, model_path@, agent_address@),
    {
        match self.status {
            AgentStatus::Starting => {
                self.pid = pid;
                self.start_time = Some(now);
                self.model_path = Some(model_path);
                self.agent_address = Some(agent_address);
                true
            },
            _ => false,
        }
    }

    /// The engine reported that it is ready. Only a starting agent becomes
    /// running; the result says whether it did.
    pub fn mark_ready(&mut self) -> (changed: bool)
        ensures
            changed == (old(self)@.status is Starting),
            final(self)@ == old(self)@.ready(),
    {
        match self.status {
            AgentStatus::Starting => {
                self.status = AgentStatus::Running;
                true
            },
            _ => false,
        }
    }

    /// The engine exited. After a stop command the exit was expected and
    /// nothing changes. Otherwise it is a crash: the agent is failed, tracks no
    /// engine and is standalone again, and the report carries the diagnosis
    /// for the exit code.
    pub fn on_engine_exit(&mut self, code: Option<i32>) -> (report: ExitReport)
        ensures
            final(self)@ == old(self)@.engine_exit(),
            report is Crash <==> old(self)@.exit_is_crash(),
            report matches ExitReport::Crash { peer_loss, diagnosis } ==> peer_loss == (old(
                self,
            )@.node_mode is Coordinator) && diagnosis@ == exit_diagnosis(code),
    {
        match self.status {
            AgentStatus::Stopped | AgentStatus::Stopping => ExitReport::Expected,
            _ => {
                let peer_loss = match self.node_mode {
                    NodeMode::Coordinator => true,
                    _ => false,
                };
                self.status = AgentStatus::Error;
                self.pid = None;
                self.node_mode = NodeMode::Standalone;
                self.cluster_id = None;
                ExitReport::Crash { peer_loss, diagnosis: describe_exit_code(code) }
            },
        }
    }

    /// The process `exited` ended with `code`. Where it is the engine that
    /// the record tracks, this is an exit of the engine; where it is not, as
    /// for an engine that the agent itself gave up to change its role, the
    /// exit was expected and nothing changes.
    pub fn on_exit_of(&mut self, exited: Option<u32>, code: Option<i32>) -> (report: ExitReport)
        ensures
            final(self)@ == old(self)@.exit_of(exited),
            old(self)@.pid != exited ==> report is Expected && final(self)@ == old(self)@,
            old(self)@.pid == exited ==> final(self)@ == old(self)@.engine_exit() && (report
                is Crash <==> old(self)@.exit_is_crash()),
            report matches ExitReport::Crash { peer_loss, diagnosis } ==> peer_loss == (old(
                self,
            )@.node_mode is Coordinator) && diagnosis@ == exit_diagnosis(code),
    {
        let same_process = match (self.pid, exited) {
            (Some(a), Some(b)) => a == b,
            (None, None) => true,
            _ => false,
        };
        if same_process {
            self.on_engine_exit(code)
        } else {
            ExitReport::Expected
        }
    }

    /// The worker process exited. It is a crash only while the node serves as
    /// a worker and no stop command was given: the agent is then failed,
    /// tracks no worker and is standalone again.
    pub fn on_worker_exit(&mut self) -> (report: WorkerExitReport)
        ensures
            report is Crash <==> old(self)@.worker_exit_is_crash(),
            final(self)@ == old(self)@.worker_exit(),
    {
        let serving = match self.node_mode {
            NodeMode::RpcServer => true,
            _ => false,
        };
        let expected = match self.status {
            AgentStatus::Stopped | AgentStatus::Stopping => true,
            _ => false,
        };
        if serving && !expected {
            self.status = AgentStatus::Error;
            self.rpc_server_pid = None;
            self.node_mode = NodeMode::Standalone;
            self.cluster_id = None;
            WorkerExitReport::Crash
        } else {
            WorkerExitReport::Terminated
        }
    }

    /// A stop command. On a stopped agent it is refused and changes nothing.
    /// Otherwise the agent is stopping, and the plan names every background
    /// task to cancel and every process to terminate; the record tracks none
    /// of them any longer.
    pub fn begin_stop(&mut self) -> (outcome: Result<StopPlan, StopError>)
        ensures
            outcome is Err <==> old(self)@.stop_refused(),
            final(self)@ == old(self)@.begin_stop(),
            outcome matches Ok(plan) ==> {
                &&& plan.cancel_tasks@ == old(self)@.background_tasks
                &&& plan.kill_engine == old(self)@.pid
                &&& plan.kill_worker == old(self)@.rpc_server_pid
            },
    {
        match self.status {
            AgentStatus::Stopped => Err(StopError::NotRunning),
            _ => {
                self.status = AgentStatus::Stopping;
                let mut cancel_tasks: Vec<u64> = Vec::new();
                std::mem::swap(&mut cancel_tasks, &mut self.background_tasks);
                let kill_engine = self.pid;
                let kill_worker = self.rpc_server_pid;
                self.pid = None;
                self.rpc_server_pid = None;
                Ok(StopPlan { cancel_tasks, kill_engine, kill_worker })
            },
        }
    }

    /// The plan of a stop command has been carried out: a stopping agent is
    /// stopped, standalone and in no cluster. In any other status nothing
    /// changes.
    pub fn finish_stop(&mut self) -> (changed: bool)
        ensures
            changed == (old(self)@.status is Stopping),
            final(self)@ == old(self)@.finish_stop(),
    {
        match self.status {
            AgentStatus::Stopping => {
                self.status = AgentStatus::Stopped;
                self.pid = None;
                self.rpc_server_pid = None;
                self.start_time = None;
                self.node_mode = NodeMode::Standalone;
                self.cluster_id = None;
                self.background_tasks = Vec::new();
                true
            },
            _ => false,
        }
    }

    /// A running agent gives up its engine so that a worker process can take
    /// its place: the result is the pid to terminate, and the record tracks no
    /// engine.
    pub fn release_engine(&mut self) -> (engine: Option<u32>)
        ensures
            final(self)@ == old(self)@.release_engine(),
            engine == if old(self)@.status is Running {
                old(self)@.pid
            } else {
                None
            },
    {
        match self.status {
            AgentStatus::Running => {
                let engine = self.pid;
                self.pid = None;
                engine
            },
            _ => None,
        }
    }

    /// A worker process was started: a running agent tracks it, serves as
    /// worker and belongs to the cluster. The result says whether the agent
    /// took it; a worker that it did not take is the caller's to terminate.
    pub fn enter_worker(&mut self, worker_pid: u32, cluster_id: Option<String>) -> (taken: bool)
        ensures
            taken == (old(self)@.status is Running),
            final(self)@ == old(self)@.enter_worker(worker_pid, opt_view(cluster_id)),
    {
        match self.status {
            AgentStatus::Running => {
                self.rpc_server_pid = Some(worker_pid);
                self.node_mode = NodeMode::RpcServer;
                self.cluster_id = cluster_id;
                true
            },
            _ => false,
        }
    }

    /// A running agent tears its engine down to relaunch it as coordinator:
    /// the result is the pid to terminate, and the agent is starting again.
    pub fn begin_coordinator_restart(&mut self) -> (engine: Option<u32>)
        ensures
            final(self)@ == old(self)@.begin_coordinator_restart(),
            engine == if old(self)@.status is Running {
                old(self)@.pid
            } else {
                None
            },
    {
        match self.status {
            AgentStatus::Running => {
                let engine = self.pid;
                self.pid = None;
                self.status = AgentStatus::Starting;
                engine
            },
            _ => None,
        }
    }

    /// The engine was launched again for a starting agent.
    pub fn record_relaunch(&mut self, pid: u32) -> (recorded: bool)
        ensures
            recorded == (old(self)@.status is Starting),
            final(self)@ == old(self)@.relaunched(pid),
    {
        match self.status {
            AgentStatus::Starting => {
                self.pid = Some(pid);
                true
            },
            _ => false,
        }
    }

    /// The relaunched engine serves as coordinator of the cluster. A stopped
    /// or failed agent stays as it is.
    pub fn enter_coordinator(&mut self, cluster_id: Option<String>) -> (taken: bool)
        ensures
            taken == old(self)@.status.is_active(),
            final(self)@ == old(self)@.enter_coordinator(opt_view(cluster_id)),
    {
        match self.status {
            AgentStatus::Starting | AgentStatus::Running => {
                self.node_mode = NodeMode::Coordinator;
                self.cluster_id = cluster_id;
                true
            },
            _ => false,
        }
    }

    /// The assignment leaves the node on its own.
    pub fn enter_standalone(&mut self)
        ensures
            final(self)@ == old(self)@.enter_standalone(),
    {
        self.node_mode = NodeMode::Standalone;
    }

    /// Takes on a background task, unless the agent is stopped. The result
    /// says whether it was taken; one that was not is the caller's to cancel.
    pub fn add_background_task(&mut self, task: u64) -> (taken: bool)
        ensures
            taken == !(old(self)@.status is Stopped),
            final(self)@ == old(self)@.add_task(task),
    {
        match self.status {
            AgentStatus::Stopped => false,
            _ => {
                self.background_tasks.push(task);
                true
            },
        }
    }

    /// Whether the relay may be started in the node's present mode.
    pub fn relay_allowed(&self) -> (allowed: bool)
        ensures
            allowed == self@.relay_allowed(),
    {
        match self.node_mode {
            NodeMode::RpcServer => false,
            _ => true,
        }
    }
}

/// Every transition keeps the record well formed: a stopped or failed agent
/// is standalone and in no cluster, and a stopped one tracks nothing.
pub proof fn lemma_transitions_keep_wf(
    m: AgentModel,
    port: u16,
    pid: Option<u32>,
    worker_pid: u32,
    now: u64,
    text: Seq<char>,
    cluster: Option<Seq<char>>,
    task: u64,
)
    requires
        m.wf(),
    ensures
        AgentModel::initial().wf(),
        m.start(port).wf(),
        m.fail_start().wf(),
        m.launched(pid, now, text, text).wf(),
        m.ready().wf(),
        m.engine_exit().wf(),
        m.worker_exit().wf(),
        m.begin_stop().wf(),
        m.finish_stop().wf(),
        m.release_engine().wf(),
        m.enter_worker(worker_pid, cluster).wf(),
        m.begin_coordinator_restart().wf(),
        m.relaunched(worker_pid).wf(),
        m.enter_coordinator(cluster).wf(),
        m.enter_standalone().wf(),
        m.add_task(task).wf(),
{
}

/// Whenever the agent comes to be stopped or failed, it is standalone: a
/// failed start, a crash of the engine or of the worker, and a completed stop
/// all reset the node mode and leave the cluster.
pub proof fn lemma_mode_reset_on_error_or_stop(m: AgentModel)
    requires
        m.wf(),
    ensures
        m.fail_start().status is Error ==> m.fail_start().node_mode is Standalone
            && m.fail_start().cluster_id is None,
        m.exit_is_crash() ==> m.engine_exit().status is Error && m.engine_exit().node_mode
            is Standalone && m.engine_exit().cluster_id is None,
        m.worker_exit_is_crash() ==> m.worker_exit().status is Error && m.worker_exit().node_mode
            is Standalone && m.worker_exit().cluster_id is None,
        m.status is Stopping ==> m.finish_stop().status is Stopped && m.finish_stop().node_mode
            is Standalone && m.finish_stop().cluster_id is None,
{
}

/// A stop command on a stopped agent is refused and leaves the record as it
/// was, so there is no plan and nothing to cancel or terminate. A start
/// command on a running agent is refused and leaves the record as it was, so
/// nothing is launched.
pub proof fn lemma_refused_commands_change_nothing(m: AgentModel, port: u16)
    ensures
        m.status is Stopped ==> m.stop_refused() && m.begin_stop() == m,
        m.status is Running ==> m.start_refused() && m.start(port) == m,
        m.status is Starting ==> m.start_refused() && m.start(port) == m,
{
}

/// An exit of the engine while the agent is running, with no stop command
/// before it, makes the agent failed. The same exit after a stop command was
/// accepted changes nothing, and carrying the stop out then leaves the agent
/// stopped: it is never failed on the way.
pub proof fn lemma_crash_classification(m: AgentModel)
    requires
        m.status is Running,
    ensures
        m.exit_is_crash(),
        m.engine_exit().status is Error,
        !m.begin_stop().exit_is_crash(),
        m.begin_stop().status is Stopping,
        m.begin_stop().engine_exit() == m.begin_stop(),
        m.begin_stop().engine_exit().finish_stop().status is Stopped,
{
}


/// A change of role survives the exit of the engine that was given up for
/// it. After a running agent released its engine for a worker, or tore it
/// down to relaunch it as coordinator, the exit of that engine changes
/// nothing: the worker is still taken, and the relaunched engine is still
/// recorded, made ready and given its role.
pub proof fn lemma_role_change_survives_exit(
    m: AgentModel,
    engine: u32,
    relaunched: u32,
    worker: u32,
    cluster: Option<Seq<char>>,
)
    requires
        m.status is Running,
        m.pid == Some(engine),
    ensures
        m.release_engine().exit_of(Some(engine)) == m.release_engine(),
        m.release_engine().exit_of(Some(engine)).enter_worker(worker, cluster).node_mode
            is RpcServer,
        m.begin_coordinator_restart().exit_of(Some(engine)) == m.begin_coordinator_restart(),
        m.begin_coordinator_restart().exit_of(Some(engine)).relaunched(relaunched).pid == Some(
            relaunched,
        ),
        m.begin_coordinator_restart().exit_of(Some(engine)).relaunched(
            relaunched,
        ).ready().enter_coordinator(cluster).status is Running,
        m.begin_coordinator_restart().exit_of(Some(engine)).relaunched(
            relaunched,
        ).ready().enter_coordinator(cluster).node_mode is Coordinator,
{
}

/// The exit of the engine that a running agent tracks, with no stop command
/// before it, makes the agent failed; the exit of any other process leaves
/// the record as it is.
pub proof fn lemma_tracked_exit_is_crash(m: AgentModel, exited: Option<u32>)
    requires
        m.status is Running,
    ensures
        m.pid == exited ==> m.exit_of(exited).status is Error,
        m.pid != exited ==> m.exit_of(exited) == m,
        m.begin_stop().exit_of(exited).status is Stopping,
{
}

} // verus!

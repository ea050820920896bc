use crate::text::{
    decimal, decimal_string, join, joined, push_decimal, signed_decimal, signed_decimal_string, views,
};
use crate::json::{field_text, json_field_text};
use crate::state::AgentStatus;
use crate::text::str_eq;
use std::collections::HashMap;
use vstd::prelude::*;

verus! {

/// Smallest context, in tokens, that one parallel slot may be given.
pub const MIN_SLOT_CONTEXT: u32 = 4096;

/// The slot count that a launch uses for a requested context size and slot count.
pub open spec fn adjusted_slots(ctx_size: u32, parallel_slots: u32) -> u32 {
    if parallel_slots <= 1 {
        parallel_slots
    } else if ctx_size / parallel_slots < MIN_SLOT_CONTEXT {
        if ctx_size / MIN_SLOT_CONTEXT >= 1 {
            ctx_size / MIN_SLOT_CONTEXT
        } else {
            1
        }
    } else {
        parallel_slots
    }
}

/// Lowers the slot count until every slot has at least `MIN_SLOT_CONTEXT` tokens.
pub fn adjust_parallel_slots(ctx_size: u32, parallel_slots: u32) -> (slots: u32)
    ensures
        slots == adjusted_slots(ctx_size, parallel_slots),
{
    if parallel_slots <= 1 {
        return parallel_slots;
    }
    let per_slot: u32 = ctx_size / parallel_slots;
    if per_slot < MIN_SLOT_CONTEXT {
        let fit: u32 = ctx_size / MIN_SLOT_CONTEXT;
        if fit >= 1 { fit } else { 1 }
    } else {
        parallel_slots
    }
}


/// What the engine is launched with. Built anew for every launch and never changed in place.
#[derive(Debug, Clone)]
pub struct LlamaServerConfig {
    pub binary_path: String,
    pub model_path: String,
    pub host: String,
    pub port: u16,
    pub gpu_layers: i32,
    pub ctx_size: u32,
    pub parallel_slots: u32,
    pub env_vars: HashMap<String, String>,
    pub rpc_peers: Option<Vec<String>>,
}

/// The arguments that every launch carries, whatever the topology, for a
/// given number of parallel slots.
pub open spec fn base_args(config: LlamaServerConfig, slots: u32) -> Seq<Seq<char>> {
    seq![
        "-m"@,
        config.model_path@,
        "--host"@,
        config.host@,
        "--port"@,
        decimal(config.port as nat),
        "-ngl"@,
        signed_decimal(config.gpu_layers as int),
        "--ctx-size"@,
        decimal(config.ctx_size as nat),
        "-np"@,
        decimal(slots as nat),
        "--jinja"@,
    ]
}

/// The peers that a launch names: those of the configuration, where it has any.
pub open spec fn launch_peers(config: LlamaServerConfig) -> Seq<Seq<char>> {
    match config.rpc_peers {
        Some(peers) => views(peers@),
        None => Seq::empty(),
    }
}

/// The engine's command line for a given number of slots: the base arguments,
/// then `--rpc` and the comma-separated peers where there is at least one peer.
pub open spec fn args_with_slots(config: LlamaServerConfig, slots: u32) -> Seq<Seq<char>> {
    if launch_peers(config).len() > 0 {
        base_args(config, slots) + seq!["--rpc"@, joined(launch_peers(config), ","@)]
    } else {
        base_args(config, slots)
    }
}

/// The engine's command line: that for the adjusted slot count, so that no
/// launch gives a slot fewer than `MIN_SLOT_CONTEXT` tokens where the
/// context allows that many.
pub open spec fn llama_args(config: LlamaServerConfig) -> Seq<Seq<char>> {
    args_with_slots(config, adjusted_slots(config.ctx_size, config.parallel_slots))
}

/// The slot count that a command line names: the number behind `-np`.
pub open spec fn named_slots(config: LlamaServerConfig) -> Seq<char> {
    llama_args(config)[11]
}

fn build_args(config: &LlamaServerConfig, slots: u32) -> (args: Vec<String>)
    ensures
        views(args@) == args_with_slots(*config, slots),
{
    let mut args: Vec<String> = Vec::new();
    args.push("-m".to_owned());
    args.push(config.model_path.clone());
    args.push("--host".to_owned());
    args.push(config.host.clone());
    args.push("--port".to_owned());
    args.push(decimal_string(config.port as u64));
    args.push("-ngl".to_owned());
    args.push(signed_decimal_string(config.gpu_layers as i64));
    args.push("--ctx-size".to_owned());
    args.push(decimal_string(config.ctx_size as u64));
    args.push("-np".to_owned());
    args.push(decimal_string(slots as u64));
    args.push("--jinja".to_owned());
    assert(views(args@) =~= base_args(*config, slots));
    match &config.rpc_peers {
        Some(peers) => {
            if peers.len() > 0 {
                args.push("--rpc".to_owned());
                args.push(join(peers, ","));
                assert(views(args@) =~= args_with_slots(*config, slots));
            }
        },
        None => {},
    }
    args
}

/// Builds the engine's command line from its launch configuration. The
/// slot count is lowered where the configured slots would each get fewer
/// than `MIN_SLOT_CONTEXT` tokens.
pub fn build_llama_args(config: &LlamaServerConfig) -> (args: Vec<String>)
    ensures
        views(args@) == llama_args(*config),
{
    build_args(config, adjust_parallel_slots(config.ctx_size, config.parallel_slots))
}

/// The warning raised when the slot count had to be lowered.
pub open spec fn slot_warning(ctx_size: u32, parallel_slots: u32) -> Seq<char> {
    "Reduced parallel_slots from "@ + decimal(parallel_slots as nat) + " to "@ + decimal(
        adjusted_slots(ctx_size, parallel_slots) as nat,
    ) + " (per-slot context "@ + decimal((ctx_size / parallel_slots) as nat) + " < 4096)"@
}

/// A command line together with the slot count it was built for.
#[derive(Debug, Clone)]
pub struct LaunchPlan {
    pub args: Vec<String>,
    pub parallel_slots: u32,
    pub warning: Option<String>,
}

/// Computes the engine's command line. Where the configured slots would each
/// get fewer than `MIN_SLOT_CONTEXT` tokens, the slot count is lowered and a
/// warning says so; the computation never fails.
pub fn compute_launch_args(config: &LlamaServerConfig) -> (plan: LaunchPlan)
    ensures
        plan.parallel_slots == adjusted_slots(config.ctx_size, config.parallel_slots),
        views(plan.args@) == args_with_slots(*config, plan.parallel_slots),
        plan.warning is Some <==> plan.parallel_slots != config.parallel_slots,
        plan.warning matches Some(text) ==> text@ == slot_warning(
            config.ctx_size,
            config.parallel_slots,
        ),
{
    let slots = adjust_parallel_slots(config.ctx_size, config.parallel_slots);
    let args = build_args(config, slots);
    let warning = if slots != config.parallel_slots {
        let mut text = "Reduced parallel_slots from ".to_owned();
        push_decimal(&mut text, config.parallel_slots as u64);
        text.append(" to ");
        push_decimal(&mut text, slots as u64);
        text.append(" (per-slot context ");
        push_decimal(&mut text, (config.ctx_size / config.parallel_slots) as u64);
        text.append(" < 4096)");
        Some(text)
    } else {
        None
    };
    LaunchPlan { args, parallel_slots: slots, warning }
}

/// With a context of at least `MIN_SLOT_CONTEXT` tokens and at least one slot
/// asked for, the adjusted slot count is at least one, no larger than what
/// was asked for, and gives every slot at least `MIN_SLOT_CONTEXT` tokens.
pub proof fn lemma_slot_context_floor(ctx_size: u32, parallel_slots: u32)
    requires
        ctx_size >= MIN_SLOT_CONTEXT,
        parallel_slots >= 1,
    ensures
        1 <= adjusted_slots(ctx_size, parallel_slots) <= parallel_slots,
        ctx_size / adjusted_slots(ctx_size, parallel_slots) >= MIN_SLOT_CONTEXT,
{
    let c = ctx_size as int;
    let p = parallel_slots as int;
    if p > 1 && c / p < 4096 {
        let q = c / 4096;
        assert(q >= 1 && c >= 4096 * q && q < p) by (nonlinear_arith)
            requires
                q == c / 4096,
                c >= 4096,
                p > 1,
                c / p < 4096,
        ;
        assert(c / q >= 4096) by (nonlinear_arith)
            requires
                q >= 1,
                c >= 4096 * q,
        ;
    }
}

/// The command line of a launch never names slots of fewer than
/// `MIN_SLOT_CONTEXT` tokens: with a context of at least that many tokens
/// and at least one slot configured, the number behind `-np` is the numeral
/// of a count that is at least one and leaves every slot its share.
pub proof fn lemma_command_line_keeps_floor(config: LlamaServerConfig)
    requires
        config.ctx_size >= MIN_SLOT_CONTEXT,
        config.parallel_slots >= 1,
    ensures
        llama_args(config)[10] == "-np"@,
        named_slots(config) == decimal(
            adjusted_slots(config.ctx_size, config.parallel_slots) as nat,
        ),
        adjusted_slots(config.ctx_size, config.parallel_slots) >= 1,
        config.ctx_size / adjusted_slots(config.ctx_size, config.parallel_slots)
            >= MIN_SLOT_CONTEXT,
{
    lemma_slot_context_floor(config.ctx_size, config.parallel_slots);
}

/// A slot count that already leaves every slot `MIN_SLOT_CONTEXT` tokens is
/// kept as it is, and so is a count of one or none.
pub proof fn lemma_sufficient_slots_unchanged(ctx_size: u32, parallel_slots: u32)
    requires
        parallel_slots <= 1 || ctx_size / parallel_slots >= MIN_SLOT_CONTEXT,
    ensures
        adjusted_slots(ctx_size, parallel_slots) == parallel_slots,
{
}


/// The address of one of the engine's local services.
pub open spec fn local_url_text(port: u16, path: Seq<char>) -> Seq<char> {
    "http://127.0.0.1:"@ + decimal(port as nat) + path
}

/// The address of one of the engine's local services.
pub fn local_url(port: u16, path: &str) -> (url: String)
    ensures
        url@ == local_url_text(port, path@),
{
    let mut url = "http://127.0.0.1:".to_owned();
    push_decimal(&mut url, port as u64);
    url.append(path);
    url
}

/// Where the engine's health is asked.
pub fn health_url(port: u16) -> (url: String)
    ensures
        url@ == local_url_text(port, "/health"@),
{
    local_url(port, "/health")
}

/// Where completions are asked of the engine.
pub fn completions_url(port: u16) -> (url: String)
    ensures
        url@ == local_url_text(port, "/v1/chat/completions"@),
{
    local_url(port, "/v1/chat/completions")
}

/// Where the engine's counters are read.
pub fn metrics_url(port: u16) -> (url: String)
    ensures
        url@ == local_url_text(port, "/metrics"@),
{
    local_url(port, "/metrics")
}

/// What the engine says of its health.
#[derive(Debug, Clone, Copy, PartialEq, Eq, Structural)]
pub enum HealthStatus {
    /// The engine serves requests.
    Ready,
    /// The engine is loading its model.
    Loading,
    /// The engine said something else, or nothing that could be read.
    Unknown,
}

/// What a status text of the engine means.
pub open spec fn health_of(status: Option<Seq<char>>) -> HealthStatus {
    if status == Some("ok"@) {
        HealthStatus::Ready
    } else if status == Some("loading model"@) {
        HealthStatus::Loading
    } else {
        HealthStatus::Unknown
    }
}

/// Tells what a status text of the engine means.
pub fn health_of_status(status: Option<&str>) -> (health: HealthStatus)
    ensures
        health == health_of(
            match status {
                Some(text) => Some(text@),
                None => None,
            },
        ),
{
    match status {
        Some(text) => {
            if str_eq(text, "ok") {
                HealthStatus::Ready
            } else if str_eq(text, "loading model") {
                HealthStatus::Loading
            } else {
                HealthStatus::Unknown
            }
        },
        None => HealthStatus::Unknown,
    }
}

/// Reads the engine's health out of the body of its answer.
pub fn read_health(body: &str) -> (health: HealthStatus)
    ensures
        health == health_of(json_field_text(body@, "status"@)),
{
    let status = field_text(body, "status");
    match &status {
        Some(text) => health_of_status(Some(text.as_str())),
        None => health_of_status(None),
    }
}

/// Seconds between two polls of the engine's health.
pub const POLL_INTERVAL_SECS: u64 = 2;

/// What the wait for the engine's readiness does next.
#[derive(Debug, Clone, Copy, PartialEq, Eq, Structural)]
pub enum WaitStep {
    /// The engine is ready.
    Ready,
    /// The time is up: the launch has failed.
    TimedOut,
    /// Sleep for `POLL_INTERVAL_SECS` and ask again.
    PollAgain,
    /// The agent was stopped or has failed meanwhile: give the wait up.
    Abandoned,
}

/// The wait for the engine's readiness: when it began and how long it may
/// last, in seconds.
#[derive(Debug, Clone, Copy, PartialEq, Eq, Structural)]
pub struct ReadyWait {
    pub started_at: u64,
    pub timeout_secs: u64,
}

impl ReadyWait {
    /// The step for the time `now` and the health last read, if any was:
    /// only a ready engine ends the wait with success, however much time
    /// has passed; the wait fails once more than the timeout has passed.
    pub open spec fn step(self, now: u64, health: Option<HealthStatus>) -> WaitStep {
        if health == Some(HealthStatus::Ready) {
            WaitStep::Ready
        } else if now - self.started_at > self.timeout_secs {
            WaitStep::TimedOut
        } else {
            WaitStep::PollAgain
        }
    }

    /// The step where the agent's status is known too: a wait for an agent
    /// that was stopped or has failed is given up at once; otherwise the
    /// step is that for the time and the health.
    pub open spec fn step_while(
        self,
        now: u64,
        health: Option<HealthStatus>,
        status: AgentStatus,
    ) -> WaitStep {
        if status is Stopped || status is Stopping || status is Error {
            WaitStep::Abandoned
        } else {
            self.step(now, health)
        }
    }

    /// A wait that begins at `now`.
    pub fn begin(now: u64, timeout_secs: u64) -> (wait: ReadyWait)
        ensures
            wait.started_at == now,
            wait.timeout_secs == timeout_secs,
    {
        ReadyWait { started_at: now, timeout_secs }
    }

    /// Decides what the wait does next.
    pub fn next(&self, now: u64, health: Option<HealthStatus>) -> (step: WaitStep)
        ensures
            step == self.step(now, health),
    {
        let ready = match health {
            Some(HealthStatus::Ready) => true,
            _ => false,
        };
        if ready {
            WaitStep::Ready
        } else if now > self.started_at && now - self.started_at > self.timeout_secs {
            WaitStep::TimedOut
        } else {
            WaitStep::PollAgain
        }
    }

    /// Decides what the wait does next, given the agent's status.
    pub fn next_while(&self, now: u64, health: Option<HealthStatus>, status: AgentStatus) -> (step:
        WaitStep)
        ensures
            step == self.step_while(now, health, status),
    {
        match status {
            AgentStatus::Stopped | AgentStatus::Stopping | AgentStatus::Error => {
                WaitStep::Abandoned
            },
            _ => self.next(now, health),
        }
    }

    /// The error of a wait that timed out.
    pub fn timeout_message(&self) -> (text: String)
        ensures
            text@ == "llama-server did not become ready within "@ + decimal(
                self.timeout_secs as nat,
            ) + " seconds"@,
    {
        let mut text = "llama-server did not become ready within ".to_owned();
        push_decimal(&mut text, self.timeout_secs);
        text.append(" seconds");
        text
    }
}

/// The wait ends with success only on the engine's own word: without a
/// ready engine no amount of time makes it succeed.
pub proof fn lemma_ready_only_by_signal(wait: ReadyWait, now: u64, health: Option<HealthStatus>)
    ensures
        wait.step(now, health) is Ready <==> health == Some(HealthStatus::Ready),
        forall|status: AgentStatus| #[trigger]
            wait.step_while(now, health, status) is Ready ==> health == Some(HealthStatus::Ready),
{
}


/// The command line of the worker process that serves on `port`.
pub fn rpc_server_args(port: u16) -> (args: Vec<String>)
    ensures
        views(args@) == seq!["--host"@, "0.0.0.0"@, "--port"@, decimal(port as nat)],
{
    let mut args: Vec<String> = Vec::new();
    args.push("--host".to_owned());
    args.push("0.0.0.0".to_owned());
    args.push("--port".to_owned());
    args.push(decimal_string(port as u64));
    assert(views(args@) =~= seq!["--host"@, "0.0.0.0"@, "--port"@, decimal(port as nat)]);
    args
}

/// `dir` is one of `dirs`.
pub open spec fn lists_dir(dirs: Seq<Seq<char>>, dir: Seq<char>) -> bool {
    exists|i: int| 0 <= i < dirs.len() && dirs[i] == dir
}

/// Adds a directory to the directories searched for the engine's shared
/// libraries, unless it is among them already.
pub fn push_unique(dirs: &mut Vec<String>, dir: String)
    ensures
        views(final(dirs)@) == if lists_dir(views(old(dirs)@), dir@) {
            views(old(dirs)@)
        } else {
            views(old(dirs)@).push(dir@)
        },
{
    let mut i: usize = 0;
    while i < dirs.len()
        invariant
            i <= dirs.len(),
            *dirs == *old(dirs),
            forall|j: int| 0 <= j < i ==> views(dirs@)[j] != dir@,
        decreases dirs.len() - i,
    {
        if str_eq(dirs[i].as_str(), dir.as_str()) {
            assert(views(dirs@)[i as int] == dir@);
            return ;
        }
        i += 1;
    }
    let ghost before = views(dirs@);
    dirs.push(dir);
    assert(views(dirs@) =~= before.push(dir@));
}

/// The separator between the directories of a search path.
pub open spec fn path_separator(windows: bool) -> Seq<char> {
    if windows {
        ";"@
    } else {
        ":"@
    }
}

/// The value of the search-path variable set before every launch: the
/// directories that hold the engine's shared libraries, then the path that
/// was inherited, if any.
pub open spec fn search_path_text(
    dirs: Seq<Seq<char>>,
    inherited: Option<Seq<char>>,
    windows: bool,
) -> Seq<char> {
    joined(
        match inherited {
            Some(path) => dirs.push(path),
            None => dirs,
        },
        path_separator(windows),
    )
}

/// Builds the value of the search-path variable for a launch.
pub fn search_path_value(dirs: &Vec<String>, inherited: Option<&str>, windows: bool) -> (value:
    String)
    ensures
        value@ == search_path_text(
            views(dirs@),
            match inherited {
                Some(path) => Some(path@),
                None => None,
            },
            windows,
        ),
{
    let separator = if windows {
        ";"
    } else {
        ":"
    };
    match inherited {
        Some(path) => {
            let mut all: Vec<String> = Vec::new();
            let mut i: usize = 0;
            while i < dirs.len()
                invariant
                    i <= dirs.len(),
                    all@.len() == i,
                    views(all@) == views(dirs@).take(i as int),
                decreases dirs.len() - i,
            {
                let ghost before = views(all@);
                all.push(dirs[i].clone());
                assert(views(all@) =~= before.push(dirs@[i as int]@));
                assert(views(dirs@).take(i + 1) =~= views(dirs@).take(i as int).push(
                    dirs@[i as int]@,
                ));
                i += 1;
            }
            assert(views(dirs@).take(dirs@.len() as int) =~= views(dirs@));
            let ghost listed = views(all@);
            all.push(path.to_owned());
            assert(views(all@) =~= listed.push(path@));
            join(&all, separator)
        },
        None => join(dirs, separator),
    }
}

} // verus!

use crate::text::{contains, str_contains};
use vstd::prelude::*;

verus! {

/// The settings of an agent.
#[derive(Debug, Clone)]
pub struct AgentConfig {
    pub private_key: String,
    pub model: String,
    pub model_file: String,
    pub device: String,
    pub oracle_url: String,
    pub chain_rpc: String,
    pub http_port: u16,
    pub gpu_layers: i32,
    pub ctx_size: u32,
    pub parallel_slots: u32,
    pub ram_limit_gb: u32,
    pub distributed_mode: String,
    pub rpc_port: u16,
}

/// The settings of an agent as a mathematical value.
pub struct ConfigModel {
    pub private_key: Seq<char>,
    pub model: Seq<char>,
    pub model_file: Seq<char>,
    pub device: Seq<char>,
    pub oracle_url: Seq<char>,
    pub chain_rpc: Seq<char>,
    pub http_port: u16,
    pub gpu_layers: i32,
    pub ctx_size: u32,
    pub parallel_slots: u32,
    pub ram_limit_gb: u32,
    pub distributed_mode: Seq<char>,
    pub rpc_port: u16,
}

impl View for AgentConfig {
    type V = ConfigModel;

    open spec fn view(&self) -> ConfigModel {
        ConfigModel {
            private_key: self.private_key@,
            model: self.model@,
            model_file: self.model_file@,
            device: self.device@,
            oracle_url: self.oracle_url@,
            chain_rpc: self.chain_rpc@,
            http_port: self.http_port,
            gpu_layers: self.gpu_layers,
            ctx_size: self.ctx_size,
            parallel_slots: self.parallel_slots,
            ram_limit_gb: self.ram_limit_gb,
            distributed_mode: self.distributed_mode@,
            rpc_port: self.rpc_port,
        }
    }
}

/// The port that an agent serves on unless told otherwise.
pub const DEFAULT_HTTP_PORT: u16 = 18920;

/// The HTTP port that earlier releases served on.
pub const LEGACY_HTTP_PORT: u16 = 8080;

/// The context size of earlier releases.
pub const LEGACY_CTX_SIZE: u32 = 8192;

/// The slot count of earlier releases.
pub const LEGACY_PARALLEL_SLOTS: u32 = 4;

/// The repository of the model that an agent serves unless told otherwise.
pub open spec fn default_model_text() -> Seq<char> {
    "Qwen/Qwen3-32B-GGUF"@
}

/// The file of the model that an agent serves unless told otherwise.
pub open spec fn default_model_file_text() -> Seq<char> {
    "Qwen3-32B-Q4_K_M.gguf"@
}

/// The address of the coordination service.
pub open spec fn default_oracle_url_text() -> Seq<char> {
    "https://plug.plumise.com/oracle"@
}

/// The address of the chain's RPC service.
pub open spec fn default_chain_rpc_text() -> Seq<char> {
    "https://plug.plumise.com/rpc/plug_live_6VuDzRY1lNoA2noX0lSPGQlm9itOF9td4Jvvd4eAMzE"@
}

/// The settings of an agent that has not been configured.
pub open spec fn default_config() -> ConfigModel {
    ConfigModel {
        private_key: Seq::empty(),
        model: default_model_text(),
        model_file: default_model_file_text(),
        device: "auto"@,
        oracle_url: default_oracle_url_text(),
        chain_rpc: default_chain_rpc_text(),
        http_port: DEFAULT_HTTP_PORT,
        gpu_layers: 99,
        ctx_size: 32768,
        parallel_slots: 1,
        ram_limit_gb: 0,
        distributed_mode: "auto"@,
        rpc_port: 50052,
    }
}

/// The model file of settings that name none.
pub fn default_model_file() -> (name: String)
    ensures
        name@ == default_model_file_text(),
{
    "Qwen3-32B-Q4_K_M.gguf".to_owned()
}

/// The number of layers offloaded to the graphics processor where settings name none: all.
pub fn default_gpu_layers() -> (layers: i32)
    ensures
        layers == 99,
{
    99
}

/// The context size, in tokens, of settings that name none.
pub fn default_ctx_size() -> (size: u32)
    ensures
        size == 32768,
{
    32768
}

/// The number of parallel slots of settings that name none.
pub fn default_parallel_slots() -> (slots: u32)
    ensures
        slots == 1,
{
    1
}

/// The memory limit of settings that name none: zero, which stands for no limit.
pub fn default_ram_limit_gb() -> (limit: u32)
    ensures
        limit == 0,
{
    0
}

/// The setting for distributed serving where settings name none: left to the coordination service.
pub fn default_distributed_mode() -> (mode: String)
    ensures
        mode@ == "auto"@,
{
    "auto".to_owned()
}

/// The port of the worker process where settings name none.
pub fn default_rpc_port() -> (port: u16)
    ensures
        port == 50052,
{
    50052
}

impl Default for AgentConfig {
    fn default() -> (config: AgentConfig)
        ensures
            config@ == default_config(),
    {
        AgentConfig {
            private_key: String::new(),
            model: "Qwen/Qwen3-32B-GGUF".to_owned(),
            model_file: default_model_file(),
            device: "auto".to_owned(),
            oracle_url: "https://plug.plumise.com/oracle".to_owned(),
            chain_rpc: "https://plug.plumise.com/rpc/plug_live_6VuDzRY1lNoA2noX0lSPGQlm9itOF9td4Jvvd4eAMzE".to_owned(),
            http_port: DEFAULT_HTTP_PORT,
            gpu_layers: default_gpu_layers(),
            ctx_size: default_ctx_size(),
            parallel_slots: default_parallel_slots(),
            ram_limit_gb: default_ram_limit_gb(),
            distributed_mode: default_distributed_mode(),
            rpc_port: default_rpc_port(),
        }
    }
}

/// Settings written by an earlier release, brought up to date: the old port,
/// model, slot count, context size and service addresses give way to the
/// present defaults. Each rule looks at the settings as the rules before it
/// left them.
pub open spec fn migrated(config: ConfigModel) -> ConfigModel {
    let old_model = contains(config.model, "gpt-oss-20b"@);
    let old_slots = config.parallel_slots == LEGACY_PARALLEL_SLOTS && config.ctx_size
        <= LEGACY_CTX_SIZE;
    let old_rpc = contains(config.chain_rpc, "node-1.plumise.com"@) || contains(
        config.chain_rpc,
        "plug_live_w9mS7DOAqMGlhyYwhLa8MOE"@,
    );
    ConfigModel {
        http_port: if config.http_port == LEGACY_HTTP_PORT {
            DEFAULT_HTTP_PORT
        } else {
            config.http_port
        },
        model: if old_model {
            default_model_text()
        } else {
            config.model
        },
        model_file: if old_model {
            default_model_file_text()
        } else {
            config.model_file
        },
        parallel_slots: if old_slots {
            1
        } else {
            config.parallel_slots
        },
        ctx_size: if config.ctx_size == LEGACY_CTX_SIZE {
            32768
        } else {
            config.ctx_size
        },
        oracle_url: if contains(config.oracle_url, "node-1.plumise.com"@) {
            default_oracle_url_text()
        } else {
            config.oracle_url
        },
        chain_rpc: if old_rpc {
            default_chain_rpc_text()
        } else {
            config.chain_rpc
        },
        ..config
    }
}

/// Brings settings written by an earlier release up to date.
pub fn migrate_config(config: &mut AgentConfig)
    ensures
        final(config)@ == migrated(old(config)@),
{
    if config.http_port == LEGACY_HTTP_PORT {
        config.http_port = DEFAULT_HTTP_PORT;
    }
    if str_contains(config.model.as_str(), "gpt-oss-20b") {
        config.model = "Qwen/Qwen3-32B-GGUF".to_owned();
        config.model_file = "Qwen3-32B-Q4_K_M.gguf".to_owned();
    }
    if config.parallel_slots == LEGACY_PARALLEL_SLOTS && config.ctx_size <= LEGACY_CTX_SIZE {
        config.parallel_slots = 1;
    }
    if config.ctx_size == LEGACY_CTX_SIZE {
        config.ctx_size = 32768;
    }
    if str_contains(config.oracle_url.as_str(), "node-1.plumise.com") {
        config.oracle_url = "https://plug.plumise.com/oracle".to_owned();
    }
    if str_contains(config.chain_rpc.as_str(), "node-1.plumise.com") || str_contains(
        config.chain_rpc.as_str(),
        "plug_live_w9mS7DOAqMGlhyYwhLa8MOE",
    ) {
        config.chain_rpc =
        "https://plug.plumise.com/rpc/plug_live_6VuDzRY1lNoA2noX0lSPGQlm9itOF9td4Jvvd4eAMzE".to_owned();
    }
}

/// The private key that the agent uses: the one from the key store where it
/// holds one that is not empty, else the one from the settings file.
pub open spec fn chosen_key(stored: Option<Seq<char>>, configured: Seq<char>) -> Seq<char> {
    match stored {
        Some(key) => if key.len() > 0 {
            key
        } else {
            configured
        },
        None => configured,
    }
}

/// Chooses between the private key of the key store, if it could be read,
/// and the one of the settings file.
pub fn choose_private_key(stored: Option<String>, configured: String) -> (key: String)
    ensures
        key@ == chosen_key(crate::text::opt_view(stored), configured@),
{
    match stored {
        Some(key) => {
            if key.as_str().unicode_len() > 0 {
                key
            } else {
                configured
            }
        },
        None => configured,
    }
}

/// The name under which the coordination service knows the model of a
/// repository.
pub open spec fn oracle_model_text(gguf_repo: Seq<char>) -> Seq<char> {
    if contains(gguf_repo, "Qwen3-32B"@) {
        "qwen/qwen3-32b"@
    } else if contains(gguf_repo, "Qwen3.5-397B"@) || contains(gguf_repo, "qwen3.5-397b"@) {
        "qwen/qwen3.5-397b-a17b"@
    } else {
        "qwen/qwen3-32b"@
    }
}

/// The name under which the coordination service knows the model of a
/// repository. A repository that is not known counts as the default model.
pub fn oracle_model_name(gguf_repo: &str) -> (name: &'static str)
    ensures
        name@ == oracle_model_text(gguf_repo@),
{
    if str_contains(gguf_repo, "Qwen3-32B") {
        "qwen/qwen3-32b"
    } else if str_contains(gguf_repo, "Qwen3.5-397B") || str_contains(gguf_repo, "qwen3.5-397b") {
        "qwen/qwen3.5-397b-a17b"
    } else {
        "qwen/qwen3-32b"
    }
}

/// The directory of the agent's settings below a home directory: the
/// agent's own directory appended with one separator, or the bare directory
/// name where no home directory is known.
pub open spec fn config_dir_text(home: Option<Seq<char>>) -> Seq<char> {
    match home {
        None => ".plumise-agent"@,
        Some(base) => if base.len() == 0 {
            ".plumise-agent"@
        } else if base.last() == '/' {
            base + ".plumise-agent"@
        } else {
            base + "/"@ + ".plumise-agent"@
        },
    }
}

/// The directory of the agent's settings, given the user's home directory
/// where one is known.
pub fn default_config_dir(home: Option<&str>) -> (dir: String)
    ensures
        dir@ == config_dir_text(
            match home {
                Some(h) => Some(h@),
                None => None,
            },
        ),
{
    match home {
        None => ".plumise-agent".to_owned(),
        Some(base) => {
            let chars = crate::text::chars_of(base);
            if chars.len() == 0 {
                ".plumise-agent".to_owned()
            } else if chars[chars.len() - 1] == '/' {
                let mut dir = base.to_owned();
                dir.append(".plumise-agent");
                dir
            } else {
                let mut dir = base.to_owned();
                dir.append("/");
                dir.append(".plumise-agent");
                dir
            }
        },
    }
}

} // verus!

use plumise_agent::config::{
    choose_private_key, default_config_dir, default_ctx_size, default_distributed_mode,
    default_gpu_layers, default_model_file, default_parallel_slots, default_ram_limit_gb,
    default_rpc_port, migrate_config, oracle_model_name, AgentConfig,
};

#[test]
fn defaults_are_as_documented() {
    let config = AgentConfig::default();
    assert_eq!(config.private_key, "");
    assert_eq!(config.model, "Qwen/Qwen3-32B-GGUF");
    assert_eq!(config.model_file, "Qwen3-32B-Q4_K_M.gguf");
    assert_eq!(config.device, "auto");
    assert_eq!(config.oracle_url, "https://plug.plumise.com/oracle");
    assert!(config.chain_rpc.starts_with("https://plug.plumise.com/rpc/"));
    assert_eq!(config.http_port, 18920);
    assert_eq!(config.gpu_layers, 99);
    assert_eq!(config.ctx_size, 32768);
    assert_eq!(config.parallel_slots, 1);
    assert_eq!(config.ram_limit_gb, 0);
    assert_eq!(config.distributed_mode, "auto");
    assert_eq!(config.rpc_port, 50052);
}

#[test]
fn default_functions_agree_with_default_config() {
    assert_eq!(default_model_file(), "Qwen3-32B-Q4_K_M.gguf");
    assert_eq!(default_gpu_layers(), 99);
    assert_eq!(default_ctx_size(), 32768);
    assert_eq!(default_parallel_slots(), 1);
    assert_eq!(default_ram_limit_gb(), 0);
    assert_eq!(default_distributed_mode(), "auto");
    assert_eq!(default_rpc_port(), 50052);
}

#[test]
fn default_config_needs_no_migration() {
    let mut config = AgentConfig::default();
    let before = config.clone();
    migrate_config(&mut config);
    assert_eq!(config.model, before.model);
    assert_eq!(config.model_file, before.model_file);
    assert_eq!(config.oracle_url, before.oracle_url);
    assert_eq!(config.chain_rpc, before.chain_rpc);
    assert_eq!(config.http_port, before.http_port);
    assert_eq!(config.ctx_size, before.ctx_size);
    assert_eq!(config.parallel_slots, before.parallel_slots);
}

#[test]
fn legacy_settings_are_migrated() {
    let mut config = AgentConfig::default();
    config.http_port = 8080;
    config.model = "ggml-org/gpt-oss-20b-GGUF".to_string();
    config.model_file = "gpt-oss-20b-mxfp4.gguf".to_string();
    config.parallel_slots = 4;
    config.ctx_size = 8192;
    config.oracle_url = "http://node-1.plumise.com:3000".to_string();
    config.chain_rpc = "http://node-1.plumise.com:8545".to_string();
    config.private_key = "0xkey".to_string();
    migrate_config(&mut config);
    assert_eq!(config.http_port, 18920);
    assert_eq!(config.model, "Qwen/Qwen3-32B-GGUF");
    assert_eq!(config.model_file, "Qwen3-32B-Q4_K_M.gguf");
    assert_eq!(config.parallel_slots, 1);
    assert_eq!(config.ctx_size, 32768);
    assert_eq!(config.oracle_url, "https://plug.plumise.com/oracle");
    assert_eq!(config.chain_rpc, AgentConfig::default().chain_rpc);
    assert_eq!(config.private_key, "0xkey");
}

#[test]
fn slots_are_kept_where_context_is_large() {
    let mut config = AgentConfig::default();
    config.parallel_slots = 4;
    config.ctx_size = 16384;
    migrate_config(&mut config);
    assert_eq!(config.parallel_slots, 4);
    assert_eq!(config.ctx_size, 16384);
    let mut small = AgentConfig::default();
    small.parallel_slots = 4;
    small.ctx_size = 4096;
    migrate_config(&mut small);
    assert_eq!(small.parallel_slots, 1);
    assert_eq!(small.ctx_size, 4096);
    let mut two = AgentConfig::default();
    two.parallel_slots = 2;
    two.ctx_size = 8192;
    migrate_config(&mut two);
    assert_eq!(two.parallel_slots, 2);
    assert_eq!(two.ctx_size, 32768);
}

#[test]
fn key_store_wins_over_settings_file() {
    assert_eq!(choose_private_key(Some("0xstore".to_string()), "0xfile".to_string()), "0xstore");
    assert_eq!(choose_private_key(Some(String::new()), "0xfile".to_string()), "0xfile");
    assert_eq!(choose_private_key(None, "0xfile".to_string()), "0xfile");
    assert_eq!(choose_private_key(None, String::new()), "");
}

#[test]
fn oracle_model_names() {
    assert_eq!(oracle_model_name("Qwen/Qwen3-32B-GGUF"), "qwen/qwen3-32b");
    assert_eq!(oracle_model_name("unsloth/Qwen3.5-397B-A17B-GGUF"), "qwen/qwen3.5-397b-a17b");
    assert_eq!(oracle_model_name("x/qwen3.5-397b"), "qwen/qwen3.5-397b-a17b");
    assert_eq!(oracle_model_name("something/else"), "qwen/qwen3-32b");
    assert_eq!(oracle_model_name(""), "qwen/qwen3-32b");
}

#[test]
fn config_dir_below_home() {
    assert_eq!(default_config_dir(Some("/home/ada")), "/home/ada/.plumise-agent");
    assert_eq!(default_config_dir(Some("/home/ada/")), "/home/ada/.plumise-agent");
    assert_eq!(default_config_dir(Some("")), ".plumise-agent");
    assert_eq!(default_config_dir(None), ".plumise-agent");
}

use plumise_agent::llama_bin::{
    asset_name, detect_asset_name, is_nvidia_name, model_complete, model_url, release_url,
    wanted_from_archive, AssetError, Platform,
};

#[test]
fn asset_depends_on_platform_and_card() {
    assert_eq!(
        detect_asset_name(Some("NVIDIA GeForce RTX 4090"), Platform::Linux),
        Ok("llama-b4722-bin-ubuntu-x64-cuda-cu12.4.zip".to_string())
    );
    assert_eq!(
        detect_asset_name(None, Platform::Linux),
        Ok("llama-b4722-bin-ubuntu-x64.zip".to_string())
    );
    assert_eq!(
        detect_asset_name(Some("AMD Radeon"), Platform::Linux),
        Ok("llama-b4722-bin-ubuntu-x64.zip".to_string())
    );
    assert_eq!(
        detect_asset_name(Some("Tesla RTX"), Platform::Windows),
        Ok("llama-b4722-bin-win-cuda-cu12.4-x64.zip".to_string())
    );
    assert_eq!(
        detect_asset_name(None, Platform::Windows),
        Ok("llama-b4722-bin-win-avx2-x64.zip".to_string())
    );
    assert_eq!(
        detect_asset_name(Some("Apple M2 (Metal)"), Platform::MacOs),
        Ok("llama-b4722-bin-macos-arm64.zip".to_string())
    );
    assert_eq!(
        detect_asset_name(Some("NVIDIA"), Platform::MacOs),
        Ok("llama-b4722-bin-macos-arm64.zip".to_string())
    );
}

#[test]
fn other_platforms_are_unsupported() {
    assert_eq!(detect_asset_name(None, Platform::Other), Err(AssetError::UnsupportedPlatform));
    assert_eq!(asset_name(Platform::Other, true), Err(AssetError::UnsupportedPlatform));
    assert_eq!(AssetError::UnsupportedPlatform.message(), "Unsupported platform");
}

#[test]
fn nvidia_names_are_read_in_lower_case() {
    assert!(is_nvidia_name("nvidia t4"));
    assert!(is_nvidia_name("geforce"));
    assert!(is_nvidia_name("quadro rtx 5000"));
    assert!(!is_nvidia_name("NVIDIA T4"));
    assert!(!is_nvidia_name("amd radeon"));
}

#[test]
fn programs_and_libraries_are_unpacked() {
    for name in [
        "llama-server",
        "rpc-server",
        "llama-cli",
        "rpc-server-extra",
        "ggml.dll",
        "libggml.so",
        "libllama.dylib",
        "ggml-metal.metal",
        "tool.exe",
    ] {
        assert!(wanted_from_archive(name), "{}", name);
    }
    for name in ["README.md", "LICENSE", "libggml.so.1", "", "server-llama"] {
        assert!(!wanted_from_archive(name), "{}", name);
    }
}

#[test]
fn download_addresses() {
    assert_eq!(
        release_url("llama-b4722-bin-ubuntu-x64.zip"),
        "https://github.com/ggml-org/llama.cpp/releases/download/b4722/llama-b4722-bin-ubuntu-x64.zip"
    );
    assert_eq!(
        model_url("Qwen/Qwen3-32B-GGUF", "Qwen3-32B-Q4_K_M.gguf"),
        "https://huggingface.co/Qwen/Qwen3-32B-GGUF/resolve/main/Qwen3-32B-Q4_K_M.gguf"
    );
}

#[test]
fn small_model_files_are_incomplete() {
    assert!(!model_complete(0));
    assert!(!model_complete(100 * 1024 * 1024));
    assert!(model_complete(100 * 1024 * 1024 + 1));
}

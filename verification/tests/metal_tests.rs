use plumise_agent::llama_bin::{is_server_binary, release_installed};
use plumise_agent::system::detect_metal_gpu;

#[test]
fn chipset_is_read_from_the_listing() {
    let listing = "Graphics/Displays:\n\n    Apple M2 Pro:\n\n      Chipset Model: Apple M2 Pro\n      Type: GPU\n";
    assert_eq!(
        detect_metal_gpu(Some(listing), 32768),
        ("Apple M2 Pro (Metal)".to_string(), 32768)
    );
    assert_eq!(
        detect_metal_gpu(Some("Chipset Model:AMD Radeon Pro:5500M\r\n"), 16384),
        ("AMD Radeon Pro (Metal)".to_string(), 16384)
    );
    assert_eq!(
        detect_metal_gpu(Some("\tChipset Model:\nChipset Model: Second"), 1),
        (" (Metal)".to_string(), 1)
    );
}

#[test]
fn listing_without_chipset_names_a_generic_processor() {
    assert_eq!(detect_metal_gpu(Some(""), 8192), ("Apple GPU (Metal)".to_string(), 8192));
    assert_eq!(
        detect_metal_gpu(Some("Model: x\nThe Chipset Model: y\n"), 8192),
        ("Apple GPU (Metal)".to_string(), 8192)
    );
    assert_eq!(detect_metal_gpu(None, 8192), ("Apple GPU (Metal)".to_string(), 0));
}

#[test]
fn server_binaries_are_told_by_name() {
    assert!(is_server_binary("llama-server"));
    assert!(is_server_binary("llama-server.exe"));
    assert!(is_server_binary("llama-server-x86_64-unknown-linux-gnu"));
    assert!(!is_server_binary("llama-server.dll"));
    assert!(!is_server_binary("llama-cli"));
    assert!(!is_server_binary("server"));
}

#[test]
fn pinned_release_is_installed_when_marker_matches() {
    assert!(release_installed(true, "b4722"));
    assert!(release_installed(true, " b4722\n"));
    assert!(!release_installed(false, "b4722"));
    assert!(!release_installed(true, "b4721"));
    assert!(!release_installed(true, "b47220"));
    assert!(!release_installed(true, ""));
}

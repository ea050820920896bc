use crate::text::{contains, ends_with, starts_with, str_contains, str_ends_with, str_eq, str_starts_with};
use vstd::prelude::*;

verus! {

/// A text in lower case, as std's `str::to_lowercase` gives it.
pub uninterp spec fn lowercased(text: Seq<char>) -> Seq<char>;

/// `str::to_lowercase` of std. The result depends on the text alone.
#[verifier::external_body]
pub(crate) fn to_lowercase(text: &str) -> (out: String)
    ensures
        out@ == lowercased(text@),
{
    text.to_lowercase()
}

/// The operating system that the engine is to run on.
#[derive(Debug, Clone, Copy, PartialEq, Eq, Structural)]
pub enum Platform {
    Linux,
    MacOs,
    Windows,
    Other,
}

/// Why no engine can be had for this machine.
#[derive(Debug, Clone, Copy, PartialEq, Eq, Structural)]
pub enum AssetError {
    UnsupportedPlatform,
}

impl AssetError {
    /// The error in words.
    pub fn message(&self) -> (text: &'static str)
        ensures
            text@ == "Unsupported platform"@,
    {
        "Unsupported platform"
    }
}

/// A graphics processor's name, in lower case, is that of an NVIDIA card.
pub open spec fn names_nvidia(lower: Seq<char>) -> bool {
    contains(lower, "nvidia"@) || contains(lower, "geforce"@) || contains(lower, "rtx"@)
}

/// Whether a graphics processor's name, in lower case, is that of an NVIDIA card.
pub fn is_nvidia_name(lower: &str) -> (yes: bool)
    ensures
        yes == names_nvidia(lower@),
{
    str_contains(lower, "nvidia") || str_contains(lower, "geforce") || str_contains(lower, "rtx")
}

/// The archive of the pinned engine release for a platform, with or
/// without support for NVIDIA cards.
pub open spec fn asset_for(platform: Platform, nvidia: bool) -> Option<Seq<char>> {
    match platform {
        Platform::Linux => if nvidia {
            Some("llama-b4722-bin-ubuntu-x64-cuda-cu12.4.zip"@)
        } else {
            Some("llama-b4722-bin-ubuntu-x64.zip"@)
        },
        Platform::MacOs => Some("llama-b4722-bin-macos-arm64.zip"@),
        Platform::Windows => if nvidia {
            Some("llama-b4722-bin-win-cuda-cu12.4-x64.zip"@)
        } else {
            Some("llama-b4722-bin-win-avx2-x64.zip"@)
        },
        Platform::Other => None,
    }
}

/// Names the archive of the pinned engine release for a platform.
pub fn asset_name(platform: Platform, nvidia: bool) -> (name: Result<&'static str, AssetError>)
    ensures
        match asset_for(platform, nvidia) {
            Some(text) => name matches Ok(n) && n@ == text,
            None => name is Err,
        },
{
    match platform {
        Platform::Linux => if nvidia {
            Ok("llama-b4722-bin-ubuntu-x64-cuda-cu12.4.zip")
        } else {
            Ok("llama-b4722-bin-ubuntu-x64.zip")
        },
        Platform::MacOs => Ok("llama-b4722-bin-macos-arm64.zip"),
        Platform::Windows => if nvidia {
            Ok("llama-b4722-bin-win-cuda-cu12.4-x64.zip")
        } else {
            Ok("llama-b4722-bin-win-avx2-x64.zip")
        },
        Platform::Other => Err(AssetError::UnsupportedPlatform),
    }
}

/// Names the archive of the pinned engine release for this machine, given
/// its platform and the name of its graphics processor, if it has one.
pub fn detect_asset_name(gpu_name: Option<&str>, platform: Platform) -> (name: Result<
    String,
    AssetError,
>)
    ensures
        match asset_for(
            platform,
            match gpu_name {
                Some(gpu) => names_nvidia(lowercased(gpu@)),
                None => false,
            },
        ) {
            Some(text) => name matches Ok(n) && n@ == text,
            None => name is Err,
        },
{
    let nvidia = match gpu_name {
        Some(gpu) => {
            let lower = to_lowercase(gpu);
            is_nvidia_name(lower.as_str())
        },
        None => false,
    };
    match asset_name(platform, nvidia) {
        Ok(n) => Ok(n.to_owned()),
        Err(e) => Err(e),
    }
}

/// A file of the engine's archive is unpacked where it is a program or a
/// shared library: by its ending, or by the beginning of its name.
pub open spec fn is_wanted(file_name: Seq<char>) -> bool {
    ends_with(file_name, ".exe"@) || ends_with(file_name, ".dll"@) || ends_with(
        file_name,
        ".so"@,
    ) || ends_with(file_name, ".dylib"@) || ends_with(file_name, ".metal"@) || file_name
        == "llama-server"@ || file_name == "rpc-server"@ || starts_with(file_name, "llama-"@)
        || starts_with(file_name, "rpc-server"@)
}

/// Whether a file of the engine's archive is unpacked.
pub fn wanted_from_archive(file_name: &str) -> (wanted: bool)
    ensures
        wanted == is_wanted(file_name@),
{
    str_ends_with(file_name, ".exe") || str_ends_with(file_name, ".dll") || str_ends_with(
        file_name,
        ".so",
    ) || str_ends_with(file_name, ".dylib") || str_ends_with(file_name, ".metal") || str_eq(
        file_name,
        "llama-server",
    ) || str_eq(file_name, "rpc-server") || str_starts_with(file_name, "llama-")
        || str_starts_with(file_name, "rpc-server")
}

/// Where the archive of the pinned engine release is fetched from.
pub fn release_url(asset: &str) -> (url: String)
    ensures
        url@ == "https://github.com/ggml-org/llama.cpp/releases/download/b4722/"@ + asset@,
{
    let mut url = "https://github.com/ggml-org/llama.cpp/releases/download/b4722/".to_owned();
    url.append(asset);
    url
}

/// Where a model file is fetched from.
pub fn model_url(repo: &str, file_name: &str) -> (url: String)
    ensures
        url@ == "https://huggingface.co/"@ + repo@ + "/resolve/main/"@ + file_name@,
{
    let mut url = "https://huggingface.co/".to_owned();
    url.append(repo);
    url.append("/resolve/main/");
    url.append(file_name);
    url
}

/// The smallest size, in bytes, of a model file that counts as complete.
pub const MIN_MODEL_BYTES: u64 = 104857600;

/// Whether a model file of this size counts as complete.
pub fn model_complete(size: u64) -> (complete: bool)
    ensures
        complete == (size > MIN_MODEL_BYTES),
{
    size > MIN_MODEL_BYTES
}


/// A file is the engine's program where its name begins with the engine
/// binary's name and it is no dynamic library.
pub open spec fn names_server(file_name: Seq<char>) -> bool {
    starts_with(file_name, "llama-server"@) && !ends_with(file_name, ".dll"@)
}

/// Whether a file of this name is the engine's program.
pub fn is_server_binary(file_name: &str) -> (yes: bool)
    ensures
        yes == names_server(file_name@),
{
    str_starts_with(file_name, "llama-server") && !str_ends_with(file_name, ".dll")
}

/// The engine release that is installed is the pinned one where the
/// program is there and the version marker, without the white space around
/// it, names the pinned release.
pub open spec fn is_installed(program_exists: bool, marker: Seq<char>) -> bool {
    program_exists && crate::text::trimmed(marker) == "b4722"@
}

/// Whether the pinned engine release is installed.
pub fn release_installed(program_exists: bool, marker: &str) -> (installed: bool)
    ensures
        installed == is_installed(program_exists, marker@),
{
    if !program_exists {
        return false;
    }
    let chars = crate::text::chars_of(marker);
    let kept = crate::text::trim(chars.as_slice());
    let pinned = crate::text::chars_of("b4722");
    if kept.len() != pinned.len() {
        return false;
    }
    let same = crate::text::matches_at(kept.as_slice(), pinned.as_slice(), 0);
    assert(kept@.subrange(0, kept@.len() as int) =~= kept@);
    same
}

} // verus!

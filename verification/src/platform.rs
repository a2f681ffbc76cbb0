use vstd::prelude::*;

verus! {

/// The operating system the launcher was built for.
#[derive(Clone, Copy, Debug, PartialEq, Eq, Structural)]
pub enum Os {
    Windows,
    Linux,
    MacOs,
    /// A Unix other than Linux and macOS.
    OtherUnix,
    Other,
}

/// The processor architecture the launcher was built for.
#[derive(Clone, Copy, Debug, PartialEq, Eq, Structural)]
pub enum Arch {
    X86_64,
    Aarch64,
    Other,
}

/// The build target, as far as the launcher's decisions depend on it.
#[derive(Clone, Copy, Debug, PartialEq, Eq, Structural)]
pub struct Platform {
    pub os: Os,
    pub arch: Arch,
}

impl Platform {
    pub open spec fn spec_is_windows(self) -> bool {
        self.os == Os::Windows
    }

    pub open spec fn spec_is_unix(self) -> bool {
        self.os == Os::Linux || self.os == Os::MacOs || self.os == Os::OtherUnix
    }

    /// Whether the target is Windows.
    #[verifier::when_used_as_spec(spec_is_windows)]
    pub fn is_windows(self) -> (r: bool)
        ensures
            r == self.spec_is_windows(),
    {
        match self.os {
            Os::Windows => true,
            _ => false,
        }
    }

    /// Whether the target belongs to the Unix family.
    #[verifier::when_used_as_spec(spec_is_unix)]
    pub fn is_unix(self) -> (r: bool)
        ensures
            r == self.spec_is_unix(),
    {
        match self.os {
            Os::Linux | Os::MacOs | Os::OtherUnix => true,
            _ => false,
        }
    }
}

/// The file name of the Neovim executable on the given platform.
pub open spec fn spec_nvim_executable_name(platform: Platform) -> Seq<char> {
    if platform.spec_is_windows() {
        "nvim.exe"@
    } else {
        "nvim"@
    }
}

/// Returns `nvim.exe` on Windows and `nvim` everywhere else.
pub fn nvim_executable_name(platform: Platform) -> (name: &'static str)
    ensures
        name@ == spec_nvim_executable_name(platform),
{
    if platform.is_windows() {
        "nvim.exe"
    } else {
        "nvim"
    }
}

/// Why no Neovim release can be downloaded for a platform.
#[derive(Clone, Copy, Debug, PartialEq, Eq, Structural)]
pub enum AssetError {
    UnsupportedPlatform,
}

/// The release archive published for the platform, if there is one.
pub open spec fn spec_release_asset(platform: Platform) -> Option<Seq<char>> {
    match (platform.os, platform.arch) {
        (Os::Windows, Arch::X86_64) => Some("nvim-win64.zip"@),
        (Os::Linux, Arch::X86_64) => Some("nvim-linux-x86_64.tar.gz"@),
        (Os::MacOs, Arch::X86_64) => Some("nvim-macos-x86_64.tar.gz"@),
        (Os::MacOs, Arch::Aarch64) => Some("nvim-macos-arm64.tar.gz"@),
        _ => None,
    }
}

/// The name of the Neovim release archive to download for the platform:
/// Windows, Linux and macOS on x86-64, and macOS on ARM64, have one;
/// every other platform gets `UnsupportedPlatform`.
pub fn neovim_release_asset(platform: Platform) -> (r: Result<&'static str, AssetError>)
    ensures
        match spec_release_asset(platform) {
            Some(name) => r matches Ok(asset) && asset@ == name,
            None => r == Err::<&'static str, AssetError>(AssetError::UnsupportedPlatform),
        },
{
    match (platform.os, platform.arch) {
        (Os::Windows, Arch::X86_64) => Ok("nvim-win64.zip"),
        (Os::Linux, Arch::X86_64) => Ok("nvim-linux-x86_64.tar.gz"),
        (Os::MacOs, Arch::X86_64) => Ok("nvim-macos-x86_64.tar.gz"),
        (Os::MacOs, Arch::Aarch64) => Ok("nvim-macos-arm64.tar.gz"),
        _ => Err(AssetError::UnsupportedPlatform),
    }
}

/// The message of an asset error.
pub open spec fn spec_asset_error_message(error: AssetError) -> Seq<char> {
    match error {
        AssetError::UnsupportedPlatform =>
            "automatic Neovim installation is not supported on this platform; install Neovim manually or set LAZYVIM_NVIM"@,
    }
}

/// What the launcher reports when no Neovim release exists for the platform.
pub fn asset_error_message(error: AssetError) -> (m: &'static str)
    ensures
        m@ == spec_asset_error_message(error),
{
    match error {
        AssetError::UnsupportedPlatform =>
            "automatic Neovim installation is not supported on this platform; install Neovim manually or set LAZYVIM_NVIM",
    }
}

} // verus!

use lib::home::{expand_home, resolve_home, user_home_dir, HomeError, HomeSource};
use lib::install::{
    archive_path, download_url, downloads_dir, extract_method, extract_temp_dir, install_dir, installed_nvim,
    make_nvim_executable, ExtractMethod,
};
use lib::launch::{nvim_environment, print_locations, EnvValue};
use lib::paths::{JoinedPath, Root};
use lib::platform::{neovim_release_asset, nvim_executable_name, Arch, AssetError, Os, Platform};
use lib::runtime::{directories_to_create, nvim_candidates, resolve_nvim, runtime_layout, search_path_prefix};

const LINUX: Platform = Platform { os: Os::Linux, arch: Arch::X86_64 };
const WINDOWS: Platform = Platform { os: Os::Windows, arch: Arch::X86_64 };
const MAC_ARM: Platform = Platform { os: Os::MacOs, arch: Arch::Aarch64 };

/// Shows a path with its root in angle brackets and `/` between components.
fn show(path: &JoinedPath) -> String {
    let mut s = match &path.root {
        Root::Text(t) => t.clone(),
        Root::UserHome => "<user-home>".to_string(),
        Root::LauncherDir => "<launcher>".to_string(),
        Root::NvimOverride => "<LAZYVIM_NVIM>".to_string(),
    };
    for part in &path.parts {
        s.push('/');
        s.push_str(part);
    }
    s
}

fn home(text: &str) -> JoinedPath {
    JoinedPath::text(text)
}

#[test]
fn executable_names() {
    assert_eq!(nvim_executable_name(LINUX), "nvim");
    assert_eq!(nvim_executable_name(MAC_ARM), "nvim");
    assert_eq!(nvim_executable_name(WINDOWS), "nvim.exe");
}

#[test]
fn release_assets() {
    assert_eq!(neovim_release_asset(WINDOWS), Ok("nvim-win64.zip"));
    assert_eq!(neovim_release_asset(LINUX), Ok("nvim-linux-x86_64.tar.gz"));
    assert_eq!(
        neovim_release_asset(Platform { os: Os::MacOs, arch: Arch::X86_64 }),
        Ok("nvim-macos-x86_64.tar.gz")
    );
    assert_eq!(neovim_release_asset(MAC_ARM), Ok("nvim-macos-arm64.tar.gz"));
    assert_eq!(
        neovim_release_asset(Platform { os: Os::Linux, arch: Arch::Aarch64 }),
        Err(AssetError::UnsupportedPlatform)
    );
    assert_eq!(
        neovim_release_asset(Platform { os: Os::Windows, arch: Arch::Aarch64 }),
        Err(AssetError::UnsupportedPlatform)
    );
    assert_eq!(
        neovim_release_asset(Platform { os: Os::OtherUnix, arch: Arch::X86_64 }),
        Err(AssetError::UnsupportedPlatform)
    );
}

#[test]
fn user_home_precedence() {
    assert_eq!(user_home_dir(true, true, true, true), Ok(HomeSource::Home));
    assert_eq!(user_home_dir(false, true, true, true), Ok(HomeSource::UserProfile));
    assert_eq!(user_home_dir(false, false, true, true), Ok(HomeSource::DriveAndPath));
    assert_eq!(user_home_dir(false, false, true, false), Err(HomeError::Unresolved));
    assert_eq!(user_home_dir(false, false, false, true), Err(HomeError::Unresolved));
    assert_eq!(user_home_dir(false, false, false, false), Err(HomeError::Unresolved));
}

#[test]
fn tilde_expansion() {
    assert_eq!(show(&expand_home("~", true, LINUX).unwrap()), "<user-home>");
    assert_eq!(show(&expand_home("~/x/y", true, LINUX).unwrap()), "<user-home>/x/y");
    assert_eq!(show(&expand_home("~/", true, LINUX).unwrap()), "<user-home>/");
    assert_eq!(show(&expand_home("/abs/path", true, LINUX).unwrap()), "/abs/path");
    assert_eq!(show(&expand_home("~user", true, LINUX).unwrap()), "~user");
    assert_eq!(show(&expand_home("~\\x", true, LINUX).unwrap()), "~\\x");
    assert_eq!(show(&expand_home("~\\x", true, WINDOWS).unwrap()), "<user-home>/x");
    assert_eq!(show(&expand_home("", true, LINUX).unwrap()), "");
}

#[test]
fn tilde_without_user_home_is_an_error() {
    assert_eq!(expand_home("~", false, LINUX).unwrap_err(), HomeError::Unresolved);
    assert_eq!(expand_home("~/x", false, LINUX).unwrap_err(), HomeError::Unresolved);
    assert_eq!(show(&expand_home("/abs", false, LINUX).unwrap()), "/abs");
}

#[test]
fn home_resolution_precedence() {
    let r = resolve_home(Some("/opt/a"), Some("/opt/b"), true, LINUX).unwrap();
    assert_eq!(show(&r), "/opt/a");
    let r = resolve_home(None, Some("~/b"), true, LINUX).unwrap();
    assert_eq!(show(&r), "<user-home>/b");
    let r = resolve_home(None, None, true, LINUX).unwrap();
    assert_eq!(show(&r), "<user-home>/.lazyvim");
    assert_eq!(resolve_home(None, None, false, LINUX).unwrap_err(), HomeError::Unresolved);
    assert_eq!(show(&resolve_home(None, Some("/env"), false, LINUX).unwrap()), "/env");
}

#[test]
fn runtime_directories() {
    let layout = runtime_layout(home("/h"));
    assert_eq!(show(&layout.home), "/h");
    assert_eq!(show(&layout.config_home), "/h/config");
    assert_eq!(show(&layout.data_home), "/h/data");
    assert_eq!(show(&layout.state_home), "/h/state");
    assert_eq!(show(&layout.cache_home), "/h/cache");
    assert_eq!(show(&layout.config_dir), "/h/config/lazyvim");
    assert_eq!(show(&layout.bin_dir), "/h/bin");
    let dirs: Vec<String> = directories_to_create(&layout).iter().map(show).collect();
    assert_eq!(dirs, vec!["/h/bin", "/h/config", "/h/data", "/h/state", "/h/cache"]);
}

#[test]
fn search_path_order() {
    let dirs: Vec<String> = search_path_prefix(&home("/h"), true).iter().map(show).collect();
    assert_eq!(dirs, vec!["/h/bin", "<launcher>/nvim/bin", "<launcher>/bin"]);
    let dirs: Vec<String> = search_path_prefix(&home("/h"), false).iter().map(show).collect();
    assert_eq!(dirs, vec!["/h/bin"]);
}

#[test]
fn neovim_candidates_in_documented_order() {
    let c: Vec<String> = nvim_candidates(&home("/h"), true, LINUX).iter().map(show).collect();
    assert_eq!(
        c,
        vec!["<launcher>/nvim/bin/nvim", "<launcher>/bin/nvim", "/h/bin/nvim", "/h/nvim/bin/nvim"]
    );
    let c: Vec<String> = nvim_candidates(&home("/h"), false, WINDOWS).iter().map(show).collect();
    assert_eq!(c, vec!["/h/bin/nvim.exe", "/h/nvim/bin/nvim.exe"]);
}

#[test]
fn neovim_resolution() {
    let c = nvim_candidates(&home("/h"), true, LINUX);
    assert_eq!(show(&resolve_nvim(true, &c, &vec![true, true, true, true], LINUX)), "<LAZYVIM_NVIM>");
    assert_eq!(show(&resolve_nvim(false, &c, &vec![false, true, true, true], LINUX)), "<launcher>/bin/nvim");
    assert_eq!(show(&resolve_nvim(false, &c, &vec![false, false, true, true], LINUX)), "/h/bin/nvim");
    assert_eq!(show(&resolve_nvim(false, &c, &vec![false, false, false, true], LINUX)), "/h/nvim/bin/nvim");
    assert_eq!(show(&resolve_nvim(false, &c, &vec![true, false, false, false], LINUX)), "<launcher>/nvim/bin/nvim");
    assert_eq!(show(&resolve_nvim(false, &c, &vec![false; 4], LINUX)), "nvim");
    let c = nvim_candidates(&home("/h"), false, WINDOWS);
    assert_eq!(show(&resolve_nvim(false, &c, &vec![false, false], WINDOWS)), "nvim.exe");
    assert_eq!(show(&resolve_nvim(false, &c, &vec![true, true], WINDOWS)), "/h/bin/nvim.exe");
    assert_eq!(show(&resolve_nvim(false, &c, &vec![false, true], WINDOWS)), "/h/nvim/bin/nvim.exe");
}

#[test]
fn neovim_environment_isolates_the_profile() {
    let layout = runtime_layout(home("/h"));
    let env: Vec<(String, String)> = nvim_environment(&layout)
        .iter()
        .map(|var| {
            let value = match &var.value {
                EnvValue::Path(p) => show(p),
                EnvValue::Text(t) => t.clone(),
                EnvValue::SearchPath => "<search-path>".to_string(),
            };
            (var.name.clone(), value)
        })
        .collect();
    let expected: Vec<(String, String)> = [
        ("LAZYVIM_HOME", "/h"),
        ("NVIM_APPNAME", "lazyvim"),
        ("XDG_CONFIG_HOME", "/h/config"),
        ("XDG_DATA_HOME", "/h/data"),
        ("XDG_STATE_HOME", "/h/state"),
        ("XDG_CACHE_HOME", "/h/cache"),
        ("PATH", "<search-path>"),
    ]
    .iter()
    .map(|(a, b)| (a.to_string(), b.to_string()))
    .collect();
    assert_eq!(env, expected);
}

#[test]
fn where_report() {
    let layout = runtime_layout(home("/h"));
    let nvim = JoinedPath::text("nvim");
    let lines: Vec<String> = print_locations(&layout, &nvim, true)
        .iter()
        .map(|l| format!("{}{}", l.label, show(&l.path)))
        .collect();
    assert_eq!(
        lines,
        vec![
            "home:        /h",
            "config:      /h/config/lazyvim",
            "data:        /h/data/lazyvim",
            "state:       /h/state/lazyvim",
            "cache:       /h/cache/lazyvim",
            "nvim:        nvim",
            "launcher:    <launcher>",
        ]
    );
    assert_eq!(print_locations(&layout, &nvim, false).len(), 6);
}

#[test]
fn install_locations() {
    let h = home("/h");
    assert_eq!(show(&install_dir(&h)), "/h/nvim");
    assert_eq!(show(&installed_nvim(&h, LINUX)), "/h/nvim/bin/nvim");
    assert_eq!(show(&installed_nvim(&h, WINDOWS)), "/h/nvim/bin/nvim.exe");
    assert_eq!(show(&downloads_dir(&h)), "/h/downloads");
    assert_eq!(show(&archive_path(&h, "nvim-win64.zip")), "/h/downloads/nvim-win64.zip");
    assert_eq!(show(&extract_temp_dir(&h)), "/h/.nvim-install");
    assert_eq!(
        download_url("nvim-linux-x86_64.tar.gz"),
        "https://github.com/neovim/neovim/releases/latest/download/nvim-linux-x86_64.tar.gz"
    );
    assert_eq!(extract_method(WINDOWS), ExtractMethod::PowerShell);
    assert_eq!(extract_method(LINUX), ExtractMethod::Tar);
}

#[test]
fn nvim_made_executable_on_unix_only() {
    let dir = install_dir(&home("/h"));
    let change = make_nvim_executable(&dir, LINUX).unwrap();
    assert_eq!(show(&change.path), "/h/nvim/bin/nvim");
    assert_eq!(change.mode, 0o755);
    assert!(make_nvim_executable(&dir, Platform { os: Os::OtherUnix, arch: Arch::Other }).is_some());
    assert!(make_nvim_executable(&dir, WINDOWS).is_none());
    assert!(make_nvim_executable(&dir, Platform { os: Os::Other, arch: Arch::Other }).is_none());
}

#[test]
fn installed_nvim_is_found_again() {
    let h = home("/h");
    let installed = show(&installed_nvim(&h, LINUX));
    let c = nvim_candidates(&h, true, LINUX);
    assert_eq!(show(&resolve_nvim(false, &c, &vec![false, false, false, true], LINUX)), installed);
    let c = nvim_candidates(&h, false, LINUX);
    assert_eq!(show(&resolve_nvim(false, &c, &vec![false, true], LINUX)), installed);
}

#[test]
fn error_messages() {
    assert_eq!(lib::home::home_error_message(HomeError::Unresolved), "could not resolve user home directory");
    assert_eq!(
        lib::platform::asset_error_message(AssetError::UnsupportedPlatform),
        "automatic Neovim installation is not supported on this platform; install Neovim manually or set LAZYVIM_NVIM"
    );
    assert_eq!(
        lib::install::refused_config_message("/h/config/lazyvim"),
        "/h/config/lazyvim exists but does not contain init.lua; move it away or run `lazyvim reset --yes`"
    );
}

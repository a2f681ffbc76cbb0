use vstd::prelude::*;
use crate::paths::{views, JoinedPath, PathModel};
use crate::platform::{nvim_executable_name, spec_nvim_executable_name, Os, Platform};
use crate::runtime::{first_existing, spec_nvim_candidates, spec_resolve_nvim};
use crate::text::{same_text, spec_trim, trim};

verus! {

/// The next step of bootstrapping, after the Neovim executable was probed.
#[derive(Clone, Copy, Debug, PartialEq, Eq, Structural)]
pub enum BootstrapStep {
    /// Neovim runs: make sure the starter configuration is in place.
    EnsureStarterConfig,
    /// Neovim does not run yet: install it, resolve it again and probe again.
    InstallNeovim,
    /// Neovim still does not run after installing it: give up.
    GiveUp,
}

/// Which probe of the Neovim executable this is.
#[derive(Clone, Copy, Debug, PartialEq, Eq, Structural)]
pub enum Probe {
    First,
    AfterInstall,
}

/// The step after a probe.
pub open spec fn spec_bootstrap_step(probe: Probe, nvim_runs: bool) -> BootstrapStep {
    if nvim_runs {
        BootstrapStep::EnsureStarterConfig
    } else if probe == Probe::First {
        BootstrapStep::InstallNeovim
    } else {
        BootstrapStep::GiveUp
    }
}

/// Decides how bootstrapping goes on after probing Neovim with `--version`:
/// a working Neovim moves on to the starter configuration; a missing one is
/// installed once, and if it still does not run the launcher gives up.
pub fn bootstrap_step(probe: Probe, nvim_runs: bool) -> (step: BootstrapStep)
    ensures
        step == spec_bootstrap_step(probe, nvim_runs),
{
    if nvim_runs {
        BootstrapStep::EnsureStarterConfig
    } else {
        match probe {
            Probe::First => BootstrapStep::InstallNeovim,
            Probe::AfterInstall => BootstrapStep::GiveUp,
        }
    }
}

/// Bootstrapping installs Neovim at most once and only when it does not run,
/// and goes on to the starter configuration exactly when Neovim runs.
pub proof fn lemma_bootstrap_installs_at_most_once(probe: Probe, nvim_runs: bool)
    ensures
        spec_bootstrap_step(probe, nvim_runs) == BootstrapStep::InstallNeovim ==> probe == Probe::First
            && !nvim_runs,
        spec_bootstrap_step(probe, nvim_runs) == BootstrapStep::EnsureStarterConfig <==> nvim_runs,
        spec_bootstrap_step(Probe::AfterInstall, nvim_runs) != BootstrapStep::InstallNeovim,
{
}

/// The first probe of Neovim, when the command bootstraps; without
/// bootstrapping there is no probe, so nothing is installed or cloned.
pub open spec fn spec_bootstrap_entry(bootstrap: bool) -> Option<Probe> {
    if bootstrap {
        Some(Probe::First)
    } else {
        None
    }
}

/// Where bootstrapping starts: with the first probe of Neovim when the
/// command bootstraps, and nowhere otherwise.
pub fn bootstrap_entry(bootstrap: bool) -> (probe: Option<Probe>)
    ensures
        probe == spec_bootstrap_entry(bootstrap),
{
    if bootstrap {
        Some(Probe::First)
    } else {
        None
    }
}

/// The steps bootstrapping takes from `probe`, when successive probes of
/// Neovim find it running as `results` says.
pub open spec fn spec_bootstrap_steps(probe: Option<Probe>, results: Seq<bool>) -> Seq<BootstrapStep>
    decreases results.len(),
{
    match probe {
        None => Seq::empty(),
        Some(p) => if results.len() == 0 {
            Seq::empty()
        } else {
            let step = spec_bootstrap_step(p, results[0]);
            if step == BootstrapStep::InstallNeovim {
                seq![step] + spec_bootstrap_steps(Some(Probe::AfterInstall), results.drop_first())
            } else {
                seq![step]
            }
        },
    }
}

/// Without bootstrapping no step is taken, so nothing is downloaded,
/// installed or cloned. With it, Neovim is installed at most once, and the
/// run ends by ensuring the starter configuration or by giving up.
pub proof fn lemma_bootstrap_runs(results: Seq<bool>)
    ensures
        spec_bootstrap_steps(spec_bootstrap_entry(false), results) == Seq::<BootstrapStep>::empty(),
        ({
            let steps = spec_bootstrap_steps(spec_bootstrap_entry(true), results);
            &&& steps.len() <= 2
            &&& forall|i: int| 1 <= i < steps.len() ==> steps[i] != BootstrapStep::InstallNeovim
            &&& results.len() >= 2 ==> (steps.last() == BootstrapStep::EnsureStarterConfig || steps.last()
                == BootstrapStep::GiveUp)
        }),
{
    if results.len() > 0 {
        let rest = results.drop_first();
        assert(spec_bootstrap_steps(Some(Probe::AfterInstall), rest).len() <= 1);
    }
}

/// The message when Neovim cannot be found or installed; `tried` is how the
/// executable that was tried displays.
pub open spec fn spec_missing_neovim_message(tried: Seq<char>) -> Seq<char> {
    "Neovim is not available. Install it manually, set LAZYVIM_NVIM, or run `lazyvim install-nvim`. Tried: "@
        + tried
}

/// The error message when bootstrapping gives up.
pub fn missing_neovim_message(tried: &str) -> (m: String)
    ensures
        m@ == spec_missing_neovim_message(tried@),
{
    String::from_str(
        "Neovim is not available. Install it manually, set LAZYVIM_NVIM, or run `lazyvim install-nvim`. Tried: ",
    ).concat(tried)
}

/// Where Neovim is installed: `nvim` in the portable home.
pub open spec fn spec_install_dir(home: PathModel) -> PathModel {
    home.child("nvim"@)
}

/// The portable home's Neovim installation directory, `<home>/nvim`; an
/// installation replaces it as a whole.
pub fn install_dir(home: &JoinedPath) -> (dir: JoinedPath)
    ensures
        dir@ == spec_install_dir(home@),
{
    home.join("nvim")
}

/// The executable of a Neovim installed into the portable home.
pub open spec fn spec_installed_nvim(home: PathModel, platform: Platform) -> PathModel {
    spec_install_dir(home).child("bin"@).child(spec_nvim_executable_name(platform))
}

/// The executable that an installation provides: `<home>/nvim/bin/<nvim>`.
pub fn installed_nvim(home: &JoinedPath, platform: Platform) -> (exe: JoinedPath)
    ensures
        exe@ == spec_installed_nvim(home@, platform),
{
    install_dir(home).join("bin").join(nvim_executable_name(platform))
}

/// An installed Neovim is found again: it is the last candidate the
/// launcher looks at, so without `LAZYVIM_NVIM` and with no other candidate
/// present it is the one resolved.
pub proof fn lemma_installed_nvim_is_found(home: PathModel, has_launcher_dir: bool, platform: Platform, exists: Seq<bool>)
    requires
        exists.len() == spec_nvim_candidates(home, has_launcher_dir, platform).len(),
        exists.last(),
        forall|i: int| 0 <= i < exists.len() - 1 ==> !#[trigger] exists[i],
    ensures
        spec_nvim_candidates(home, has_launcher_dir, platform).last() == spec_installed_nvim(home, platform),
        spec_resolve_nvim(false, spec_nvim_candidates(home, has_launcher_dir, platform), exists, platform)
            == spec_installed_nvim(home, platform),
{
    let c = spec_nvim_candidates(home, has_launcher_dir, platform);
    if has_launcher_dir {
        reveal_with_fuel(first_existing, 5);
        assert(!exists[0] && !exists[1] && !exists[2]);
        assert(c.drop_first().drop_first().drop_first().drop_first().len() == 0);
    } else {
        reveal_with_fuel(first_existing, 3);
        assert(!exists[0]);
        assert(c.drop_first().drop_first().len() == 0);
    }
}

/// What `install-nvim` does.
#[derive(Clone, Copy, Debug, PartialEq, Eq, Structural)]
pub enum InstallDecision {
    /// Neovim already runs from the portable home's installation.
    AlreadyInstalled,
    /// Download and install Neovim.
    Install,
}

/// `install-nvim` installs unless the resolved Neovim runs and lies inside
/// the installation directory ([`install_dir`], the portable home).
pub fn install_decision(nvim_runs: bool, nvim_in_install_dir: bool) -> (d: InstallDecision)
    ensures
        d == (if nvim_runs && nvim_in_install_dir {
            InstallDecision::AlreadyInstalled
        } else {
            InstallDecision::Install
        }),
{
    if nvim_runs && nvim_in_install_dir {
        InstallDecision::AlreadyInstalled
    } else {
        InstallDecision::Install
    }
}

/// The download address of a release archive.
pub open spec fn spec_download_url(asset: Seq<char>) -> Seq<char> {
    "https://github.com/neovim/neovim/releases/latest/download/"@ + asset
}

/// Where the latest release of an archive is downloaded from.
pub fn download_url(asset: &str) -> (url: String)
    ensures
        url@ == spec_download_url(asset@),
{
    String::from_str("https://github.com/neovim/neovim/releases/latest/download/").concat(asset)
}

/// The directory that downloads go to.
pub open spec fn spec_downloads_dir(home: PathModel) -> PathModel {
    home.child("downloads"@)
}

/// The portable home's `downloads` directory.
pub fn downloads_dir(home: &JoinedPath) -> (dir: JoinedPath)
    ensures
        dir@ == spec_downloads_dir(home@),
{
    home.join("downloads")
}

/// Where a downloaded archive is stored: `downloads/<asset>`.
pub fn archive_path(home: &JoinedPath, asset: &str) -> (path: JoinedPath)
    ensures
        path@ == spec_downloads_dir(home@).child(asset@),
{
    downloads_dir(home).join(asset)
}

/// The scratch directory an archive is extracted into.
pub open spec fn spec_extract_temp_dir(home: PathModel) -> PathModel {
    home.child(".nvim-install"@)
}

/// The portable home's `.nvim-install` scratch directory.
pub fn extract_temp_dir(home: &JoinedPath) -> (dir: JoinedPath)
    ensures
        dir@ == spec_extract_temp_dir(home@),
{
    home.join(".nvim-install")
}

/// How a downloaded archive is unpacked.
#[derive(Clone, Copy, Debug, PartialEq, Eq, Structural)]
pub enum ExtractMethod {
    /// PowerShell's `Expand-Archive`, on Windows.
    PowerShell,
    /// `tar`, everywhere else.
    Tar,
}

/// Windows archives are unpacked with PowerShell, all others with `tar`.
pub fn extract_method(platform: Platform) -> (m: ExtractMethod)
    ensures
        m == (if platform.spec_is_windows() {
            ExtractMethod::PowerShell
        } else {
            ExtractMethod::Tar
        }),
{
    if platform.is_windows() {
        ExtractMethod::PowerShell
    } else {
        ExtractMethod::Tar
    }
}

/// A change of file permissions.
#[derive(Debug)]
pub struct ModeChange {
    pub path: JoinedPath,
    pub mode: u32,
}

/// After unpacking on Unix, `bin/nvim` in the installation directory is made
/// executable (mode `0o755`), if it exists; elsewhere nothing changes.
/// Returns the change to apply when the file exists.
pub fn make_nvim_executable(install_dir: &JoinedPath, platform: Platform) -> (change: Option<ModeChange>)
    ensures
        platform.spec_is_unix() ==> (change matches Some(c) && c.path@ == install_dir@.child(
            "bin"@,
        ).child("nvim"@) && c.mode == 0o755),
        !platform.spec_is_unix() ==> change is None,
{
    if platform.is_unix() {
        Some(ModeChange { path: install_dir.join("bin").join("nvim"), mode: 0o755 })
    } else {
        None
    }
}

/// On macOS the installation's quarantine attributes are cleared.
pub fn clears_quarantine(platform: Platform) -> (r: bool)
    ensures
        r == (platform.os == Os::MacOs),
{
    match platform.os {
        Os::MacOs => true,
        _ => false,
    }
}

/// What to do about the LazyVim starter configuration.
#[derive(Clone, Copy, Debug, PartialEq, Eq, Structural)]
pub enum StarterAction {
    /// `init.lua` is there: keep the configuration.
    Keep,
    /// The configuration directory holds something else: refuse to touch it.
    Refuse,
    /// Clone the starter, removing the (empty) directory first if `clear_existing`.
    Clone { clear_existing: bool },
}

/// The action for the starter configuration.
pub open spec fn spec_starter_action(has_init: bool, dir_exists: bool, dir_nonempty: bool) -> StarterAction {
    if has_init {
        StarterAction::Keep
    } else if dir_exists && dir_nonempty {
        StarterAction::Refuse
    } else {
        StarterAction::Clone { clear_existing: dir_exists }
    }
}

/// Decides what to do about the configuration directory: keep it when it
/// has `init.lua`; refuse when it exists with other contents; otherwise clone
/// the starter into it, removing an empty directory first.
pub fn starter_action(has_init: bool, dir_exists: bool, dir_nonempty: bool) -> (a: StarterAction)
    ensures
        a == spec_starter_action(has_init, dir_exists, dir_nonempty),
{
    if has_init {
        StarterAction::Keep
    } else if dir_exists && dir_nonempty {
        StarterAction::Refuse
    } else {
        StarterAction::Clone { clear_existing: dir_exists }
    }
}

/// An existing configuration is never overwritten: the starter is cloned
/// only when there is no `init.lua` and the directory is missing or empty.
pub proof fn lemma_existing_config_is_kept(has_init: bool, dir_exists: bool, dir_nonempty: bool)
    ensures
        spec_starter_action(has_init, dir_exists, dir_nonempty) is Clone <==> (!has_init && !(dir_exists
            && dir_nonempty)),
{
}

/// The starter repository: `LAZYVIM_STARTER_REPOSITORY` when it is set (to
/// Unicode text), else LazyVim's starter on GitHub.
pub open spec fn spec_starter_repository(env: Option<Seq<char>>) -> Seq<char> {
    match env {
        Some(url) => url,
        None => "https://github.com/LazyVim/starter.git"@,
    }
}

/// The repository the starter configuration is cloned from.
pub fn starter_repository(env: Option<String>) -> (url: String)
    ensures
        url@ == spec_starter_repository(
            match env {
                Some(s) => Some(s@),
                None => None,
            },
        ),
{
    match env {
        Some(url) => url,
        None => String::from_str("https://github.com/LazyVim/starter.git"),
    }
}

/// `git`'s arguments to clone the starter (the destination follows them):
/// `clone --depth=1 <repository>`.
pub fn git_clone_args(repository: &str) -> (args: Vec<String>)
    ensures
        views(args@) == seq!["clone"@, "--depth=1"@, repository@],
{
    let mut args: Vec<String> = Vec::new();
    args.push(String::from_str("clone"));
    args.push(String::from_str("--depth=1"));
    args.push(String::from_str(repository));
    assert(views(args@) =~= seq!["clone"@, "--depth=1"@, repository@]);
    args
}

/// The message when cloning fails.
pub open spec fn spec_clone_failure_message(repository: Seq<char>, stdout: Seq<char>, stderr: Seq<char>) -> Seq<
    char,
> {
    "failed to clone LazyVim starter from "@ + repository + ": "@ + spec_trim(stdout) + spec_trim(stderr)
}

/// The error when `git clone` fails: the repository, then `git`'s trimmed
/// standard output and standard error.
pub fn clone_failure_message(repository: &str, stdout: &str, stderr: &str) -> (m: String)
    ensures
        m@ == spec_clone_failure_message(repository@, stdout@, stderr@),
{
    let out = trim(stdout);
    let err = trim(stderr);
    String::from_str("failed to clone LazyVim starter from ").concat(repository).concat(": ").concat(
        out.as_str(),
    ).concat(err.as_str())
}

/// The message when the configuration directory holds something other
/// than a LazyVim configuration; `dir` is how the directory displays.
pub open spec fn spec_refused_config_message(dir: Seq<char>) -> Seq<char> {
    dir + " exists but does not contain init.lua; move it away or run `lazyvim reset --yes`"@
}

/// The error when the starter configuration is refused.
pub fn refused_config_message(dir: &str) -> (m: String)
    ensures
        m@ == spec_refused_config_message(dir@),
{
    String::from_str(dir).concat(" exists but does not contain init.lua; move it away or run `lazyvim reset --yes`")
}

/// A configuration that has `init.lua` is always kept, whatever else the
/// directory holds; it is refused only without `init.lua`.
pub proof fn lemma_init_lua_keeps_config(dir_exists: bool, dir_nonempty: bool)
    ensures
        spec_starter_action(true, dir_exists, dir_nonempty) == StarterAction::Keep,
        spec_starter_action(false, dir_exists, dir_nonempty) != StarterAction::Keep,
        spec_starter_action(false, dir_exists, dir_nonempty) == StarterAction::Refuse <==> (dir_exists
            && dir_nonempty),
{
}

} // verus!

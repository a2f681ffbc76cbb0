use vstd::prelude::*;
use crate::paths::{JoinedPath, PathModel, Root, RootModel};
use crate::platform::{nvim_executable_name, spec_nvim_executable_name, Platform};

verus! {

/// The application name: Neovim's `NVIM_APPNAME` and the name of the
/// configuration, data, state and cache subdirectories.
pub open spec fn spec_app_name() -> Seq<char> {
    "lazyvim"@
}

/// The directories of the portable runtime.
#[derive(Debug)]
pub struct RuntimeLayout {
    pub home: JoinedPath,
    pub config_home: JoinedPath,
    pub data_home: JoinedPath,
    pub state_home: JoinedPath,
    pub cache_home: JoinedPath,
    pub config_dir: JoinedPath,
    pub bin_dir: JoinedPath,
}

/// The mathematical model of a [`RuntimeLayout`].
pub struct LayoutModel {
    pub home: PathModel,
    pub config_home: PathModel,
    pub data_home: PathModel,
    pub state_home: PathModel,
    pub cache_home: PathModel,
    pub config_dir: PathModel,
    pub bin_dir: PathModel,
}

impl View for RuntimeLayout {
    type V = LayoutModel;

    open spec fn view(&self) -> LayoutModel {
        LayoutModel {
            home: self.home@,
            config_home: self.config_home@,
            data_home: self.data_home@,
            state_home: self.state_home@,
            cache_home: self.cache_home@,
            config_dir: self.config_dir@,
            bin_dir: self.bin_dir@,
        }
    }
}

/// The runtime directories under a portable home.
pub open spec fn spec_runtime_layout(home: PathModel) -> LayoutModel {
    LayoutModel {
        home,
        config_home: home.child("config"@),
        data_home: home.child("data"@),
        state_home: home.child("state"@),
        cache_home: home.child("cache"@),
        config_dir: home.child("config"@).child(spec_app_name()),
        bin_dir: home.child("bin"@),
    }
}

/// Lays out the portable runtime under `home`: `config`, `data`, `state`,
/// `cache` and `bin`, and the LazyVim configuration in `config/lazyvim`.
pub fn runtime_layout(home: JoinedPath) -> (layout: RuntimeLayout)
    ensures
        layout@ == spec_runtime_layout(home@),
{
    let config_home = home.join("config");
    let data_home = home.join("data");
    let state_home = home.join("state");
    let cache_home = home.join("cache");
    let config_dir = config_home.join("lazyvim");
    let bin_dir = home.join("bin");
    RuntimeLayout { home, config_home, data_home, state_home, cache_home, config_dir, bin_dir }
}

/// The views of a sequence of paths.
pub open spec fn path_views(v: Seq<JoinedPath>) -> Seq<PathModel> {
    v.map_values(|p: JoinedPath| p@)
}

/// The directories to create before anything runs, in order.
pub open spec fn spec_directories_to_create(layout: LayoutModel) -> Seq<PathModel> {
    seq![layout.bin_dir, layout.config_home, layout.data_home, layout.state_home, layout.cache_home]
}

/// The directories that preparing the runtime creates: `bin`, then the
/// configuration, data, state and cache homes.
pub fn directories_to_create(layout: &RuntimeLayout) -> (dirs: Vec<JoinedPath>)
    ensures
        path_views(dirs@) == spec_directories_to_create(layout@),
{
    let mut dirs: Vec<JoinedPath> = Vec::new();
    dirs.push(layout.bin_dir.duplicate());
    dirs.push(layout.config_home.duplicate());
    dirs.push(layout.data_home.duplicate());
    dirs.push(layout.state_home.duplicate());
    dirs.push(layout.cache_home.duplicate());
    assert(path_views(dirs@) =~= spec_directories_to_create(layout@));
    dirs
}

/// Every runtime directory lies under the portable home, so the launcher
/// never touches the user's own Neovim setup.
pub proof fn lemma_runtime_stays_in_home(home: PathModel)
    ensures
        ({
            let layout = spec_runtime_layout(home);
            &&& layout.config_home.is_under(home)
            &&& layout.data_home.is_under(home)
            &&& layout.state_home.is_under(home)
            &&& layout.cache_home.is_under(home)
            &&& layout.config_dir.is_under(home)
            &&& layout.bin_dir.is_under(home)
            &&& forall|i: int|
                0 <= i < spec_directories_to_create(layout).len()
                    ==> #[trigger] spec_directories_to_create(layout)[i].is_under(home)
        }),
{
    let layout = spec_runtime_layout(home);
    let n = home.parts.len() as int;
    assert(layout.config_home.parts.subrange(0, n) =~= home.parts);
    assert(layout.data_home.parts.subrange(0, n) =~= home.parts);
    assert(layout.state_home.parts.subrange(0, n) =~= home.parts);
    assert(layout.cache_home.parts.subrange(0, n) =~= home.parts);
    assert(layout.config_dir.parts.subrange(0, n) =~= home.parts);
    assert(layout.bin_dir.parts.subrange(0, n) =~= home.parts);
}

/// The directories put in front of `PATH` for Neovim, in order.
pub open spec fn spec_search_path_prefix(home: PathModel, has_launcher_dir: bool) -> Seq<PathModel> {
    let launcher = PathModel::at(RootModel::LauncherDir);
    let own = seq![home.child("bin"@)];
    if has_launcher_dir {
        own + seq![launcher.child("nvim"@).child("bin"@), launcher.child("bin"@)]
    } else {
        own
    }
}

/// The directories searched before the inherited `PATH`:
/// `<home>/bin`, then, when the launcher's directory is known,
/// `<launcher>/nvim/bin` and `<launcher>/bin`.
pub fn search_path_prefix(home: &JoinedPath, has_launcher_dir: bool) -> (dirs: Vec<JoinedPath>)
    ensures
        path_views(dirs@) == spec_search_path_prefix(home@, has_launcher_dir),
{
    let mut dirs: Vec<JoinedPath> = Vec::new();
    dirs.push(home.join("bin"));
    if has_launcher_dir {
        let launcher = JoinedPath::from_root(Root::LauncherDir);
        dirs.push(launcher.join("nvim").join("bin"));
        dirs.push(launcher.join("bin"));
    }
    assert(path_views(dirs@) =~= spec_search_path_prefix(home@, has_launcher_dir));
    dirs
}

/// The places where a Neovim executable is looked for, in order.
pub open spec fn spec_nvim_candidates(home: PathModel, has_launcher_dir: bool, platform: Platform) -> Seq<
    PathModel,
> {
    let exe = spec_nvim_executable_name(platform);
    let launcher = PathModel::at(RootModel::LauncherDir);
    let own = seq![home.child("bin"@).child(exe), home.child("nvim"@).child("bin"@).child(exe)];
    if has_launcher_dir {
        seq![launcher.child("nvim"@).child("bin"@).child(exe), launcher.child("bin"@).child(exe)] + own
    } else {
        own
    }
}

/// The Neovim executables to look for: `<launcher>/nvim/bin/<nvim>` and
/// `<launcher>/bin/<nvim>` (when the launcher's directory is known), then
/// `<home>/bin/<nvim>`, and last the Neovim that `install-nvim` puts in
/// `<home>/nvim/bin/<nvim>`, so that an installed Neovim is found again.
pub fn nvim_candidates(home: &JoinedPath, has_launcher_dir: bool, platform: Platform) -> (c: Vec<JoinedPath>)
    ensures
        path_views(c@) == spec_nvim_candidates(home@, has_launcher_dir, platform),
{
    let exe = nvim_executable_name(platform);
    let mut c: Vec<JoinedPath> = Vec::new();
    if has_launcher_dir {
        let launcher = JoinedPath::from_root(Root::LauncherDir);
        c.push(launcher.join("nvim").join("bin").join(exe));
        c.push(launcher.join("bin").join(exe));
    }
    c.push(home.join("bin").join(exe));
    c.push(home.join("nvim").join("bin").join(exe));
    assert(path_views(c@) =~= spec_nvim_candidates(home@, has_launcher_dir, platform));
    c
}

/// The first candidate that exists, if any.
pub open spec fn first_existing(candidates: Seq<PathModel>, exists: Seq<bool>) -> Option<PathModel>
    decreases candidates.len(),
{
    if candidates.len() == 0 || exists.len() == 0 {
        None
    } else if exists[0] {
        Some(candidates[0])
    } else {
        first_existing(candidates.drop_first(), exists.drop_first())
    }
}

/// The Neovim executable that the launcher runs.
pub open spec fn spec_resolve_nvim(
    has_override: bool,
    candidates: Seq<PathModel>,
    exists: Seq<bool>,
    platform: Platform,
) -> PathModel {
    if has_override {
        PathModel::at(RootModel::NvimOverride)
    } else {
        match first_existing(candidates, exists) {
            Some(p) => p,
            None => PathModel::at(RootModel::Text(spec_nvim_executable_name(platform))),
        }
    }
}

/// Chooses the Neovim executable: the one named by `LAZYVIM_NVIM` when it
/// is set, else the first candidate that exists (`exists[i]` tells whether
/// `candidates[i]` does), else the bare executable name, found on `PATH`.
pub fn resolve_nvim(
    has_override: bool,
    candidates: &Vec<JoinedPath>,
    exists: &Vec<bool>,
    platform: Platform,
) -> (nvim: JoinedPath)
    requires
        exists.len() == candidates.len(),
    ensures
        nvim@ == spec_resolve_nvim(has_override, path_views(candidates@), exists@, platform),
{
    if has_override {
        return JoinedPath::from_root(Root::NvimOverride);
    }
    let ghost all = path_views(candidates@);
    let mut i: usize = 0;
    assert(all.skip(0) =~= all);
    assert(exists@.skip(0) =~= exists@);
    while i < candidates.len()
        invariant
            !has_override,
            exists.len() == candidates.len(),
            all == path_views(candidates@),
            i <= candidates.len(),
            first_existing(all, exists@) == first_existing(all.skip(i as int), exists@.skip(i as int)),
        decreases candidates.len() - i,
    {
        let ghost c = all.skip(i as int);
        let ghost e = exists@.skip(i as int);
        assert(c.drop_first() =~= all.skip(i + 1));
        assert(e.drop_first() =~= exists@.skip(i + 1));
        assert(c[0] == all[i as int]);
        assert(all[i as int] == candidates@[i as int]@);
        assert(e[0] == exists@[i as int]);
        assert(all.len() == candidates.len());
        assert(c.len() > 0 && e.len() > 0);
        if exists[i] {
            return candidates[i].duplicate();
        }
        i = i + 1;
    }
    JoinedPath::text(nvim_executable_name(platform))
}

/// Neovim is found in the documented order: `LAZYVIM_NVIM`, then
/// `<launcher>/nvim/bin/<nvim>` and `<launcher>/bin/<nvim>`, then
/// `<home>/bin/<nvim>`; after these, an installed `<home>/nvim/bin/<nvim>`,
/// and finally `nvim` on `PATH`.
pub proof fn lemma_nvim_resolution_order(home: PathModel, platform: Platform, exists: Seq<bool>)
    requires
        exists.len() == 4,
    ensures
        ({
            let c = spec_nvim_candidates(home, true, platform);
            let exe = spec_nvim_executable_name(platform);
            let launcher = PathModel::at(RootModel::LauncherDir);
            &&& spec_resolve_nvim(true, c, exists, platform) == PathModel::at(RootModel::NvimOverride)
            &&& exists[0] ==> spec_resolve_nvim(false, c, exists, platform)
                == launcher.child("nvim"@).child("bin"@).child(exe)
            &&& !exists[0] && exists[1] ==> spec_resolve_nvim(false, c, exists, platform)
                == launcher.child("bin"@).child(exe)
            &&& !exists[0] && !exists[1] && exists[2] ==> spec_resolve_nvim(false, c, exists, platform)
                == home.child("bin"@).child(exe)
            &&& !exists[0] && !exists[1] && !exists[2] && exists[3] ==> spec_resolve_nvim(
                false,
                c,
                exists,
                platform,
            ) == home.child("nvim"@).child("bin"@).child(exe)
            &&& !exists[0] && !exists[1] && !exists[2] && !exists[3] ==> spec_resolve_nvim(
                false,
                c,
                exists,
                platform,
            ) == PathModel::at(RootModel::Text(exe))
        }),
{
    let c = spec_nvim_candidates(home, true, platform);
    reveal_with_fuel(first_existing, 5);
    assert(c.drop_first().drop_first().drop_first().drop_first().len() == 0);
}

/// Without a launcher directory, `LAZYVIM_NVIM` comes first, then
/// `<home>/bin/<nvim>`, then an installed `<home>/nvim/bin/<nvim>`, then
/// `nvim` on `PATH`.
pub proof fn lemma_nvim_resolution_without_launcher(home: PathModel, platform: Platform, exists: Seq<bool>)
    requires
        exists.len() == 2,
    ensures
        ({
            let c = spec_nvim_candidates(home, false, platform);
            let exe = spec_nvim_executable_name(platform);
            &&& exists[0] ==> spec_resolve_nvim(false, c, exists, platform) == home.child("bin"@).child(exe)
            &&& !exists[0] && exists[1] ==> spec_resolve_nvim(false, c, exists, platform) == home.child(
                "nvim"@,
            ).child("bin"@).child(exe)
            &&& !exists[0] && !exists[1] ==> spec_resolve_nvim(false, c, exists, platform) == PathModel::at(
                RootModel::Text(exe),
            )
        }),
{
    let c = spec_nvim_candidates(home, false, platform);
    reveal_with_fuel(first_existing, 3);
    assert(c.drop_first().drop_first().len() == 0);
}

/// For every home, Neovim's search path starts with `<home>/bin`, followed by
/// `<launcher>/nvim/bin` and `<launcher>/bin` exactly when the launcher's
/// directory is known.
pub proof fn lemma_search_path_starts_at_home_bin(home: PathModel, has_launcher_dir: bool)
    ensures
        ({
            let dirs = spec_search_path_prefix(home, has_launcher_dir);
            let launcher = PathModel::at(RootModel::LauncherDir);
            &&& dirs.len() == if has_launcher_dir { 3int } else { 1int }
            &&& dirs[0] == home.child("bin"@)
            &&& has_launcher_dir ==> dirs[1] == launcher.child("nvim"@).child("bin"@) && dirs[2]
                == launcher.child("bin"@)
        }),
{
}

/// Without `LAZYVIM_NVIM`, the executable chosen is the first candidate
/// that exists: every candidate before it is missing; when none exists, the
/// bare executable name is used.
pub proof fn lemma_resolved_is_first_existing(candidates: Seq<PathModel>, exists: Seq<bool>, platform: Platform, i: int)
    requires
        exists.len() == candidates.len(),
        0 <= i < candidates.len(),
        exists[i],
        forall|j: int| 0 <= j < i ==> !#[trigger] exists[j],
    ensures
        spec_resolve_nvim(false, candidates, exists, platform) == candidates[i],
    decreases i,
{
    if i > 0 {
        assert(!exists[0]);
        assert forall|j: int| 0 <= j < i - 1 implies !#[trigger] exists.drop_first()[j] by {
            assert(exists.drop_first()[j] == exists[j + 1]);
        }
        lemma_resolved_is_first_existing(candidates.drop_first(), exists.drop_first(), platform, i - 1);
    }
}

/// When no candidate exists and `LAZYVIM_NVIM` is not set, the bare
/// executable name is used, to be found on `PATH`.
pub proof fn lemma_resolved_falls_back_to_name(candidates: Seq<PathModel>, exists: Seq<bool>, platform: Platform)
    requires
        exists.len() == candidates.len(),
        forall|j: int| 0 <= j < exists.len() ==> !#[trigger] exists[j],
    ensures
        spec_resolve_nvim(false, candidates, exists, platform) == PathModel::at(
            RootModel::Text(spec_nvim_executable_name(platform)),
        ),
    decreases candidates.len(),
{
    if candidates.len() > 0 {
        assert(!exists[0]);
        assert forall|j: int| 0 <= j < exists.drop_first().len() implies !#[trigger] exists.drop_first()[j] by {
            assert(exists.drop_first()[j] == exists[j + 1]);
        }
        lemma_resolved_falls_back_to_name(candidates.drop_first(), exists.drop_first(), platform);
    }
}

/// Preparing the runtime creates every runtime directory: `bin` and the
/// configuration, data, state and cache homes.
pub proof fn lemma_all_runtime_dirs_created(home: PathModel)
    ensures
        ({
            let layout = spec_runtime_layout(home);
            let dirs = spec_directories_to_create(layout);
            &&& dirs.contains(home.child("bin"@))
            &&& dirs.contains(home.child("config"@))
            &&& dirs.contains(home.child("data"@))
            &&& dirs.contains(home.child("state"@))
            &&& dirs.contains(home.child("cache"@))
        }),
{
    let layout = spec_runtime_layout(home);
    let dirs = spec_directories_to_create(layout);
    assert(dirs[0] == home.child("bin"@));
    assert(dirs[1] == home.child("config"@));
    assert(dirs[2] == home.child("data"@));
    assert(dirs[3] == home.child("state"@));
    assert(dirs[4] == home.child("cache"@));
}

} // verus!

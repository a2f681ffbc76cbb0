use vstd::prelude::*;
use crate::paths::{JoinedPath, PathModel, RootModel};
use crate::runtime::{spec_app_name, LayoutModel, RuntimeLayout};

verus! {

/// The value given to an environment variable of Neovim's process.
#[derive(Debug)]
pub enum EnvValue {
    /// A path.
    Path(JoinedPath),
    /// Literal text.
    Text(String),
    /// The launcher's search path: the portable directories, then the inherited `PATH`.
    SearchPath,
}

/// An environment variable set for Neovim's process.
#[derive(Debug)]
pub struct EnvVar {
    pub name: String,
    pub value: EnvValue,
}

/// The mathematical model of an [`EnvValue`].
pub enum EnvValueModel {
    Path(PathModel),
    Text(Seq<char>),
    SearchPath,
}

/// The mathematical model of an [`EnvVar`].
pub struct EnvVarModel {
    pub name: Seq<char>,
    pub value: EnvValueModel,
}

impl View for EnvValue {
    type V = EnvValueModel;

    open spec fn view(&self) -> EnvValueModel {
        match self {
            EnvValue::Path(p) => EnvValueModel::Path(p@),
            EnvValue::Text(t) => EnvValueModel::Text(t@),
            EnvValue::SearchPath => EnvValueModel::SearchPath,
        }
    }
}

impl View for EnvVar {
    type V = EnvVarModel;

    open spec fn view(&self) -> EnvVarModel {
        EnvVarModel { name: self.name@, value: self.value@ }
    }
}

/// The views of a sequence of environment variables.
pub open spec fn env_views(v: Seq<EnvVar>) -> Seq<EnvVarModel> {
    v.map_values(|e: EnvVar| e@)
}

/// The environment that isolates Neovim in the portable home, in the order set.
pub open spec fn spec_nvim_environment(layout: LayoutModel) -> Seq<EnvVarModel> {
    seq![
        EnvVarModel { name: "LAZYVIM_HOME"@, value: EnvValueModel::Path(layout.home) },
        EnvVarModel { name: "NVIM_APPNAME"@, value: EnvValueModel::Text(spec_app_name()) },
        EnvVarModel { name: "XDG_CONFIG_HOME"@, value: EnvValueModel::Path(layout.config_home) },
        EnvVarModel { name: "XDG_DATA_HOME"@, value: EnvValueModel::Path(layout.data_home) },
        EnvVarModel { name: "XDG_STATE_HOME"@, value: EnvValueModel::Path(layout.state_home) },
        EnvVarModel { name: "XDG_CACHE_HOME"@, value: EnvValueModel::Path(layout.cache_home) },
        EnvVarModel { name: "PATH"@, value: EnvValueModel::SearchPath },
    ]
}

fn env_var(name: &str, value: EnvValue) -> (r: EnvVar)
    ensures
        r@ == (EnvVarModel { name: name@, value: value@ }),
{
    EnvVar { name: String::from_str(name), value }
}

/// The environment that every Neovim process started by the launcher gets:
/// `LAZYVIM_HOME` is the portable home, `NVIM_APPNAME` is `lazyvim`, the XDG
/// configuration, data, state and cache homes are the runtime directories,
/// and `PATH` is the launcher's search path.
pub fn nvim_environment(layout: &RuntimeLayout) -> (env: Vec<EnvVar>)
    ensures
        env_views(env@) == spec_nvim_environment(layout@),
{
    let mut env: Vec<EnvVar> = Vec::new();
    env.push(env_var("LAZYVIM_HOME", EnvValue::Path(layout.home.duplicate())));
    env.push(env_var("NVIM_APPNAME", EnvValue::Text(String::from_str("lazyvim"))));
    env.push(env_var("XDG_CONFIG_HOME", EnvValue::Path(layout.config_home.duplicate())));
    env.push(env_var("XDG_DATA_HOME", EnvValue::Path(layout.data_home.duplicate())));
    env.push(env_var("XDG_STATE_HOME", EnvValue::Path(layout.state_home.duplicate())));
    env.push(env_var("XDG_CACHE_HOME", EnvValue::Path(layout.cache_home.duplicate())));
    env.push(env_var("PATH", EnvValue::SearchPath));
    assert(env_views(env@) =~= spec_nvim_environment(layout@));
    env
}

/// A line of the `where` report: a padded label and the path it shows.
#[derive(Debug)]
pub struct Location {
    pub label: String,
    pub path: JoinedPath,
}

/// The mathematical model of a [`Location`].
pub struct LocationModel {
    pub label: Seq<char>,
    pub path: PathModel,
}

impl View for Location {
    type V = LocationModel;

    open spec fn view(&self) -> LocationModel {
        LocationModel { label: self.label@, path: self.path@ }
    }
}

/// The views of a sequence of locations.
pub open spec fn location_views(v: Seq<Location>) -> Seq<LocationModel> {
    v.map_values(|l: Location| l@)
}

/// The `where` report, line by line.
pub open spec fn spec_locations(layout: LayoutModel, nvim: PathModel, has_launcher_dir: bool) -> Seq<
    LocationModel,
> {
    let lines = seq![
        LocationModel { label: "home:        "@, path: layout.home },
        LocationModel { label: "config:      "@, path: layout.config_dir },
        LocationModel { label: "data:        "@, path: layout.data_home.child(spec_app_name()) },
        LocationModel { label: "state:       "@, path: layout.state_home.child(spec_app_name()) },
        LocationModel { label: "cache:       "@, path: layout.cache_home.child(spec_app_name()) },
        LocationModel { label: "nvim:        "@, path: nvim },
    ];
    if has_launcher_dir {
        lines.push(LocationModel { label: "launcher:    "@, path: PathModel::at(RootModel::LauncherDir) })
    } else {
        lines
    }
}

fn location(label: &str, path: JoinedPath) -> (r: Location)
    ensures
        r@ == (LocationModel { label: label@, path: path@ }),
{
    Location { label: String::from_str(label), path }
}

/// The locations that `where` (and `doctor`) print: the portable home, the
/// LazyVim configuration, Neovim's data, state and cache directories for the
/// `lazyvim` application, the Neovim executable, and the launcher's
/// directory when it is known.
pub fn print_locations(layout: &RuntimeLayout, nvim: &JoinedPath, has_launcher_dir: bool) -> (lines: Vec<
    Location,
>)
    ensures
        location_views(lines@) == spec_locations(layout@, nvim@, has_launcher_dir),
{
    let mut lines: Vec<Location> = Vec::new();
    lines.push(location("home:        ", layout.home.duplicate()));
    lines.push(location("config:      ", layout.config_dir.duplicate()));
    lines.push(location("data:        ", layout.data_home.join("lazyvim")));
    lines.push(location("state:       ", layout.state_home.join("lazyvim")));
    lines.push(location("cache:       ", layout.cache_home.join("lazyvim")));
    lines.push(location("nvim:        ", nvim.duplicate()));
    if has_launcher_dir {
        lines.push(location("launcher:    ", JoinedPath::from_root(crate::paths::Root::LauncherDir)));
    }
    assert(location_views(lines@) =~= spec_locations(layout@, nvim@, has_launcher_dir));
    lines
}

/// Neovim is isolated in the portable home: its application name is
/// `lazyvim`, its XDG configuration, data, state and cache homes are `config`,
/// `data`, `state` and `cache` under the portable home, so LazyVim's
/// configuration is read from `config/lazyvim` there.
pub proof fn lemma_environment_isolated(home: PathModel)
    ensures
        ({
            let layout = crate::runtime::spec_runtime_layout(home);
            let env = spec_nvim_environment(layout);
            &&& env.len() == 7
            &&& env[0] == (EnvVarModel { name: "LAZYVIM_HOME"@, value: EnvValueModel::Path(home) })
            &&& env[1] == (EnvVarModel { name: "NVIM_APPNAME"@, value: EnvValueModel::Text("lazyvim"@) })
            &&& env[2] == (EnvVarModel {
                name: "XDG_CONFIG_HOME"@,
                value: EnvValueModel::Path(home.child("config"@)),
            })
            &&& env[3] == (EnvVarModel {
                name: "XDG_DATA_HOME"@,
                value: EnvValueModel::Path(home.child("data"@)),
            })
            &&& env[4] == (EnvVarModel {
                name: "XDG_STATE_HOME"@,
                value: EnvValueModel::Path(home.child("state"@)),
            })
            &&& env[5] == (EnvVarModel {
                name: "XDG_CACHE_HOME"@,
                value: EnvValueModel::Path(home.child("cache"@)),
            })
            &&& env[6] == (EnvVarModel { name: "PATH"@, value: EnvValueModel::SearchPath })
            &&& layout.config_dir == home.child("config"@).child("lazyvim"@)
        }),
{
}

/// The `where` report shows each location exactly: the `nvim:` line is the
/// resolved Neovim path given, whatever it is; the other lines are the home,
/// the configuration directory and the `lazyvim` directories of the data,
/// state and cache homes; the `launcher:` line comes last and only when the
/// launcher's directory is known.
pub proof fn lemma_locations_show_given_paths(layout: LayoutModel, nvim: PathModel, has_launcher_dir: bool)
    ensures
        ({
            let lines = spec_locations(layout, nvim, has_launcher_dir);
            &&& lines.len() == if has_launcher_dir { 7int } else { 6int }
            &&& lines[0].path == layout.home
            &&& lines[1].path == layout.config_dir
            &&& lines[2].path == layout.data_home.child("lazyvim"@)
            &&& lines[3].path == layout.state_home.child("lazyvim"@)
            &&& lines[4].path == layout.cache_home.child("lazyvim"@)
            &&& lines[5].label == "nvim:        "@
            &&& lines[5].path == nvim
            &&& has_launcher_dir ==> lines[6].path == PathModel::at(RootModel::LauncherDir)
        }),
{
}

} // verus!

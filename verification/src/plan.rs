use vstd::prelude::*;
use crate::cli::{CliCommand, CommandModel};
use crate::paths::views;

verus! {

/// The plugin-manager operations that run headless.
#[derive(Clone, Copy, Debug, PartialEq, Eq, Structural)]
pub enum LazyOp {
    Sync,
    Restore,
    Update,
    Clean,
}

/// What to do once the portable runtime is prepared.
#[derive(Debug)]
pub enum Action {
    Launch(Vec<String>),
    Doctor,
    Where,
    Lazy(LazyOp),
    InstallNvim,
}

/// What the launcher does for a command.
#[derive(Debug)]
pub enum Plan {
    /// Print the usage text.
    Help,
    /// Print the version.
    Version,
    /// Delete the portable home if `confirmed`, else only say what would be deleted.
    Reset { confirmed: bool },
    /// Prepare the runtime, installing Neovim and the starter configuration
    /// first if `bootstrap`, then perform `action`.
    Run { bootstrap: bool, action: Action },
}

/// The mathematical model of an [`Action`].
pub enum ActionModel {
    Launch(Seq<Seq<char>>),
    Doctor,
    Where,
    Lazy(LazyOp),
    InstallNvim,
}

/// The mathematical model of a [`Plan`].
pub enum PlanModel {
    Help,
    Version,
    Reset { confirmed: bool },
    Run { bootstrap: bool, action: ActionModel },
}

impl View for Action {
    type V = ActionModel;

    open spec fn view(&self) -> ActionModel {
        match self {
            Action::Launch(args) => ActionModel::Launch(views(args@)),
            Action::Doctor => ActionModel::Doctor,
            Action::Where => ActionModel::Where,
            Action::Lazy(op) => ActionModel::Lazy(*op),
            Action::InstallNvim => ActionModel::InstallNvim,
        }
    }
}

impl View for Plan {
    type V = PlanModel;

    open spec fn view(&self) -> PlanModel {
        match self {
            Plan::Help => PlanModel::Help,
            Plan::Version => PlanModel::Version,
            Plan::Reset { confirmed } => PlanModel::Reset { confirmed: *confirmed },
            Plan::Run { bootstrap, action } => PlanModel::Run { bootstrap: *bootstrap, action: action@ },
        }
    }
}

/// The plan for a command. Only `doctor` and `where` run without bootstrapping.
pub open spec fn spec_plan(command: CommandModel) -> PlanModel {
    match command {
        CommandModel::Help => PlanModel::Help,
        CommandModel::Version => PlanModel::Version,
        CommandModel::Reset { yes } => PlanModel::Reset { confirmed: yes },
        CommandModel::Launch(args) => PlanModel::Run { bootstrap: true, action: ActionModel::Launch(args) },
        CommandModel::Doctor => PlanModel::Run { bootstrap: false, action: ActionModel::Doctor },
        CommandModel::Where => PlanModel::Run { bootstrap: false, action: ActionModel::Where },
        CommandModel::Sync => PlanModel::Run { bootstrap: true, action: ActionModel::Lazy(LazyOp::Sync) },
        CommandModel::Restore => PlanModel::Run {
            bootstrap: true,
            action: ActionModel::Lazy(LazyOp::Restore),
        },
        CommandModel::Update => PlanModel::Run { bootstrap: true, action: ActionModel::Lazy(LazyOp::Update) },
        CommandModel::Clean => PlanModel::Run { bootstrap: true, action: ActionModel::Lazy(LazyOp::Clean) },
        CommandModel::InstallNvim => PlanModel::Run { bootstrap: true, action: ActionModel::InstallNvim },
    }
}

/// Decides what the launcher does for a parsed command: help and version
/// print and stop, `reset` deletes the portable home only when confirmed,
/// and every other command prepares the runtime (bootstrapping Neovim and the
/// starter configuration, except for `doctor` and `where`) and then acts.
pub fn plan(command: CliCommand) -> (p: Plan)
    ensures
        p@ == spec_plan(command@),
{
    match command {
        CliCommand::Help => Plan::Help,
        CliCommand::Version => Plan::Version,
        CliCommand::Reset { yes } => Plan::Reset { confirmed: yes },
        CliCommand::Launch(args) => Plan::Run { bootstrap: true, action: Action::Launch(args) },
        CliCommand::Doctor => Plan::Run { bootstrap: false, action: Action::Doctor },
        CliCommand::Where => Plan::Run { bootstrap: false, action: Action::Where },
        CliCommand::Sync => Plan::Run { bootstrap: true, action: Action::Lazy(LazyOp::Sync) },
        CliCommand::Restore => Plan::Run { bootstrap: true, action: Action::Lazy(LazyOp::Restore) },
        CliCommand::Update => Plan::Run { bootstrap: true, action: Action::Lazy(LazyOp::Update) },
        CliCommand::Clean => Plan::Run { bootstrap: true, action: Action::Lazy(LazyOp::Clean) },
        CliCommand::InstallNvim => Plan::Run { bootstrap: true, action: Action::InstallNvim },
    }
}

/// Inspecting the installation never installs anything: a command runs
/// without bootstrapping exactly when it is `doctor` or `where`, and a reset
/// deletes exactly when it was confirmed.
pub proof fn lemma_only_inspection_skips_bootstrap(command: CommandModel)
    ensures
        spec_plan(command) matches PlanModel::Run { bootstrap, .. } ==> (!bootstrap <==> (command
            is Doctor || command is Where)),
        command is Reset ==> spec_plan(command) == (PlanModel::Reset { confirmed: command->yes }),
{
}

/// The plugin-manager subcommand of an operation.
pub open spec fn spec_lazy_op_name(op: LazyOp) -> Seq<char> {
    match op {
        LazyOp::Sync => "sync"@,
        LazyOp::Restore => "restore"@,
        LazyOp::Update => "update"@,
        LazyOp::Clean => "clean"@,
    }
}

/// The plugin-manager subcommand of an operation.
pub fn lazy_op_name(op: LazyOp) -> (name: &'static str)
    ensures
        name@ == spec_lazy_op_name(op),
{
    match op {
        LazyOp::Sync => "sync",
        LazyOp::Restore => "restore",
        LazyOp::Update => "update",
        LazyOp::Clean => "clean",
    }
}

/// The Neovim arguments that run a plugin-manager operation headless and quit.
pub open spec fn spec_lazy_command_args(op: LazyOp) -> Seq<Seq<char>> {
    seq!["--headless"@, "+Lazy! "@ + spec_lazy_op_name(op), "+qa"@]
}

/// Neovim's arguments for a plugin-manager operation:
/// `--headless`, `+Lazy! <operation>`, `+qa`.
pub fn lazy_command_args(op: LazyOp) -> (args: Vec<String>)
    ensures
        views(args@) == spec_lazy_command_args(op),
{
    let mut args: Vec<String> = Vec::new();
    args.push(String::from_str("--headless"));
    args.push(String::from_str("+Lazy! ").concat(lazy_op_name(op)));
    args.push(String::from_str("+qa"));
    assert(views(args@) =~= spec_lazy_command_args(op));
    args
}

/// A plugin-manager command runs the operation of the same name: for the
/// words `sync`, `restore`, `update` and `clean`, the plan bootstraps and then
/// passes `+Lazy! <word>` to Neovim.
pub proof fn lemma_lazy_command_runs_its_word(rest: Seq<Seq<char>>)
    ensures
        forall|word: Seq<char>|
            #![trigger crate::cli::spec_command(seq![word] + rest)]
            (word == "sync"@ || word == "restore"@ || word == "update"@ || word == "clean"@) ==> (
            spec_plan(crate::cli::spec_command(seq![word] + rest)) matches PlanModel::Run {
                bootstrap,
                action: ActionModel::Lazy(op),
            } && bootstrap && spec_lazy_op_name(op) == word && spec_lazy_command_args(op)[1] == "+Lazy! "@
                + word),
{
    crate::cli::lemma_command_words(rest);
}

} // verus!

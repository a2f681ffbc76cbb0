use lib::cli::{parse_cli, Cli, CliCommand};
use lib::plan::{lazy_command_args, plan, Action, LazyOp, Plan};

fn args(list: &[&str]) -> Vec<String> {
    list.iter().map(|s| s.to_string()).collect()
}

fn parse(list: &[&str]) -> Cli {
    parse_cli(args(list))
}

fn launch_args(cli: &Cli) -> Vec<String> {
    match &cli.command {
        CliCommand::Launch(a) => a.clone(),
        other => panic!("expected a launch, got {:?}", other),
    }
}

#[test]
fn no_arguments_launch_neovim() {
    let cli = parse(&[]);
    assert_eq!(cli.home, None);
    assert_eq!(launch_args(&cli), Vec::<String>::new());
}

#[test]
fn plain_arguments_reach_neovim_unchanged() {
    let cli = parse(&[".", "src/main.rs", "-c", "q"]);
    assert_eq!(cli.home, None);
    assert_eq!(launch_args(&cli), args(&[".", "src/main.rs", "-c", "q"]));
}

#[test]
fn home_option_with_separate_value() {
    let cli = parse(&["--home", "/tmp/lv", "doctor"]);
    assert_eq!(cli.home.as_deref(), Some("/tmp/lv"));
    assert!(matches!(cli.command, CliCommand::Doctor));
}

#[test]
fn home_option_with_equals_sign() {
    let cli = parse(&["sync", "--home=~/.my-lazyvim"]);
    assert_eq!(cli.home.as_deref(), Some("~/.my-lazyvim"));
    assert!(matches!(cli.command, CliCommand::Sync));
}

#[test]
fn last_home_option_wins() {
    let cli = parse(&["--home", "a", "file.txt", "--home=b"]);
    assert_eq!(cli.home.as_deref(), Some("b"));
    assert_eq!(launch_args(&cli), args(&["file.txt"]));
    let cli = parse(&["--home=b", "--home", "c"]);
    assert_eq!(cli.home.as_deref(), Some("c"));
}

#[test]
fn dangling_home_option_stays() {
    let cli = parse(&["file.txt", "--home"]);
    assert_eq!(cli.home, None);
    assert_eq!(launch_args(&cli), args(&["file.txt", "--home"]));
}

#[test]
fn home_value_may_look_like_an_option() {
    let cli = parse(&["--home", "--home", "x"]);
    assert_eq!(cli.home.as_deref(), Some("--home"));
    assert_eq!(launch_args(&cli), args(&["x"]));
}

#[test]
fn empty_home_assignment() {
    let cli = parse(&["--home="]);
    assert_eq!(cli.home.as_deref(), Some(""));
    assert_eq!(launch_args(&cli), Vec::<String>::new());
}

#[test]
fn home_assignment_keeps_unicode_value() {
    let cli = parse(&["--home=/tmp/ñandú", "where"]);
    assert_eq!(cli.home.as_deref(), Some("/tmp/ñandú"));
    assert!(matches!(cli.command, CliCommand::Where));
}

#[test]
fn subcommands_are_recognised() {
    assert!(matches!(parse(&["doctor"]).command, CliCommand::Doctor));
    assert!(matches!(parse(&["where"]).command, CliCommand::Where));
    assert!(matches!(parse(&["sync"]).command, CliCommand::Sync));
    assert!(matches!(parse(&["restore"]).command, CliCommand::Restore));
    assert!(matches!(parse(&["update"]).command, CliCommand::Update));
    assert!(matches!(parse(&["clean"]).command, CliCommand::Clean));
    assert!(matches!(parse(&["install-nvim"]).command, CliCommand::InstallNvim));
    assert!(matches!(parse(&["help"]).command, CliCommand::Help));
    assert!(matches!(parse(&["--help"]).command, CliCommand::Help));
    assert!(matches!(parse(&["-h"]).command, CliCommand::Help));
    assert!(matches!(parse(&["--version"]).command, CliCommand::Version));
    assert!(matches!(parse(&["-V"]).command, CliCommand::Version));
}

#[test]
fn subcommand_only_counts_in_first_place() {
    let cli = parse(&["file", "doctor"]);
    assert_eq!(launch_args(&cli), args(&["file", "doctor"]));
}

#[test]
fn reset_needs_confirmation() {
    assert!(matches!(parse(&["reset"]).command, CliCommand::Reset { yes: false }));
    assert!(matches!(parse(&["reset", "--yes"]).command, CliCommand::Reset { yes: true }));
    assert!(matches!(parse(&["reset", "x", "-y"]).command, CliCommand::Reset { yes: true }));
    assert!(matches!(parse(&["--home", "h", "reset", "--yes"]).command, CliCommand::Reset { yes: true }));
    assert!(matches!(parse(&["reset", "--yes=1"]).command, CliCommand::Reset { yes: false }));
}

#[test]
fn plans_follow_commands() {
    assert!(matches!(plan(CliCommand::Help), Plan::Help));
    assert!(matches!(plan(CliCommand::Version), Plan::Version));
    assert!(matches!(plan(CliCommand::Reset { yes: false }), Plan::Reset { confirmed: false }));
    assert!(matches!(plan(CliCommand::Reset { yes: true }), Plan::Reset { confirmed: true }));
    assert!(matches!(plan(CliCommand::Doctor), Plan::Run { bootstrap: false, action: Action::Doctor }));
    assert!(matches!(plan(CliCommand::Where), Plan::Run { bootstrap: false, action: Action::Where }));
    assert!(matches!(plan(CliCommand::InstallNvim), Plan::Run { bootstrap: true, action: Action::InstallNvim }));
    assert!(matches!(
        plan(CliCommand::Sync),
        Plan::Run { bootstrap: true, action: Action::Lazy(LazyOp::Sync) }
    ));
    assert!(matches!(
        plan(CliCommand::Restore),
        Plan::Run { bootstrap: true, action: Action::Lazy(LazyOp::Restore) }
    ));
    assert!(matches!(
        plan(CliCommand::Update),
        Plan::Run { bootstrap: true, action: Action::Lazy(LazyOp::Update) }
    ));
    assert!(matches!(
        plan(CliCommand::Clean),
        Plan::Run { bootstrap: true, action: Action::Lazy(LazyOp::Clean) }
    ));
    match plan(CliCommand::Launch(args(&["a.txt"]))) {
        Plan::Run { bootstrap: true, action: Action::Launch(a) } => assert_eq!(a, args(&["a.txt"])),
        other => panic!("unexpected plan {:?}", other),
    }
}

#[test]
fn lazy_operations_run_headless() {
    assert_eq!(lazy_command_args(LazyOp::Sync), args(&["--headless", "+Lazy! sync", "+qa"]));
    assert_eq!(lazy_command_args(LazyOp::Restore), args(&["--headless", "+Lazy! restore", "+qa"]));
    assert_eq!(lazy_command_args(LazyOp::Update), args(&["--headless", "+Lazy! update", "+qa"]));
    assert_eq!(lazy_command_args(LazyOp::Clean), args(&["--headless", "+Lazy! clean", "+qa"]));
}

#[test]
fn parsing_the_remaining_arguments_again_changes_nothing() {
    let cli = parse(&["--home", "h", "x", "--home=y", "z", "--home"]);
    let again = parse_cli(launch_args(&cli));
    assert_eq!(again.home, None);
    assert_eq!(launch_args(&again), launch_args(&cli));
}

use lib::text::char_is_whitespace;
use lib::doctor::{check_path_tool, check_report, doctor_checks, summary_line, CheckOutcome};
use lib::install::{
    bootstrap_step, clears_quarantine, clone_failure_message, git_clone_args, install_decision,
    missing_neovim_message, starter_action, starter_repository, BootstrapStep, InstallDecision, Probe,
    StarterAction,
};
use lib::paths::{JoinedPath, Root};
use lib::platform::{Arch, Os, Platform};
use lib::text::{lines, trim};

fn strings(list: &[&str]) -> Vec<String> {
    list.iter().map(|s| s.to_string()).collect()
}

#[test]
fn trimming_whitespace() {
    assert_eq!(trim("  hello \n"), "hello");
    assert_eq!(trim("\t\r\n"), "");
    assert_eq!(trim(""), "");
    assert_eq!(trim("a b"), "a b");
    assert_eq!(trim("\u{3000}wide\u{a0}"), "wide");
}

#[test]
fn splitting_lines() {
    assert_eq!(lines(""), Vec::<String>::new());
    assert_eq!(lines("a\nb"), strings(&["a", "b"]));
    assert_eq!(lines("a\r\nb\r\n"), strings(&["a", "b"]));
    assert_eq!(lines("\n\nx"), strings(&["", "", "x"]));
    assert_eq!(lines("x\r"), strings(&["x\r"]));
    assert_eq!(lines("one\n"), strings(&["one"]));
    for text in ["", "a\nb", "a\r\nb\r\n", "\n\nx", "x\r", "one\n", "\r\n\r\n"] {
        let expected: Vec<String> = text.lines().map(String::from).collect();
        assert_eq!(lines(text), expected);
    }
}

#[test]
fn summary_is_first_nonblank_line() {
    assert_eq!(summary_line("\n   \nNVIM v0.10.0\nBuild type\n", ""), "NVIM v0.10.0");
    assert_eq!(summary_line("  \n", "warning: x\n"), "warning: x");
    assert_eq!(summary_line("", ""), "ok");
    assert_eq!(summary_line(" \t\n", "\r\n"), "ok");
    assert_eq!(summary_line("  padded  \n", ""), "  padded  ");
}

#[test]
fn report_lines() {
    let ok = CheckOutcome::Succeeded { stdout: "git version 2.43.0\n".to_string(), stderr: String::new() };
    assert_eq!(check_report("git", false, &ok), "[ok]   git: git version 2.43.0");
    let quiet = CheckOutcome::Succeeded { stdout: String::new(), stderr: String::new() };
    assert_eq!(check_report("fd", false, &quiet), "[ok]   fd: ok");
    let failed = CheckOutcome::Failed { status: "exit status: 2".to_string(), stderr: "  boom \n".to_string() };
    assert_eq!(check_report("nvim", true, &failed), "[fail] nvim: exited with exit status: 2 boom");
    assert_eq!(check_report("rg", false, &failed), "[warn] rg: exited with exit status: 2 boom");
    let missing = CheckOutcome::NotStarted { error: "No such file or directory (os error 2)".to_string() };
    assert_eq!(
        check_report("lazygit", false, &missing),
        "[warn] lazygit: No such file or directory (os error 2)"
    );
    assert_eq!(check_report("nvim", true, &missing), "[fail] nvim: No such file or directory (os error 2)");
}

#[test]
fn doctor_checks_nvim_then_tools() {
    let nvim = JoinedPath::text("/h/bin/nvim");
    let checks = doctor_checks(&nvim);
    let labels: Vec<&str> = checks.iter().map(|c| c.label.as_str()).collect();
    assert_eq!(labels, vec!["nvim", "git", "curl", "rg", "fd", "lazygit"]);
    assert!(checks[0].required);
    assert!(checks[1..].iter().all(|c| !c.required));
    assert!(checks.iter().all(|c| c.args == strings(&["--version"])));
    match &checks[0].program.root {
        Root::Text(t) => assert_eq!(t, "/h/bin/nvim"),
        other => panic!("unexpected root {:?}", other),
    }
    match &checks[3].program.root {
        Root::Text(t) => assert_eq!(t, "rg"),
        other => panic!("unexpected root {:?}", other),
    }
}

#[test]
fn path_tool_check() {
    let check = check_path_tool("git", strings(&["--version"]));
    assert_eq!(check.label, "git");
    assert!(!check.required);
    assert!(check.program.parts.is_empty());
    assert!(matches!(&check.program.root, Root::Text(t) if t == "git"));
    assert_eq!(check.args, strings(&["--version"]));
}

#[test]
fn bootstrap_only_when_asked() {
    assert_eq!(lib::install::bootstrap_entry(true), Some(Probe::First));
    assert_eq!(lib::install::bootstrap_entry(false), None);
}

#[test]
fn bootstrap_installs_once() {
    assert_eq!(bootstrap_step(Probe::First, true), BootstrapStep::EnsureStarterConfig);
    assert_eq!(bootstrap_step(Probe::First, false), BootstrapStep::InstallNeovim);
    assert_eq!(bootstrap_step(Probe::AfterInstall, true), BootstrapStep::EnsureStarterConfig);
    assert_eq!(bootstrap_step(Probe::AfterInstall, false), BootstrapStep::GiveUp);
    assert_eq!(
        missing_neovim_message("nvim"),
        "Neovim is not available. Install it manually, set LAZYVIM_NVIM, or run `lazyvim install-nvim`. Tried: nvim"
    );
}

#[test]
fn install_only_when_needed() {
    assert_eq!(install_decision(true, true), InstallDecision::AlreadyInstalled);
    assert_eq!(install_decision(true, false), InstallDecision::Install);
    assert_eq!(install_decision(false, true), InstallDecision::Install);
    assert_eq!(install_decision(false, false), InstallDecision::Install);
}

#[test]
fn starter_configuration() {
    assert_eq!(starter_action(true, true, true), StarterAction::Keep);
    assert_eq!(starter_action(false, true, true), StarterAction::Refuse);
    assert_eq!(starter_action(false, true, false), StarterAction::Clone { clear_existing: true });
    assert_eq!(starter_action(false, false, false), StarterAction::Clone { clear_existing: false });
    assert_eq!(starter_repository(None), "https://github.com/LazyVim/starter.git");
    assert_eq!(starter_repository(Some("file:///repo".to_string())), "file:///repo");
    assert_eq!(git_clone_args("u"), strings(&["clone", "--depth=1", "u"]));
    assert_eq!(
        clone_failure_message("u", " out \n", "\nfatal: nope\n"),
        "failed to clone LazyVim starter from u: outfatal: nope"
    );
}

#[test]
fn quarantine_only_on_macos() {
    assert!(clears_quarantine(Platform { os: Os::MacOs, arch: Arch::Aarch64 }));
    assert!(!clears_quarantine(Platform { os: Os::Linux, arch: Arch::X86_64 }));
}

#[test]
fn whitespace_agrees_with_std() {
    for n in 0u32..=0x10FFFF {
        if let Some(c) = char::from_u32(n) {
            assert_eq!(char_is_whitespace(c), c.is_whitespace(), "U+{:04X}", n);
        }
    }
}

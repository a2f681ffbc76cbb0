use vstd::prelude::*;
use crate::paths::views;
use crate::text::{has_prefix, same_text, skip_chars, starts_with};

verus! {

/// What the launcher was asked to do.
#[derive(Debug)]
pub enum CliCommand {
    /// Start Neovim with these arguments.
    Launch(Vec<String>),
    Doctor,
    Where,
    Sync,
    Restore,
    Update,
    Clean,
    InstallNvim,
    Reset { yes: bool },
    Help,
    Version,
}

/// The mathematical model of a [`CliCommand`].
pub enum CommandModel {
    Launch(Seq<Seq<char>>),
    Doctor,
    Where,
    Sync,
    Restore,
    Update,
    Clean,
    InstallNvim,
    Reset { yes: bool },
    Help,
    Version,
}

impl View for CliCommand {
    type V = CommandModel;

    open spec fn view(&self) -> CommandModel {
        match self {
            CliCommand::Launch(args) => CommandModel::Launch(views(args@)),
            CliCommand::Doctor => CommandModel::Doctor,
            CliCommand::Where => CommandModel::Where,
            CliCommand::Sync => CommandModel::Sync,
            CliCommand::Restore => CommandModel::Restore,
            CliCommand::Update => CommandModel::Update,
            CliCommand::Clean => CommandModel::Clean,
            CliCommand::InstallNvim => CommandModel::InstallNvim,
            CliCommand::Reset { yes } => CommandModel::Reset { yes: *yes },
            CliCommand::Help => CommandModel::Help,
            CliCommand::Version => CommandModel::Version,
        }
    }
}

/// A parsed command line: the portable home given with `--home`, if any,
/// and the command.
#[derive(Debug)]
pub struct Cli {
    pub home: Option<String>,
    pub command: CliCommand,
}

/// The mathematical model of a [`Cli`].
pub struct CliModel {
    pub home: Option<Seq<char>>,
    pub command: CommandModel,
}

/// The view of an optional string.
pub open spec fn opt_view(o: Option<String>) -> Option<Seq<char>> {
    match o {
        Some(s) => Some(s@),
        None => None,
    }
}

impl View for Cli {
    type V = CliModel;

    open spec fn view(&self) -> CliModel {
        CliModel { home: opt_view(self.home), command: self.command@ }
    }
}

/// The later of two `--home` values: `later` if there is one, else `earlier`.
pub open spec fn latest(earlier: Option<Seq<char>>, later: Option<Seq<char>>) -> Option<Seq<char>> {
    if later is Some {
        later
    } else {
        earlier
    }
}

/// Takes the `--home <path>` and `--home=<path>` options out of the
/// arguments, left to right. Returns the arguments that remain and the value
/// of the last such option. A `--home` with nothing after it is the last
/// argument and stays.
pub open spec fn scan_home(args: Seq<Seq<char>>) -> (Seq<Seq<char>>, Option<Seq<char>>)
    decreases args.len(),
{
    if args.len() == 0 {
        (Seq::empty(), None)
    } else if args[0] == "--home"@ && args.len() >= 2 {
        let rest = scan_home(args.skip(2));
        (rest.0, latest(Some(args[1]), rest.1))
    } else if args[0] != "--home"@ && has_prefix(args[0], "--home="@) {
        let rest = scan_home(args.skip(1));
        (rest.0, latest(Some(args[0].skip("--home="@.len() as int)), rest.1))
    } else {
        let rest = scan_home(args.skip(1));
        (seq![args[0]] + rest.0, rest.1)
    }
}

/// An argument that confirms a reset.
pub open spec fn is_yes_flag(arg: Seq<char>) -> bool {
    arg == "--yes"@ || arg == "-y"@
}

/// The command that the remaining arguments name by their first element.
pub open spec fn spec_command(args: Seq<Seq<char>>) -> CommandModel {
    if args.len() == 0 {
        CommandModel::Launch(args)
    } else {
        let first = args[0];
        if first == "doctor"@ {
            CommandModel::Doctor
        } else if first == "where"@ {
            CommandModel::Where
        } else if first == "sync"@ {
            CommandModel::Sync
        } else if first == "restore"@ {
            CommandModel::Restore
        } else if first == "update"@ {
            CommandModel::Update
        } else if first == "clean"@ {
            CommandModel::Clean
        } else if first == "install-nvim"@ {
            CommandModel::InstallNvim
        } else if first == "reset"@ {
            CommandModel::Reset { yes: exists|i: int| 0 <= i < args.len() && is_yes_flag(#[trigger] args[i]) }
        } else if first == "help"@ || first == "--help"@ || first == "-h"@ {
            CommandModel::Help
        } else if first == "--version"@ || first == "-V"@ {
            CommandModel::Version
        } else {
            CommandModel::Launch(args)
        }
    }
}

/// The parse of a command line (without the program name).
pub open spec fn spec_parse_cli(args: Seq<Seq<char>>) -> CliModel {
    let scanned = scan_home(args);
    CliModel { home: scanned.1, command: spec_command(scanned.0) }
}

proof fn lemma_skip_skip(args: Seq<Seq<char>>, i: int, n: int)
    requires
        0 <= i,
        0 <= n,
        i + n <= args.len(),
    ensures
        args.skip(i).skip(n) == args.skip(i + n),
{
    assert(args.skip(i).skip(n) =~= args.skip(i + n));
}

/// Whether any argument confirms a reset.
fn has_yes_flag(args: &Vec<String>) -> (r: bool)
    ensures
        r == exists|i: int| 0 <= i < args@.len() && is_yes_flag(#[trigger] views(args@)[i]),
{
    let mut i: usize = 0;
    while i < args.len()
        invariant
            i <= args.len(),
            forall|j: int| 0 <= j < i ==> !is_yes_flag(#[trigger] views(args@)[j]),
        decreases args.len() - i,
    {
        if same_text(&args[i], "--yes") || same_text(&args[i], "-y") {
            assert(is_yes_flag(views(args@)[i as int]));
            return true;
        }
        i = i + 1;
    }
    false
}

/// The command named by the first remaining argument.
fn command_of(args: Vec<String>) -> (r: CliCommand)
    ensures
        r@ == spec_command(views(args@)),
{
    if args.len() == 0 {
        return CliCommand::Launch(args);
    }
    let first = &args[0];
    if same_text(first, "doctor") {
        CliCommand::Doctor
    } else if same_text(first, "where") {
        CliCommand::Where
    } else if same_text(first, "sync") {
        CliCommand::Sync
    } else if same_text(first, "restore") {
        CliCommand::Restore
    } else if same_text(first, "update") {
        CliCommand::Update
    } else if same_text(first, "clean") {
        CliCommand::Clean
    } else if same_text(first, "install-nvim") {
        CliCommand::InstallNvim
    } else if same_text(first, "reset") {
        CliCommand::Reset { yes: has_yes_flag(&args) }
    } else if same_text(first, "help") || same_text(first, "--help") || same_text(first, "-h") {
        CliCommand::Help
    } else if same_text(first, "--version") || same_text(first, "-V") {
        CliCommand::Version
    } else {
        CliCommand::Launch(args)
    }
}

/// Parses the launcher's arguments (without the program name).
///
/// `--home <path>` and `--home=<path>` are taken out wherever they stand, and
/// the last one gives the portable home; a `--home` with nothing after it
/// stays in place. The first remaining argument may name a command (`doctor`,
/// `where`, `sync`, `restore`, `update`, `clean`, `install-nvim`, `reset`,
/// `help`/`--help`/`-h`, `--version`/`-V`); `reset` is confirmed by a
/// `--yes` or `-y` anywhere among the remaining arguments. Anything else
/// launches Neovim with all the remaining arguments.
pub fn parse_cli(args: Vec<String>) -> (cli: Cli)
    ensures
        cli@ == spec_parse_cli(views(args@)),
{
    let ghost all = views(args@);
    let mut kept: Vec<String> = Vec::new();
    let mut home: Option<String> = None;
    let mut index: usize = 0;
    let len = args.len();
    assert(all.skip(0) =~= all);
    assert(views(kept@) + scan_home(all).0 =~= scan_home(all).0);
    while index < len
        invariant
            len == args.len(),
            all == views(args@),
            index <= len,
            scan_home(all) == ({
                let rest = scan_home(all.skip(index as int));
                (views(kept@) + rest.0, latest(opt_view(home), rest.1))
            }),
        decreases len - index,
    {
        let ghost tail = all.skip(index as int);
        assert(tail.len() > 0 && tail[0] == all[index as int]);
        let arg = &args[index];
        if same_text(arg, "--home") && index + 1 < len {
            proof {
                lemma_skip_skip(all, index as int, 2);
                assert(tail[1] == all[index + 1]);
            }
            home = Some(args[index + 1].clone());
            index = index + 2;
        } else if !same_text(arg, "--home") && starts_with(arg.as_str(), "--home=") {
            proof {
                lemma_skip_skip(all, index as int, 1);
                reveal_strlit("--home=");
            }
            home = Some(skip_chars(arg.as_str(), 7));
            index = index + 1;
        } else {
            proof {
                lemma_skip_skip(all, index as int, 1);
            }
            let ghost before = views(kept@);
            kept.push(arg.clone());
            assert(views(kept@) =~= before.push(all[index as int]));
            assert(before + (seq![all[index as int]] + scan_home(all.skip(index + 1)).0)
                =~= before.push(all[index as int]) + scan_home(all.skip(index + 1)).0);
            index = index + 1;
        }
    }
    assert(all.skip(len as int) =~= Seq::<Seq<char>>::empty());
    assert(views(kept@) + Seq::<Seq<char>>::empty() =~= views(kept@));
    let command = command_of(kept);
    Cli { home, command }
}

/// No argument is a `--home=` option, and a `--home` can only be the last argument.
pub open spec fn free_of_home_options(args: Seq<Seq<char>>) -> bool {
    forall|i: int|
        0 <= i < args.len() ==> !has_prefix(#[trigger] args[i], "--home="@) && (args[i] == "--home"@
            ==> i == args.len() - 1)
}

proof fn lemma_home_is_not_an_assignment()
    ensures
        !has_prefix("--home"@, "--home="@),
{
    reveal_strlit("--home");
    reveal_strlit("--home=");
}

/// The arguments that remain after the `--home` options are taken out hold
/// no `--home=` option, and a `--home` among them can only be the last one
/// (a `--home` with no value after it).
pub proof fn lemma_home_options_removed(args: Seq<Seq<char>>)
    ensures
        free_of_home_options(scan_home(args).0),
    decreases args.len(),
{
    lemma_home_is_not_an_assignment();
    if args.len() == 0 {
    } else if args[0] == "--home"@ && args.len() >= 2 {
        lemma_home_options_removed(args.skip(2));
    } else if args[0] != "--home"@ && has_prefix(args[0], "--home="@) {
        lemma_home_options_removed(args.skip(1));
    } else {
        lemma_home_options_removed(args.skip(1));
        let rest = scan_home(args.skip(1)).0;
        let kept = seq![args[0]] + rest;
        if args[0] == "--home"@ {
            assert(args.skip(1).len() == 0);
            assert(rest.len() == 0);
        }
        assert forall|i: int| 0 <= i < kept.len() implies !has_prefix(#[trigger] kept[i], "--home="@)
            && (kept[i] == "--home"@ ==> i == kept.len() - 1) by {
            if i > 0 {
                assert(kept[i] == rest[i - 1]);
            }
        }
    }
}

/// Arguments without `--home` options are all kept, in order, and give no home.
pub proof fn lemma_plain_arguments_pass_through(args: Seq<Seq<char>>)
    requires
        free_of_home_options(args),
    ensures
        scan_home(args) == (args, None::<Seq<char>>),
    decreases args.len(),
{
    lemma_home_is_not_an_assignment();
    if args.len() > 0 {
        let rest = args.skip(1);
        assert(!has_prefix(args[0], "--home="@));
        assert forall|i: int| 0 <= i < rest.len() implies !has_prefix(#[trigger] rest[i], "--home="@)
            && (rest[i] == "--home"@ ==> i == rest.len() - 1) by {
            assert(rest[i] == args[i + 1]);
        }
        lemma_plain_arguments_pass_through(rest);
        assert(seq![args[0]] + rest =~= args);
    }
}

/// Taking the `--home` options out is done once and for all: scanning what
/// remains finds no home and keeps everything, so the remaining arguments
/// reach Neovim unchanged.
pub proof fn lemma_home_scan_idempotent(args: Seq<Seq<char>>)
    ensures
        scan_home(scan_home(args).0) == (scan_home(args).0, None::<Seq<char>>),
{
    lemma_home_options_removed(args);
    lemma_plain_arguments_pass_through(scan_home(args).0);
}

/// Each command word, in first place, names its command whatever follows;
/// `reset` is confirmed exactly when a `--yes` or `-y` is among the
/// arguments; and arguments whose first element is no command word (or that
/// are empty) launch Neovim with all of them.
pub proof fn lemma_command_words(rest: Seq<Seq<char>>)
    ensures
        spec_command(seq!["doctor"@] + rest) == CommandModel::Doctor,
        spec_command(seq!["where"@] + rest) == CommandModel::Where,
        spec_command(seq!["sync"@] + rest) == CommandModel::Sync,
        spec_command(seq!["restore"@] + rest) == CommandModel::Restore,
        spec_command(seq!["update"@] + rest) == CommandModel::Update,
        spec_command(seq!["clean"@] + rest) == CommandModel::Clean,
        spec_command(seq!["install-nvim"@] + rest) == CommandModel::InstallNvim,
        spec_command(seq!["help"@] + rest) == CommandModel::Help,
        spec_command(seq!["--help"@] + rest) == CommandModel::Help,
        spec_command(seq!["-h"@] + rest) == CommandModel::Help,
        spec_command(seq!["--version"@] + rest) == CommandModel::Version,
        spec_command(seq!["-V"@] + rest) == CommandModel::Version,
        spec_command(seq!["reset"@] + rest) == (CommandModel::Reset {
            yes: exists|i: int| 0 <= i < rest.len() && is_yes_flag(#[trigger] rest[i]),
        }),
        spec_command(Seq::empty()) == CommandModel::Launch(Seq::empty()),
{
    reveal_strlit("doctor");
    reveal_strlit("where");
    reveal_strlit("sync");
    reveal_strlit("restore");
    reveal_strlit("update");
    reveal_strlit("clean");
    reveal_strlit("install-nvim");
    reveal_strlit("reset");
    reveal_strlit("help");
    reveal_strlit("--help");
    reveal_strlit("-h");
    reveal_strlit("--version");
    reveal_strlit("-V");
    reveal_strlit("--yes");
    reveal_strlit("-y");
    let words = seq![
        "doctor"@, "where"@, "sync"@, "restore"@, "update"@, "clean"@, "install-nvim"@, "reset"@,
        "help"@, "--help"@, "-h"@, "--version"@, "-V"@,
    ];
    assert forall|a: int, b: int| 0 <= a < b < words.len() implies #[trigger] words[a] != #[trigger] words[b] by {
        if words[a].len() == words[b].len() {
            assert(words[a][0] != words[b][0] || words[a][1] != words[b][1] || words[a][2] != words[b][2]);
        }
    }
    let r = seq!["reset"@] + rest;
    assert((exists|i: int| 0 <= i < r.len() && is_yes_flag(#[trigger] r[i])) == (exists|i: int|
        0 <= i < rest.len() && is_yes_flag(#[trigger] rest[i]))) by {
        assert("reset"@[0] != "--yes"@[0]);
        assert(r[0] == "reset"@);
        assert(!is_yes_flag(r[0]));
        if exists|i: int| 0 <= i < r.len() && is_yes_flag(#[trigger] r[i]) {
            let i = choose|i: int| 0 <= i < r.len() && is_yes_flag(#[trigger] r[i]);
            assert(r[i] == rest[i - 1]);
        }
        if exists|i: int| 0 <= i < rest.len() && is_yes_flag(#[trigger] rest[i]) {
            let i = choose|i: int| 0 <= i < rest.len() && is_yes_flag(#[trigger] rest[i]);
            assert(r[i + 1] == rest[i]);
        }
    }
}

/// Plain arguments (no `--home` option, not ending in a bare `--home`) in
/// front of others are kept in front, and leave the home to what follows.
pub proof fn lemma_plain_prefix_scan(args: Seq<Seq<char>>, tail: Seq<Seq<char>>)
    requires
        free_of_home_options(args),
        args.len() == 0 || args.last() != "--home"@,
    ensures
        scan_home(args + tail) == (args + scan_home(tail).0, scan_home(tail).1),
    decreases args.len(),
{
    lemma_home_is_not_an_assignment();
    if args.len() == 0 {
        assert(args + tail =~= tail);
        assert(args + scan_home(tail).0 =~= scan_home(tail).0);
    } else {
        let all = args + tail;
        let rest = args.skip(1);
        assert(all[0] == args[0]);
        assert(args[0] != "--home"@) by {
            if args[0] == "--home"@ {
                assert(0 == args.len() - 1);
            }
        }
        assert(!has_prefix(args[0], "--home="@));
        assert(all.skip(1) =~= rest + tail);
        assert forall|i: int| 0 <= i < rest.len() implies !has_prefix(#[trigger] rest[i], "--home="@) && (
        rest[i] == "--home"@ ==> i == rest.len() - 1) by {
            assert(rest[i] == args[i + 1]);
        }
        if rest.len() > 0 {
            assert(rest.last() == args.last());
        }
        lemma_plain_prefix_scan(rest, tail);
        assert(seq![args[0]] + (rest + scan_home(tail).0) =~= args + scan_home(tail).0);
    }
}

/// The last `--home` option wins: with a first `--home=<u>`, plain
/// arguments, and a last `--home=<w>`, the home is `w` and exactly the plain
/// arguments remain.
pub proof fn lemma_last_home_wins(u: Seq<char>, args: Seq<Seq<char>>, w: Seq<char>)
    requires
        free_of_home_options(args),
        args.len() == 0 || args.last() != "--home"@,
    ensures
        scan_home(seq!["--home="@ + u] + args + seq!["--home="@ + w]) == (args, Some(w)),
        scan_home(seq!["--home"@, u] + args + seq!["--home"@, w]) == (args, Some(w)),
{
    reveal_strlit("--home");
    reveal_strlit("--home=");
    let first = "--home="@ + u;
    let last = "--home="@ + w;
    assert(first.subrange(0, 7) =~= "--home="@);
    assert(last.subrange(0, 7) =~= "--home="@);
    assert(first.skip(7) =~= u);
    assert(last.skip(7) =~= w);
    assert(first != "--home"@) by {
        assert(first.len() >= 7);
    }
    assert(last != "--home"@) by {
        assert(last.len() >= 7);
    }
    let t = seq![last];
    assert(t.skip(1) =~= Seq::<Seq<char>>::empty());
    assert(t[0] == last);
    assert(has_prefix(last, "--home="@));
    assert(scan_home(t.skip(1)) == (Seq::<Seq<char>>::empty(), None::<Seq<char>>));
    assert(scan_home(t) == (Seq::<Seq<char>>::empty(), Some(w)));
    lemma_plain_prefix_scan(args, t);
    let all = seq![first] + args + t;
    assert(all.skip(1) =~= args + t);
    assert(args + Seq::<Seq<char>>::empty() =~= args);

    let t2 = seq!["--home"@, w];
    assert(t2.skip(2) =~= Seq::<Seq<char>>::empty());
    assert(scan_home(t2.skip(2)) == (Seq::<Seq<char>>::empty(), None::<Seq<char>>));
    assert(scan_home(t2) == (Seq::<Seq<char>>::empty(), Some(w)));
    lemma_plain_prefix_scan(args, t2);
    let all2 = seq!["--home"@, u] + args + t2;
    assert(all2[0] == "--home"@);
    assert(all2[1] == u);
    assert(all2.skip(2) =~= args + t2);
}

} // verus!

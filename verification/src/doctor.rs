use vstd::prelude::*;
use crate::paths::{views, JoinedPath, PathModel, RootModel};
use crate::text::{char_is_whitespace, is_blank, is_whitespace, lines, segments, spec_lines, spec_trim, trim};

verus! {

/// A tool that `doctor` runs with some arguments to see whether it works.
#[derive(Debug)]
pub struct ToolCheck {
    pub label: String,
    pub program: JoinedPath,
    pub args: Vec<String>,
    /// A required tool that fails is reported as a failure, any other as a warning.
    pub required: bool,
}

/// The mathematical model of a [`ToolCheck`].
pub struct ToolCheckModel {
    pub label: Seq<char>,
    pub program: PathModel,
    pub args: Seq<Seq<char>>,
    pub required: bool,
}

impl View for ToolCheck {
    type V = ToolCheckModel;

    open spec fn view(&self) -> ToolCheckModel {
        ToolCheckModel {
            label: self.label@,
            program: self.program@,
            args: views(self.args@),
            required: self.required,
        }
    }
}

/// The views of a sequence of checks.
pub open spec fn check_views(v: Seq<ToolCheck>) -> Seq<ToolCheckModel> {
    v.map_values(|c: ToolCheck| c@)
}

/// The check of an optional tool found on `PATH` by its name.
pub open spec fn spec_check_path_tool(name: Seq<char>, args: Seq<Seq<char>>) -> ToolCheckModel {
    ToolCheckModel {
        label: name,
        program: PathModel::at(RootModel::Text(name)),
        args,
        required: false,
    }
}

/// Checks an optional tool looked up on `PATH` by its name, which is also
/// its label.
pub fn check_path_tool(name: &str, args: Vec<String>) -> (check: ToolCheck)
    ensures
        check@ == spec_check_path_tool(name@, views(args@)),
{
    ToolCheck { label: String::from_str(name), program: JoinedPath::text(name), args, required: false }
}

fn version_args() -> (args: Vec<String>)
    ensures
        views(args@) == seq!["--version"@],
{
    let mut args: Vec<String> = Vec::new();
    args.push(String::from_str("--version"));
    assert(views(args@) =~= seq!["--version"@]);
    args
}

/// The checks that `doctor` runs, in order.
pub open spec fn spec_doctor_checks(nvim: PathModel) -> Seq<ToolCheckModel> {
    let version = seq!["--version"@];
    seq![
        ToolCheckModel { label: "nvim"@, program: nvim, args: version, required: true },
        spec_check_path_tool("git"@, version),
        spec_check_path_tool("curl"@, version),
        spec_check_path_tool("rg"@, version),
        spec_check_path_tool("fd"@, version),
        spec_check_path_tool("lazygit"@, version),
    ]
}

/// What `doctor` checks: the Neovim executable the launcher runs, which is
/// required, and then `git`, `curl`, `rg`, `fd` and `lazygit` on `PATH`,
/// which are optional; each is run with `--version`.
pub fn doctor_checks(nvim: &JoinedPath) -> (checks: Vec<ToolCheck>)
    ensures
        check_views(checks@) == spec_doctor_checks(nvim@),
{
    let mut checks: Vec<ToolCheck> = Vec::new();
    checks.push(
        ToolCheck {
            label: String::from_str("nvim"),
            program: nvim.duplicate(),
            args: version_args(),
            required: true,
        },
    );
    checks.push(check_path_tool("git", version_args()));
    checks.push(check_path_tool("curl", version_args()));
    checks.push(check_path_tool("rg", version_args()));
    checks.push(check_path_tool("fd", version_args()));
    checks.push(check_path_tool("lazygit", version_args()));
    assert(check_views(checks@) =~= spec_doctor_checks(nvim@));
    checks
}

/// How running a checked tool went.
#[derive(Debug)]
pub enum CheckOutcome {
    /// It exited successfully with this output.
    Succeeded { stdout: String, stderr: String },
    /// It exited unsuccessfully; `status` is how its exit status displays.
    Failed { status: String, stderr: String },
    /// It could not be started; `error` is how the error displays.
    NotStarted { error: String },
}

/// The mathematical model of a [`CheckOutcome`].
pub enum OutcomeModel {
    Succeeded { stdout: Seq<char>, stderr: Seq<char> },
    Failed { status: Seq<char>, stderr: Seq<char> },
    NotStarted { error: Seq<char> },
}

impl View for CheckOutcome {
    type V = OutcomeModel;

    open spec fn view(&self) -> OutcomeModel {
        match self {
            CheckOutcome::Succeeded { stdout, stderr } => OutcomeModel::Succeeded {
                stdout: stdout@,
                stderr: stderr@,
            },
            CheckOutcome::Failed { status, stderr } => OutcomeModel::Failed {
                status: status@,
                stderr: stderr@,
            },
            CheckOutcome::NotStarted { error } => OutcomeModel::NotStarted { error: error@ },
        }
    }
}

/// The first line that is not blank, if any.
pub open spec fn first_nonblank(lines: Seq<Seq<char>>) -> Option<Seq<char>>
    decreases lines.len(),
{
    if lines.len() == 0 {
        None
    } else if !is_blank(lines[0]) {
        Some(lines[0])
    } else {
        first_nonblank(lines.drop_first())
    }
}

/// What a successful check shows: the first non-blank line of its output,
/// standard output before standard error, or `ok` when there is none.
pub open spec fn spec_summary_line(stdout: Seq<char>, stderr: Seq<char>) -> Seq<char> {
    match first_nonblank(spec_lines(stdout) + spec_lines(stderr)) {
        Some(line) => line,
        None => "ok"@,
    }
}

/// The severity shown when a check does not pass.
pub open spec fn spec_level(required: bool) -> Seq<char> {
    if required {
        "fail"@
    } else {
        "warn"@
    }
}

/// The report line of a check.
pub open spec fn spec_check_report(label: Seq<char>, required: bool, outcome: OutcomeModel) -> Seq<char> {
    match outcome {
        OutcomeModel::Succeeded { stdout, stderr } => "[ok]   "@ + label + ": "@ + spec_summary_line(
            stdout,
            stderr,
        ),
        OutcomeModel::Failed { status, stderr } => "["@ + spec_level(required) + "] "@ + label
            + ": exited with "@ + status + " "@ + spec_trim(stderr),
        OutcomeModel::NotStarted { error } => "["@ + spec_level(required) + "] "@ + label + ": "@
            + error,
    }
}

fn is_blank_exec(line: &str) -> (r: bool)
    ensures
        r == is_blank(line@),
{
    let n = line.unicode_len();
    let mut i: usize = 0;
    while i < n
        invariant
            n == line@.len(),
            i <= n,
            forall|j: int| 0 <= j < i ==> is_whitespace(#[trigger] line@[j]),
        decreases n - i,
    {
        if !char_is_whitespace(line.get_char(i)) {
            return false;
        }
        i = i + 1;
    }
    true
}

/// The first non-blank line of the output, or `ok`.
pub fn summary_line(stdout: &str, stderr: &str) -> (r: String)
    ensures
        r@ == spec_summary_line(stdout@, stderr@),
{
    let mut all = lines(stdout);
    let mut more = lines(stderr);
    let ghost first = views(all@);
    let ghost second = views(more@);
    all.append(&mut more);
    let ghost seq = views(all@);
    assert(seq =~= first + second);
    let mut i: usize = 0;
    assert(seq.skip(0) =~= seq);
    while i < all.len()
        invariant
            seq == views(all@),
            seq == spec_lines(stdout@) + spec_lines(stderr@),
            i <= all.len(),
            first_nonblank(seq) == first_nonblank(seq.skip(i as int)),
        decreases all.len() - i,
    {
        assert(seq.skip(i as int).drop_first() =~= seq.skip(i + 1));
        assert(seq.skip(i as int)[0] == all@[i as int]@);
        assert(seq.skip(i as int).len() > 0);
        if !is_blank_exec(all[i].as_str()) {
            return all[i].clone();
        }
        i = i + 1;
    }
    String::from_str("ok")
}

/// The report line that `doctor` prints for a check: `[ok]   <label>: <first
/// non-blank output line>` when the tool ran successfully; `[fail]` (for a
/// required tool) or `[warn]` followed by `<label>: exited with <status>
/// <trimmed stderr>` when it exited unsuccessfully; and the same level with
/// `<label>: <error>` when it could not be started.
pub fn check_report(label: &str, required: bool, outcome: &CheckOutcome) -> (line: String)
    ensures
        line@ == spec_check_report(label@, required, outcome@),
{
    let level = if required {
        "fail"
    } else {
        "warn"
    };
    match outcome {
        CheckOutcome::Succeeded { stdout, stderr } => {
            let summary = summary_line(stdout.as_str(), stderr.as_str());
            String::from_str("[ok]   ").concat(label).concat(": ").concat(summary.as_str())
        },
        CheckOutcome::Failed { status, stderr } => {
            let message = trim(stderr.as_str());
            String::from_str("[").concat(level).concat("] ").concat(label).concat(
                ": exited with ",
            ).concat(status.as_str()).concat(" ").concat(message.as_str())
        },
        CheckOutcome::NotStarted { error } => {
            String::from_str("[").concat(level).concat("] ").concat(label).concat(": ").concat(
                error.as_str(),
            )
        },
    }
}

/// The line a successful check shows is the first line of its output that
/// is not blank: every line before it is blank.
pub proof fn lemma_first_nonblank_is_first(lines: Seq<Seq<char>>)
    ensures
        first_nonblank(lines) matches Some(line) ==> (!is_blank(line) && exists|i: int|
            0 <= i < lines.len() && lines[i] == line && forall|j: int| 0 <= j < i ==> is_blank(
                #[trigger] lines[j],
            )),
        first_nonblank(lines) is None ==> forall|j: int| 0 <= j < lines.len() ==> is_blank(
            #[trigger] lines[j],
        ),
    decreases lines.len(),
{
    if lines.len() > 0 {
        let rest = lines.drop_first();
        lemma_first_nonblank_is_first(rest);
        if is_blank(lines[0]) {
            if let Some(line) = first_nonblank(rest) {
                let i = choose|i: int|
                    0 <= i < rest.len() && rest[i] == line && forall|j: int| 0 <= j < i ==> is_blank(
                        #[trigger] rest[j],
                    );
                assert(lines[i + 1] == line);
                assert forall|j: int| 0 <= j < i + 1 implies is_blank(#[trigger] lines[j]) by {
                    if j > 0 {
                        assert(lines[j] == rest[j - 1]);
                    }
                }
            } else {
                assert forall|j: int| 0 <= j < lines.len() implies is_blank(#[trigger] lines[j]) by {
                    if j > 0 {
                        assert(lines[j] == rest[j - 1]);
                    }
                }
            }
        }
    }
}

/// Looking for the first non-blank line of two outputs read one after the
/// other finds it in the first output when it has one, and only otherwise in
/// the second.
pub proof fn lemma_first_nonblank_concat(first: Seq<Seq<char>>, second: Seq<Seq<char>>)
    ensures
        first_nonblank(first + second) == match first_nonblank(first) {
            Some(line) => Some(line),
            None => first_nonblank(second),
        },
    decreases first.len(),
{
    if first.len() == 0 {
        assert(first + second =~= second);
    } else {
        assert((first + second)[0] == first[0]);
        assert((first + second).drop_first() =~= first.drop_first() + second);
        lemma_first_nonblank_concat(first.drop_first(), second);
    }
}

/// A successful check is summarised from standard output first: when
/// standard output has a non-blank line, the summary is its first non-blank
/// line, whatever standard error holds; standard error is read only when
/// every line of standard output is blank, and with no non-blank line at all
/// the summary is `ok`.
pub proof fn lemma_summary_prefers_stdout(stdout: Seq<char>, stderr: Seq<char>)
    ensures
        first_nonblank(spec_lines(stdout)) matches Some(line) ==> spec_summary_line(stdout, stderr)
            == line,
        (forall|i: int| 0 <= i < spec_lines(stdout).len() ==> is_blank(#[trigger] spec_lines(stdout)[i]))
            ==> spec_summary_line(stdout, stderr) == spec_summary_line(Seq::empty(), stderr),
        (forall|i: int| 0 <= i < spec_lines(stdout).len() ==> is_blank(#[trigger] spec_lines(stdout)[i]))
            && (forall|i: int| 0 <= i < spec_lines(stderr).len() ==> is_blank(#[trigger] spec_lines(stderr)[i]))
            ==> spec_summary_line(stdout, stderr) == "ok"@,
        spec_summary_line(stdout, stderr) != "ok"@ ==> !is_blank(spec_summary_line(stdout, stderr)),
{
    lemma_first_nonblank_concat(spec_lines(stdout), spec_lines(stderr));
    lemma_first_nonblank_concat(spec_lines(Seq::empty()), spec_lines(stderr));
    lemma_first_nonblank_is_first(spec_lines(stdout));
    lemma_first_nonblank_is_first(spec_lines(stderr));
    lemma_first_nonblank_is_first(spec_lines(stdout) + spec_lines(stderr));
    assert(segments(Seq::<char>::empty()) == (Seq::<Seq<char>>::empty(), Seq::<char>::empty()));
    assert(spec_lines(Seq::empty()) =~= Seq::<Seq<char>>::empty());
    if forall|i: int| 0 <= i < spec_lines(stdout).len() ==> is_blank(#[trigger] spec_lines(stdout)[i]) {
        lemma_all_blank_has_none(spec_lines(stdout));
        if forall|i: int| 0 <= i < spec_lines(stderr).len() ==> is_blank(#[trigger] spec_lines(stderr)[i]) {
            lemma_all_blank_has_none(spec_lines(stderr));
        }
    }
}

/// Lines that are all blank hold no non-blank line.
pub proof fn lemma_all_blank_has_none(lines: Seq<Seq<char>>)
    requires
        forall|i: int| 0 <= i < lines.len() ==> is_blank(#[trigger] lines[i]),
    ensures
        first_nonblank(lines) is None,
    decreases lines.len(),
{
    if lines.len() > 0 {
        assert(is_blank(lines[0]));
        let rest = lines.drop_first();
        assert forall|i: int| 0 <= i < rest.len() implies is_blank(#[trigger] rest[i]) by {
            assert(rest[i] == lines[i + 1]);
        }
        lemma_all_blank_has_none(rest);
    }
}

/// A report line says `[ok]` followed by the label for a tool that ran
/// successfully, and otherwise `[fail]` for a required tool and `[warn]` for
/// an optional one, followed by the label.
pub proof fn lemma_report_levels(label: Seq<char>, required: bool, outcome: OutcomeModel)
    ensures
        outcome is Succeeded ==> crate::text::has_prefix(
            spec_check_report(label, required, outcome),
            "[ok]   "@ + label + ": "@,
        ),
        !(outcome is Succeeded) && required ==> crate::text::has_prefix(
            spec_check_report(label, required, outcome),
            "[fail] "@ + label + ": "@,
        ),
        !(outcome is Succeeded) && !required ==> crate::text::has_prefix(
            spec_check_report(label, required, outcome),
            "[warn] "@ + label + ": "@,
        ),
{
    let r = spec_check_report(label, required, outcome);
    match outcome {
        OutcomeModel::Succeeded { stdout, stderr } => {
            let p = "[ok]   "@ + label + ": "@;
            assert(r == p + spec_summary_line(stdout, stderr));
            assert(r.subrange(0, p.len() as int) =~= p);
        },
        OutcomeModel::Failed { status, stderr } => {
            let p = "["@ + spec_level(required) + "] "@ + label + ": "@;
            assert(r == p + ("exited with "@ + status + " "@ + spec_trim(stderr))) by {
                reveal_strlit(": exited with ");
                reveal_strlit(": ");
                reveal_strlit("exited with ");
                assert(": exited with "@ =~= ": "@ + "exited with "@);
                assert(r =~= p + ("exited with "@ + status + " "@ + spec_trim(stderr)));
            }
            assert(r.subrange(0, p.len() as int) =~= p);
            reveal_strlit("[");
            reveal_strlit("] ");
            reveal_strlit("[fail] ");
            reveal_strlit("[warn] ");
            reveal_strlit("fail");
            reveal_strlit("warn");
            assert("["@ + "fail"@ + "] "@ =~= "[fail] "@);
            assert("["@ + "warn"@ + "] "@ =~= "[warn] "@);
            assert(p =~= "["@ + spec_level(required) + "] "@ + (label + ": "@));
        },
        OutcomeModel::NotStarted { error } => {
            let p = "["@ + spec_level(required) + "] "@ + label + ": "@;
            assert(r == p + error);
            assert(r.subrange(0, p.len() as int) =~= p);
            reveal_strlit("[");
            reveal_strlit("] ");
            reveal_strlit("[fail] ");
            reveal_strlit("[warn] ");
            reveal_strlit("fail");
            reveal_strlit("warn");
            assert("["@ + "fail"@ + "] "@ =~= "[fail] "@);
            assert("["@ + "warn"@ + "] "@ =~= "[warn] "@);
            assert(p =~= "["@ + spec_level(required) + "] "@ + (label + ": "@));
        },
    }
}

} // verus!

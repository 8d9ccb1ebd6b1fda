//! Squash-aware changelog generation: the decisions of the `changelog` task.
//!
//! A pull request lands as a single squash commit whose subject is `<pull
//! request title> (#<number>)`, so the changelog a branch would generate from
//! its own commits is never the changelog the default branch generates
//! afterwards. On a branch with an **open** pull request the history the
//! merge will produce is rendered instead: every commit the branch adds is
//! skipped, and one synthetic commit carrying the squash subject takes their
//! place. On the default branch, and on the queue and push runs where the
//! real squash commit is already present, history is rendered plainly.
//!
//! Running Git, the forge CLI and the generator is the program's; what their
//! answers mean is here.
use vstd::prelude::*;
use vstd::utf8::decode_utf8;
use vstd::utf8::valid_utf8;
use crate::letters::chars_of;
use crate::letters::same_text;
use crate::letters::lossy_text;
use crate::letters::text_of_bytes;
use crate::letters::trim;
use crate::letters::trim_chars;
use crate::letters::trimmed;
use crate::report::io_error_text;

verus! {

/// Where the generated changelog is written, for the installing formatter to
/// compare against the tracked file.
pub open spec fn output_path() -> Seq<char> {
    ".git-cliff-output"@
}

/// A forge event name, as the runner reports it.
#[derive(Debug, Clone, PartialEq, Eq)]
pub struct EventName(pub String);

/// A Git ref name, as the runner reports it.
#[derive(Debug, Clone, PartialEq, Eq)]
pub struct RefName(pub String);

/// A local branch name.
#[derive(Debug, Clone, PartialEq, Eq)]
pub struct BranchName(pub String);

/// The argument that names a pull request to the forge CLI: a branch name or
/// a request number, whichever the run can supply.
#[derive(Debug, Clone, PartialEq, Eq)]
pub struct PullRequestReference(pub String);

/// A commit the squash replaces.
#[derive(Debug, Clone, PartialEq, Eq)]
pub struct CommitId(pub String);

/// The subject the squash commit will carry.
#[derive(Debug, Clone, PartialEq, Eq)]
pub struct SquashSubject(pub String);

/// An executable the task runs.
#[derive(Debug, Clone, PartialEq, Eq)]
pub struct Program(pub String);

/// One command-line argument.
#[derive(Debug, Clone, PartialEq, Eq)]
pub struct Argument(pub String);

/// A command's captured standard output, trimmed.
#[derive(Debug, Clone, PartialEq, Eq)]
pub struct CapturedOutput(pub String);

/// The generator's assembled command line.
#[derive(Debug, Clone, PartialEq, Eq)]
pub struct CliffArguments(pub Vec<Argument>);

/// The open pull request a branch's changelog is rendered as.
#[derive(Debug, Clone, PartialEq, Eq)]
pub struct PullRequest {
    /// The title, which becomes the squash subject.
    pub title: String,
    /// The number the squash subject carries in parentheses.
    pub number: String,
}

/// Which history a run renders.
#[derive(Debug, Clone, PartialEq, Eq)]
pub enum RenderingMode {
    /// Render what Git holds: the real squash commit is already present.
    Plain,
    /// Render the merge's history: the branch's commits replaced by the
    /// subject its squash will carry.
    Reconstructed {
        /// The commits the squash replaces.
        skipped: Vec<CommitId>,
        /// The subject that replaces them.
        subject: SquashSubject,
    },
}

/// Why changelog generation could not complete.
#[derive(Debug)]
pub enum Failure {
    /// A command could not be started.
    Spawn {
        /// The program that could not be started.
        program: Program,
        /// What the operating system reported.
        cause: std::io::Error,
    },
    /// A command ran and reported failure.
    Command {
        /// The program that failed.
        program: Program,
        /// What it wrote to standard error.
        message: String,
    },
    /// A command wrote output that was not UTF-8.
    Encoding {
        /// The program whose output could not be decoded.
        program: Program,
    },
    /// The forge reported no pull request, or one that is not open.
    NoOpenPullRequest {
        /// The reference that was looked up.
        reference: PullRequestReference,
        /// The state the forge reported, where it reported one.
        state: String,
    },
    /// The forge's answer did not carry the three fields that were requested.
    MalformedPayload {
        /// The reference that was looked up.
        reference: PullRequestReference,
    },
}

/// The operator's reading of a failure: the fact and, where one exists, the
/// action that resolves it. A spawn failure's text begins as stated here and
/// continues with the operating system's report.
pub open spec fn failure_text(failure: Failure) -> Seq<char> {
    match failure {
        Failure::Spawn { program, .. } => "`"@ + program.0@ + "` could not be started: "@,
        Failure::Command { program, message } => "`"@ + program.0@ + "` failed: "@ + message@,
        Failure::Encoding { program } => "`"@ + program.0@ + "` wrote output that is not UTF-8"@,
        Failure::NoOpenPullRequest { reference, state } => "no open pull request for `"@
            + reference.0@ + "` (state: "@ + state@
            + "): open the PR first, then regenerate"@,
        Failure::MalformedPayload { reference } => "the forge's answer for `"@ + reference.0@
            + "` did not carry state, number and title"@,
    }
}

impl Failure {
    /// Render the failure for the operator who has to act on it.
    pub fn render(&self) -> (r: String)
        ensures
            !(self is Spawn) ==> r@ == failure_text(*self),
            self is Spawn ==> failure_text(*self).is_prefix_of(r@),
    {
        match self {
            Failure::Spawn { program, cause } => {
                let mut out = String::from_str("`");
                out.append(program.0.as_str());
                out.append("` could not be started: ");
                let ghost stated = out@;
                let report = io_error_text(cause);
                out.append(report.as_str());
                assert(out@.take(stated.len() as int) == stated);
                out
            },
            Failure::Command { program, message } => {
                let mut out = String::from_str("`");
                out.append(program.0.as_str());
                out.append("` failed: ");
                out.append(message.as_str());
                out
            },
            Failure::Encoding { program } => {
                let mut out = String::from_str("`");
                out.append(program.0.as_str());
                out.append("` wrote output that is not UTF-8");
                out
            },
            Failure::NoOpenPullRequest { reference, state } => {
                let mut out = String::from_str("no open pull request for `");
                out.append(reference.0.as_str());
                out.append("` (state: ");
                out.append(state.as_str());
                out.append("): open the PR first, then regenerate");
                out
            },
            Failure::MalformedPayload { reference } => {
                let mut out = String::from_str("the forge's answer for `");
                out.append(reference.0.as_str());
                out.append("` did not carry state, number and title");
                out
            },
        }
    }
}

impl PullRequest {
    /// The subject the squash commit will carry: the title followed by the
    /// number in the parenthesised form the forge appends when it squashes.
    pub fn squash_subject(&self) -> (r: SquashSubject)
        ensures
            r.0@ == self.title@ + " (#"@ + self.number@ + ")"@,
    {
        let mut subject = self.title.clone();
        subject.append(" (#");
        subject.append(self.number.as_str());
        subject.append(")");
        SquashSubject(subject)
    }
}

/// The text before the first `/` of `text`, when it has one.
pub open spec fn before_slash(text: Seq<char>) -> Option<Seq<char>> {
    if text.contains('/') {
        Some(text.take(text.index_of_first('/')->0))
    } else {
        None
    }
}

/// The reference a run names its pull request by: a pull-request run's
/// source branch where the forge reports one, else the number the forge puts
/// in `<number>/merge`; every other run, and a pull-request run reporting
/// neither, the branch name.
pub open spec fn reference_for(
    event: Seq<char>,
    head_ref: Seq<char>,
    ref_name: Seq<char>,
    branch: Seq<char>,
) -> Seq<char> {
    if event == "pull_request"@ && head_ref.len() > 0 {
        head_ref
    } else if event == "pull_request"@ && before_slash(ref_name) is Some && before_slash(
        ref_name,
    )->0.len() > 0 {
        before_slash(ref_name)->0
    } else {
        branch
    }
}

/// The first `/` in `chars`, when there is one.
fn first_slash(chars: &[char]) -> (r: Option<usize>)
    ensures
        r is None <==> !chars@.contains('/'),
        r matches Some(i) ==> chars@.index_of_first('/') == Some(i as int) && i < chars@.len(),
{
    let mut i: usize = 0;
    while i < chars.len()
        invariant
            i <= chars@.len(),
            forall|k: int| 0 <= k < i ==> chars@[k] != '/',
        decreases chars@.len() - i,
    {
        if chars[i] == '/' {
            proof {
                chars@.index_of_first_ensures('/');
            }
            return Some(i);
        }
        i = i + 1;
    }
    None
}

/// Name the pull request whose changelog a run must render.
pub fn pull_request_reference(
    event: &EventName,
    head_ref: &RefName,
    ref_name: &RefName,
    branch: &BranchName,
) -> (r: PullRequestReference)
    ensures
        r.0@ == reference_for(event.0@, head_ref.0@, ref_name.0@, branch.0@),
{
    if same_text(event.0.as_str(), "pull_request") {
        if head_ref.0.as_str().unicode_len() > 0 {
            return PullRequestReference(head_ref.0.clone());
        }
        let chars = chars_of(ref_name.0.as_str());
        if let Some(slash) = first_slash(chars.as_slice()) {
            if slash > 0 {
                let mut number = String::new();
                let mut i: usize = 0;
                while i < slash
                    invariant
                        i <= slash <= chars@.len(),
                        number@ == chars@.take(i as int),
                    decreases slash - i,
                {
                    crate::pretty::push_char(&mut number, chars[i]);
                    i = i + 1;
                    assert(chars@.take(i as int) == chars@.take((i - 1) as int).push(
                        chars@[i - 1],
                    ));
                }
                return PullRequestReference(number);
            }
        }
    }
    PullRequestReference(branch.0.clone())
}

/// The position of the first newline at or after `from`, or the length.
pub open spec fn line_end(text: Seq<char>, from: int) -> int
    decreases text.len() - from,
{
    if from < 0 || from >= text.len() {
        text.len() as int
    } else if text[from] == '\n' {
        from
    } else {
        line_end(text, from + 1)
    }
}

/// The line that starts at `from` and the `n` lines after it, taken in
/// turn: the `n`th line from `from`, empty when there are fewer.
pub open spec fn line_from(text: Seq<char>, from: int, n: nat) -> Seq<char>
    decreases n, text.len() - from,
{
    if from < 0 || from > text.len() {
        Seq::empty()
    } else if n == 0 {
        text.subrange(from, line_end(text, from))
    } else if line_end(text, from) >= text.len() {
        Seq::empty()
    } else {
        line_from(text, line_end(text, from) + 1, (n - 1) as nat)
    }
}

/// The `n`th line of `text`, counted from zero, empty when there are fewer.
pub open spec fn nth_line(text: Seq<char>, n: nat) -> Seq<char> {
    line_from(text, 0, n)
}

/// The end of the line starting at `from`.
fn find_line_end(chars: &[char], from: usize) -> (r: usize)
    requires
        from <= chars@.len(),
    ensures
        r == line_end(chars@, from as int),
        from <= r <= chars@.len(),
{
    let mut i = from;
    while i < chars.len() && chars[i] != '\n'
        invariant
            from <= i <= chars@.len(),
            line_end(chars@, from as int) == line_end(chars@, i as int),
        decreases chars@.len() - i,
    {
        i = i + 1;
    }
    i
}

/// The trimmed `n`th line of `chars`, empty when there are fewer.
fn trimmed_line(chars: &[char], n: usize) -> (r: String)
    ensures
        r@ == trimmed(nth_line(chars@, n as nat)),
{
    let mut from: usize = 0;
    let mut k: usize = 0;
    while k < n
        invariant
            k <= n,
            from <= chars@.len(),
            nth_line(chars@, n as nat) == line_from(chars@, from as int, (n - k) as nat),
        decreases n - k,
    {
        let end = find_line_end(chars, from);
        if end >= chars.len() {
            assert(line_from(chars@, from as int, (n - k) as nat) == Seq::<char>::empty());
            assert(trimmed(Seq::<char>::empty()) == Seq::<char>::empty());
            return String::new();
        }
        from = end + 1;
        k = k + 1;
    }
    let end = find_line_end(chars, from);
    trim_chars(chars, from, end)
}

/// Read the forge's answer to a request for state, number and title, one
/// field per line in that order: a payload whose state is `OPEN` and whose
/// number and title are both non-empty yields that request; a payload
/// lacking a field is malformed; any other state is refused, naming it. A
/// merged or closed request is refused, so a reused branch cannot render an
/// old title over a changelog the merge then contradicts.
pub fn accept_open_pull_request(reference: &PullRequestReference, payload: &CapturedOutput) -> (r:
    Result<PullRequest, Failure>)
    ensures
        ({
            let state = trimmed(nth_line(payload.0@, 0));
            let number = trimmed(nth_line(payload.0@, 1));
            let title = trimmed(nth_line(payload.0@, 2));
            &&& (state.len() == 0 || number.len() == 0 || title.len() == 0) ==> (r matches Err(
                Failure::MalformedPayload { reference: found },
            ) && found.0@ == reference.0@)
            &&& (state.len() > 0 && number.len() > 0 && title.len() > 0 && state != "OPEN"@) ==> (
            r matches Err(Failure::NoOpenPullRequest { reference: found, state: reported })
                && found.0@ == reference.0@ && reported@ == state)
            &&& (state.len() > 0 && number.len() > 0 && title.len() > 0 && state == "OPEN"@) ==> (
            r matches Ok(request) && request.number@ == number && request.title@ == title)
        }),
{
    let chars = chars_of(payload.0.as_str());
    let state = trimmed_line(chars.as_slice(), 0);
    let number = trimmed_line(chars.as_slice(), 1);
    let title = trimmed_line(chars.as_slice(), 2);
    if state.as_str().unicode_len() == 0 || number.as_str().unicode_len() == 0
        || title.as_str().unicode_len() == 0 {
        return Err(Failure::MalformedPayload { reference: PullRequestReference(reference.0.clone()) });
    }
    if !same_text(state.as_str(), "OPEN") {
        return Err(
            Failure::NoOpenPullRequest {
                reference: PullRequestReference(reference.0.clone()),
                state,
            },
        );
    }
    Ok(PullRequest { title, number })
}

/// Whether the arguments carry an argument's text.
pub open spec fn argument_texts(arguments: Seq<Argument>) -> Seq<Seq<char>> {
    arguments.map_values(|argument: Argument| argument.0@)
}

/// The arguments a rendering mode contributes: nothing for a plain render;
/// for a reconstructed one, a `--skip-commit` per replaced commit and exactly
/// one `--with-commit` for the squash subject.
pub open spec fn mode_arguments(mode: RenderingMode) -> Seq<Seq<char>> {
    match mode {
        RenderingMode::Plain => Seq::empty(),
        RenderingMode::Reconstructed { skipped, subject } => skip_arguments(skipped@) + seq![
            "--with-commit"@,
            subject.0@,
        ],
    }
}

/// `--skip-commit` and the commit, for each commit in order.
pub open spec fn skip_arguments(skipped: Seq<CommitId>) -> Seq<Seq<char>>
    decreases skipped.len(),
{
    if skipped.len() == 0 {
        Seq::empty()
    } else {
        skip_arguments(skipped.drop_last()) + seq!["--skip-commit"@, skipped.last().0@]
    }
}

/// Push one argument.
fn push_argument(arguments: &mut Vec<Argument>, text: &str)
    ensures
        argument_texts(final(arguments)@) == argument_texts(old(arguments)@).push(text@),
{
    let ghost before = arguments@;
    arguments.push(Argument(String::from_str(text)));
    assert(argument_texts(arguments@) == argument_texts(before).push(text@));
}

/// Assemble the generator's arguments: the output path leads; a
/// reconstructed render contributes one `--skip-commit` per replaced commit
/// and exactly one `--with-commit` for the squash subject; the passthrough
/// arguments come last, so the formatter's own exclusion still reaches the
/// generator.
pub fn cliff_arguments(mode: &RenderingMode, passthrough: Vec<Argument>) -> (r: CliffArguments)
    ensures
        argument_texts(r.0@) == seq!["--output"@, output_path()] + mode_arguments(*mode)
            + argument_texts(passthrough@),
{
    let mut arguments: Vec<Argument> = Vec::new();
    push_argument(&mut arguments, "--output");
    push_argument(&mut arguments, ".git-cliff-output");
    assert(argument_texts(arguments@) == seq!["--output"@, output_path()]);
    match mode {
        RenderingMode::Plain => {},
        RenderingMode::Reconstructed { skipped, subject } => {
            let ghost head = argument_texts(arguments@);
            let mut i: usize = 0;
            while i < skipped.len()
                invariant
                    i <= skipped@.len(),
                    argument_texts(arguments@) == head + skip_arguments(skipped@.take(i as int)),
                decreases skipped@.len() - i,
            {
                push_argument(&mut arguments, "--skip-commit");
                push_argument(&mut arguments, skipped[i].0.as_str());
                i = i + 1;
                assert(skipped@.take(i as int).drop_last() == skipped@.take((i - 1) as int));
            }
            assert(skipped@.take(i as int) == skipped@);
            push_argument(&mut arguments, "--with-commit");
            push_argument(&mut arguments, subject.0.as_str());
        },
    }
    let ghost before = arguments@;
    let mut rest = passthrough;
    arguments.append(&mut rest);
    assert(argument_texts(arguments@) == argument_texts(before) + argument_texts(passthrough@));
    CliffArguments(arguments)
}

/// Whether a run renders plainly: the queue and push runs already carry the
/// squash commit itself, and the default branch needs no reconstruction.
pub open spec fn renders_plainly(event: Seq<char>, branch: Seq<char>) -> bool {
    event == "merge_group"@ || event == "push"@ || branch == "main"@
}

/// Decide whether a run renders plainly: a run that already holds the squash
/// commit, or one on the default branch, needs no reconstruction.
pub fn plain_rendering(event: &EventName, branch: &BranchName) -> (r: bool)
    ensures
        r == renders_plainly(event.0@, branch.0@),
{
    same_text(event.0.as_str(), "merge_group") || same_text(event.0.as_str(), "push")
        || same_text(branch.0.as_str(), "main")
}

/// A line ends at or after its start, and within the text.
pub proof fn lemma_line_end_bounds(text: Seq<char>, from: int)
    requires
        0 <= from <= text.len(),
    ensures
        from <= line_end(text, from) <= text.len(),
    decreases text.len() - from,
{
    if from < text.len() && text[from] != '\n' {
        lemma_line_end_bounds(text, from + 1);
    }
}

/// The lines of `text` from position `from`, as `str::lines` splits them: at
/// each newline, with no final empty line after a trailing newline.
pub open spec fn lines_from(text: Seq<char>, from: int) -> Seq<Seq<char>>
    decreases text.len() - from,
{
    if from < 0 || from >= text.len() {
        Seq::empty()
    } else {
        let end = line_end(text, from);
        proof {
            lemma_line_end_bounds(text, from);
        }
        if end >= text.len() {
            seq![text.subrange(from, end)]
        } else {
            seq![text.subrange(from, end)] + lines_from(text, end + 1)
        }
    }
}

/// Each line of `text`, trimmed.
pub open spec fn trimmed_lines(text: Seq<char>, from: int) -> Seq<Seq<char>> {
    lines_from(text, from).map_values(|line: Seq<char>| trimmed(line))
}

/// The commits a branch adds, listed one per line by `git rev-list`, each
/// trimmed.
pub fn listed_commits(listed: &CapturedOutput) -> (r: Vec<CommitId>)
    ensures
        r@.map_values(|commit: CommitId| commit.0@) == trimmed_lines(listed.0@, 0),
{
    let chars = chars_of(listed.0.as_str());
    let mut commits: Vec<CommitId> = Vec::new();
    let mut from: usize = 0;
    while from < chars.len()
        invariant
            from <= chars@.len(),
            chars@ == listed.0@,
            commits@.map_values(|commit: CommitId| commit.0@) + trimmed_lines(chars@, from as int)
                == trimmed_lines(chars@, 0),
        decreases chars@.len() - from,
    {
        let end = find_line_end(chars.as_slice(), from);
        let line = trim_chars(chars.as_slice(), from, end);
        let ghost before = commits@;
        commits.push(CommitId(line));
        proof {
            assert(commits@.map_values(|commit: CommitId| commit.0@) == before.map_values(
                |commit: CommitId| commit.0@,
            ).push(trimmed(chars@.subrange(from as int, end as int))));
            if end >= chars.len() {
                assert(trimmed_lines(chars@, from as int) == seq![
                    trimmed(chars@.subrange(from as int, end as int)),
                ]);
                assert(trimmed_lines(chars@, end as int) == Seq::<Seq<char>>::empty());
            } else {
                assert(trimmed_lines(chars@, from as int) == seq![
                    trimmed(chars@.subrange(from as int, end as int)),
                ] + trimmed_lines(chars@, end + 1));
            }
        }
        from = if end < chars.len() {
            end + 1
        } else {
            end
        };
    }
    assert(trimmed_lines(chars@, from as int) == Seq::<Seq<char>>::empty());
    commits
}

/// The merge's history for a branch: the commits it adds skipped, and the
/// open request's squash subject in their place.
pub fn reconstructed(listed: &CapturedOutput, request: &PullRequest) -> (r: RenderingMode)
    ensures
        r matches RenderingMode::Reconstructed { skipped, subject } && skipped@.map_values(
            |commit: CommitId| commit.0@,
        ) == trimmed_lines(listed.0@, 0) && subject.0@ == request.title@ + " (#"@ + request.number@
            + ")"@,
{
    RenderingMode::Reconstructed { skipped: listed_commits(listed), subject: request.squash_subject() }
}

/// Settle a finished command: a nonzero exit is a failure carrying its
/// standard error, trimmed, with invalid UTF-8 replaced; output that is not
/// UTF-8 is an encoding failure; otherwise the output, trimmed.
pub fn settle_capture(program: &Program, succeeded: bool, stdout: &[u8], stderr: &[u8]) -> (r:
    Result<CapturedOutput, Failure>)
    ensures
        !succeeded ==> (r matches Err(Failure::Command { program: p, message }) && p.0@
            == program.0@ && message@ == trimmed(lossy_text(stderr@)) && (valid_utf8(stderr@)
            ==> message@ == trimmed(decode_utf8(stderr@)))),
        succeeded && !valid_utf8(stdout@) ==> (r matches Err(Failure::Encoding { program: p })
            && p.0@ == program.0@),
        succeeded && valid_utf8(stdout@) ==> (r matches Ok(captured) && captured.0@ == trimmed(
            decode_utf8(stdout@),
        )),
{
    if !succeeded {
        let message = text_of_bytes(stderr);
        return Err(
            Failure::Command {
                program: Program(program.0.clone()),
                message: trim(message.as_str()),
            },
        );
    }
    match crate::letters::utf8_text(stdout) {
        Some(text) => Ok(CapturedOutput(trim(text))),
        None => Err(Failure::Encoding { program: Program(program.0.clone()) }),
    }
}

} // verus!

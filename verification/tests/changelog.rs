use infinitum::changelog::accept_open_pull_request;
use infinitum::changelog::cliff_arguments;
use infinitum::changelog::listed_commits;
use infinitum::changelog::plain_rendering;
use infinitum::changelog::pull_request_reference;
use infinitum::changelog::reconstructed;
use infinitum::changelog::settle_capture;
use infinitum::changelog::Argument;
use infinitum::changelog::BranchName;
use infinitum::changelog::CapturedOutput;
use infinitum::changelog::CommitId;
use infinitum::changelog::EventName;
use infinitum::changelog::Failure;
use infinitum::changelog::Program;
use infinitum::changelog::PullRequest;
use infinitum::changelog::PullRequestReference;
use infinitum::changelog::RefName;
use infinitum::changelog::RenderingMode;
use infinitum::changelog::SquashSubject;

fn reference() -> PullRequestReference {
    PullRequestReference(String::from("changelog-squash"))
}

#[test]
fn pull_request_reference_prefers_the_head_ref() {
    let reference = pull_request_reference(
        &EventName(String::from("pull_request")),
        &RefName(String::from("changelog-squash")),
        &RefName(String::from("2/merge")),
        &BranchName(String::from("HEAD")),
    );
    assert_eq!(reference.0, "changelog-squash", "the head ref names the request");
}

#[test]
fn pull_request_reference_takes_the_number_from_a_merge_ref() {
    let reference = pull_request_reference(
        &EventName(String::from("pull_request")),
        &RefName(String::new()),
        &RefName(String::from("2/merge")),
        &BranchName(String::from("HEAD")),
    );
    assert_eq!(reference.0, "2", "the merge ref names the request by number");
}

#[test]
fn pull_request_reference_takes_the_branch_elsewhere() {
    let reference = pull_request_reference(
        &EventName(String::new()),
        &RefName(String::new()),
        &RefName(String::new()),
        &BranchName(String::from("changelog-squash")),
    );
    assert_eq!(reference.0, "changelog-squash", "a local run names the branch");
}

#[test]
fn pull_request_reference_falls_back_to_the_branch() {
    let reference = pull_request_reference(
        &EventName(String::from("pull_request")),
        &RefName(String::new()),
        &RefName(String::new()),
        &BranchName(String::from("changelog-squash")),
    );
    assert_eq!(reference.0, "changelog-squash", "an empty ref falls back to the branch");
}

#[test]
fn a_leading_slash_names_no_number() {
    let reference = pull_request_reference(
        &EventName(String::from("pull_request")),
        &RefName(String::new()),
        &RefName(String::from("/merge")),
        &BranchName(String::from("topic")),
    );
    assert_eq!(reference.0, "topic");
}

#[test]
fn an_open_request_is_accepted() {
    let payload = CapturedOutput(String::from("OPEN\n2\nfix(repo): tidy"));
    let accepted = accept_open_pull_request(&reference(), &payload);
    let request = accepted.expect("an open request is accepted");
    assert_eq!(
        request.squash_subject(),
        SquashSubject(String::from("fix(repo): tidy (#2)")),
        "the subject is the title with the number appended"
    );
}

#[test]
fn a_merged_request_is_refused() {
    let payload = CapturedOutput(String::from("MERGED\n1\nfeat(repo): scaffold"));
    match accept_open_pull_request(&reference(), &payload) {
        Err(Failure::NoOpenPullRequest { state, .. }) => {
            assert_eq!(state, "MERGED", "the refusal names the state it found");
        },
        other => panic!("a merged request must be refused, got {other:?}"),
    }
}

#[test]
fn a_closed_request_is_refused() {
    let payload = CapturedOutput(String::from("CLOSED\n7\nfix(repo): abandoned"));
    match accept_open_pull_request(&reference(), &payload) {
        Err(Failure::NoOpenPullRequest { state, .. }) => {
            assert_eq!(state, "CLOSED", "the refusal names the state it found");
        },
        other => panic!("a closed request must be refused, got {other:?}"),
    }
}

#[test]
fn the_refusal_reads_as_its_remediation() {
    let payload = CapturedOutput(String::from("MERGED\n1\nfeat(repo): scaffold"));
    let refused = accept_open_pull_request(&reference(), &payload)
        .expect_err("a merged request is refused");
    assert_eq!(
        refused.render(),
        "no open pull request for `changelog-squash` (state: MERGED): open the PR first, then regenerate",
        "the refusal names the branch, the state and the remedy"
    );
}

#[test]
fn an_incomplete_answer_is_refused() {
    let payload = CapturedOutput(String::from("OPEN\n2"));
    let refused = accept_open_pull_request(&reference(), &payload);
    assert!(matches!(refused, Err(Failure::MalformedPayload { .. })), "a short answer is refused");
}

#[test]
fn fields_are_trimmed_and_carriage_returns_dropped() {
    let payload = CapturedOutput(String::from("  OPEN \r\n 12\t\r\n  fix: spaced  \r\nextra"));
    let request = accept_open_pull_request(&reference(), &payload).unwrap();
    assert_eq!(request.number, "12");
    assert_eq!(request.title, "fix: spaced");
}

#[test]
fn plain_arguments_carry_only_the_output_and_passthrough() {
    let arguments = cliff_arguments(
        &RenderingMode::Plain,
        vec![Argument(String::from("--exclude-path")), Argument(String::from("CHANGELOG.md"))],
    );
    let rendered: Vec<String> = arguments.0.iter().map(|argument| argument.0.clone()).collect();
    assert_eq!(
        rendered,
        vec!["--output", ".git-cliff-output", "--exclude-path", "CHANGELOG.md"],
        "plain generation passes the formatter's arguments through"
    );
}

#[test]
fn reconstructed_arguments_skip_each_commit_and_add_one() {
    let request = PullRequest { title: String::from("fix(repo): tidy"), number: String::from("7") };
    let mode = RenderingMode::Reconstructed {
        skipped: vec![CommitId(String::from("aaa")), CommitId(String::from("bbb"))],
        subject: request.squash_subject(),
    };
    let arguments = cliff_arguments(&mode, Vec::new());
    let rendered: Vec<String> = arguments.0.iter().map(|argument| argument.0.clone()).collect();
    assert_eq!(
        rendered,
        vec![
            "--output",
            ".git-cliff-output",
            "--skip-commit",
            "aaa",
            "--skip-commit",
            "bbb",
            "--with-commit",
            "fix(repo): tidy (#7)",
        ],
        "each branch commit is skipped and the squash subject replaces them"
    );
}

#[test]
fn listed_commits_are_trimmed_lines() {
    let listed = CapturedOutput(String::from("aaa\n bbb \nccc\n"));
    let commits = listed_commits(&listed);
    assert_eq!(
        commits,
        vec![CommitId(String::from("aaa")), CommitId(String::from("bbb")), CommitId(String::from("ccc"))]
    );
    assert!(listed_commits(&CapturedOutput(String::new())).is_empty());
    let request = PullRequest { title: String::from("feat: x"), number: String::from("3") };
    assert_eq!(
        reconstructed(&CapturedOutput(String::from("a1")), &request),
        RenderingMode::Reconstructed {
            skipped: vec![CommitId(String::from("a1"))],
            subject: SquashSubject(String::from("feat: x (#3)")),
        }
    );
}

#[test]
fn squashed_runs_and_the_default_branch_render_plainly() {
    let branch = BranchName(String::from("topic"));
    assert!(plain_rendering(&EventName(String::from("merge_group")), &branch));
    assert!(plain_rendering(&EventName(String::from("push")), &branch));
    assert!(plain_rendering(&EventName(String::from("pull_request")), &BranchName(String::from("main"))));
    assert!(!plain_rendering(&EventName(String::from("pull_request")), &branch));
}

#[test]
fn capture_returns_trimmed_output() {
    let program = Program(String::from("echo"));
    match settle_capture(&program, true, b"hello\n", b"") {
        Ok(captured) => assert_eq!(captured, CapturedOutput(String::from("hello"))),
        Err(failure) => panic!("echo succeeds, got {failure:?}"),
    }
}

#[test]
fn capture_reports_a_failing_command() {
    let program = Program(String::from("git"));
    match settle_capture(&program, false, b"", b"fatal: no such ref\n") {
        Err(Failure::Command { message, .. }) => assert_eq!(message, "fatal: no such ref"),
        other => panic!("a nonzero exit is a failure, got {other:?}"),
    }
    match settle_capture(&program, true, b"\xff", b"") {
        Err(failure @ Failure::Encoding { .. }) => {
            assert_eq!(failure.render(), "`git` wrote output that is not UTF-8")
        },
        other => panic!("output that is not UTF-8 is refused, got {other:?}"),
    }
}

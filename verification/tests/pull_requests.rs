use gh_cli_rs::{ExecutionOutcome, GhClient, GhCommand, GhError};

fn args_of(tokens: &[&str]) -> Vec<String> {
    tokens.iter().map(|t| t.to_string()).collect()
}

#[test]
fn pr_create_starts_with_its_path() {
    let cmd = GhClient::new().pr().create();
    assert_eq!(cmd.build_args(), args_of(&["pr", "create"]));
}

#[test]
fn pr_create_with_everything() {
    let cmd = GhClient::new()
        .pr()
        .create()
        .title("test PR created by gh_cli_rs")
        .body("This PR adds a new feature\n\n## Changes\n- Added feature X\n- Fixed bug Y")
        .base("main")
        .head("feature-branch")
        .draft()
        .web();
    assert_eq!(
        cmd.build_args(),
        args_of(&[
            "pr",
            "create",
            "--title",
            "test PR created by gh_cli_rs",
            "--body",
            "This PR adds a new feature\n\n## Changes\n- Added feature X\n- Fixed bug Y",
            "--base",
            "main",
            "--head",
            "feature-branch",
            "--draft",
            "--web"
        ])
    );
}

#[test]
fn pr_create_keeps_call_order() {
    let cmd = GhClient::new().pr().create().draft().head("topic").title("T");
    assert_eq!(
        cmd.build_args(),
        args_of(&["pr", "create", "--draft", "--head", "topic", "--title", "T"])
    );
}

#[test]
fn pr_list_with_state_and_limit() {
    let cmd = GhClient::new().pr().list().state("open").limit(5);
    assert_eq!(
        cmd.build_args(),
        args_of(&["pr", "list", "--state", "open", "--limit", "5"])
    );
}

#[test]
fn pr_list_with_author() {
    let cmd = GhClient::new().pr().list().author("octocat").limit(100).state("merged");
    assert_eq!(
        cmd.build_args(),
        args_of(&["pr", "list", "--author", "octocat", "--limit", "100", "--state", "merged"])
    );
}

#[test]
fn pr_list_limit_of_zero_and_of_the_largest_number() {
    assert_eq!(
        GhClient::new().pr().list().limit(0).build_args(),
        args_of(&["pr", "list", "--limit", "0"])
    );
    assert_eq!(
        GhClient::new().pr().list().limit(u32::MAX).build_args(),
        args_of(&["pr", "list", "--limit", "4294967295"])
    );
}

#[test]
fn pr_view_names_the_number() {
    assert_eq!(GhClient::new().pr().view(1).build_args(), args_of(&["pr", "view", "1"]));
    assert_eq!(
        GhClient::new().pr().view(1234).web().build_args(),
        args_of(&["pr", "view", "1234", "--web"])
    );
}

#[test]
fn pr_checkout_names_the_number() {
    assert_eq!(
        GhClient::new().pr().checkout(17).build_args(),
        args_of(&["pr", "checkout", "17"])
    );
}

#[test]
fn pr_merge_strategies() {
    let pr = GhClient::new().pr();
    assert_eq!(pr.merge(8).build_args(), args_of(&["pr", "merge", "8"]));
    assert_eq!(pr.merge(8).merge().build_args(), args_of(&["pr", "merge", "8", "--merge"]));
    assert_eq!(pr.merge(8).squash().build_args(), args_of(&["pr", "merge", "8", "--squash"]));
    assert_eq!(pr.merge(8).rebase().build_args(), args_of(&["pr", "merge", "8", "--rebase"]));
    assert_eq!(
        pr.merge(8).squash().auto().build_args(),
        args_of(&["pr", "merge", "8", "--squash", "--auto"])
    );
}

#[test]
fn pr_close_may_delete_the_branch() {
    let pr = GhClient::new().pr();
    assert_eq!(pr.close(90).build_args(), args_of(&["pr", "close", "90"]));
    assert_eq!(
        pr.close(90).delete_branch().build_args(),
        args_of(&["pr", "close", "90", "--delete-branch"])
    );
}

#[test]
fn pr_invocations_carry_program_and_tokens() {
    let client = GhClient::builder().gh_path("/usr/local/bin/gh").build();
    let pr = client.pr();
    let create = pr.create().title("T").invocation();
    assert_eq!(create.program, "/usr/local/bin/gh");
    assert_eq!(create.args, args_of(&["pr", "create", "--title", "T"]));
    let list = pr.list().state("all").invocation();
    assert_eq!(list.program, "/usr/local/bin/gh");
    assert_eq!(list.args, args_of(&["pr", "list", "--state", "all"]));
    assert_eq!(pr.view(2).invocation().args, args_of(&["pr", "view", "2"]));
    assert_eq!(pr.checkout(3).invocation().args, args_of(&["pr", "checkout", "3"]));
    assert_eq!(pr.merge(4).invocation().args, args_of(&["pr", "merge", "4"]));
    assert_eq!(pr.close(5).invocation().args, args_of(&["pr", "close", "5"]));
    assert_eq!(pr.close(5).invocation().program, "/usr/local/bin/gh");
}

#[test]
fn pr_invocation_is_the_same_every_time() {
    let cmd = GhClient::new().pr().merge(12).squash();
    let first = cmd.invocation();
    let second = cmd.invocation();
    assert_eq!(first.program, second.program);
    assert_eq!(first.args, second.args);
    assert_eq!(cmd.build_args(), first.args);
}

#[test]
fn pr_commands_read_a_successful_run() {
    let pr = GhClient::new().pr();
    let done = |text: &str| -> Result<ExecutionOutcome, std::io::Error> {
        Ok(ExecutionOutcome { code: Some(0), stdout: text.as_bytes().to_vec(), stderr: Vec::new() })
    };
    assert_eq!(pr.create().execute(done("https://github.com/o/r/pull/1\n")).unwrap(),
        "https://github.com/o/r/pull/1\n");
    assert_eq!(pr.list().execute(done("1\tFix\n")).unwrap(), "1\tFix\n");
    assert_eq!(pr.view(1).execute(done("title: Fix\n")).unwrap(), "title: Fix\n");
    assert_eq!(pr.checkout(1).execute(done("")).unwrap(), "");
    assert_eq!(pr.merge(1).execute(done("merged")).unwrap(), "merged");
    assert_eq!(pr.close(1).execute(done("closed")).unwrap(), "closed");
}

#[test]
fn pr_commands_read_a_failed_run() {
    let pr = GhClient::new().pr();
    let failed = ExecutionOutcome { code: Some(1), stdout: Vec::new(), stderr: b"boom".to_vec() };
    match pr.merge(1).execute(Ok(failed)) {
        Err(GhError::CommandFailed { code, stderr }) => {
            assert_eq!(code, 1);
            assert_eq!(stderr, "boom");
        }
        other => panic!("expected CommandFailed, got {:?}", other),
    }
    let missing = std::io::Error::from(std::io::ErrorKind::NotFound);
    assert!(matches!(pr.list().execute(Err(missing)), Err(GhError::IoError(_))));
}

#[test]
fn pr_namespace_clone_makes_the_same_commands() {
    let client = GhClient::builder().gh_path("/x/gh").build();
    let pr = client.pr();
    let twin = pr.clone();
    assert_eq!(twin.list().invocation().program, "/x/gh");
    assert_eq!(twin.list().build_args(), pr.list().build_args());
}

use gh_cli_rs::{ExecutionOutcome, GhClient, GhCommand, GhError, Repository};

fn args_of(tokens: &[&str]) -> Vec<String> {
    tokens.iter().map(|t| t.to_string()).collect()
}

#[test]
fn repo_clone_names_the_repository() {
    let cmd = GhClient::new().repo().clone("cli/cli");
    assert_eq!(cmd.build_args(), args_of(&["repo", "clone", "cli/cli"]));
}

#[test]
fn repo_create_with_everything() {
    let cmd = GhClient::new()
        .repo()
        .create("gh-cli-rs")
        .description("A wrapper for GitHub CLI in Rust")
        .public()
        .with_readme();
    assert_eq!(
        cmd.build_args(),
        args_of(&[
            "repo",
            "create",
            "gh-cli-rs",
            "--description",
            "A wrapper for GitHub CLI in Rust",
            "--public",
            "--add-readme"
        ])
    );
}

#[test]
fn repo_create_private_with_homepage() {
    let cmd = GhClient::new().repo().create("secret").private().homepage("https://example.com");
    assert_eq!(
        cmd.build_args(),
        args_of(&["repo", "create", "secret", "--private", "--homepage", "https://example.com"])
    );
}

#[test]
fn repo_create_does_not_judge_contradictions() {
    let cmd = GhClient::new().repo().create("both").public().private();
    assert_eq!(cmd.build_args(), args_of(&["repo", "create", "both", "--public", "--private"]));
}

#[test]
fn repo_fork_may_clone() {
    let repo = GhClient::new().repo();
    assert_eq!(repo.fork("cli/cli").build_args(), args_of(&["repo", "fork", "cli/cli"]));
    assert_eq!(
        repo.fork("cli/cli").clone().build_args(),
        args_of(&["repo", "fork", "cli/cli", "--clone"])
    );
}

#[test]
fn repo_list_alone_is_its_path() {
    let cmd = GhClient::new().repo().list();
    assert_eq!(cmd.build_args(), args_of(&["repo", "list"]));
    assert_eq!(cmd.build_args(), args_of(&["repo", "list"]));
    assert_eq!(cmd.build_args(), args_of(&["repo", "list"]));
}

#[test]
fn repo_list_with_owner_and_limit() {
    let cmd = GhClient::new().repo().list().owner("rust-lang").limit(5);
    assert_eq!(cmd.build_args(), args_of(&["repo", "list", "rust-lang", "--limit", "5"]));
    let cmd = GhClient::new().repo().list().limit(5).owner("rust-lang");
    assert_eq!(cmd.build_args(), args_of(&["repo", "list", "--limit", "5", "rust-lang"]));
}

#[test]
fn repo_view_with_and_without_a_name() {
    let repo = GhClient::new().repo();
    assert_eq!(repo.view(None).build_args(), args_of(&["repo", "view"]));
    assert_eq!(
        repo.view(Some("daivinhtran/gh-cli-rs")).build_args(),
        args_of(&["repo", "view", "daivinhtran/gh-cli-rs"])
    );
    assert_eq!(repo.view(None).web().build_args(), args_of(&["repo", "view", "--web"]));
    assert_eq!(
        repo.view(Some("cli/cli")).web().build_args(),
        args_of(&["repo", "view", "cli/cli", "--web"])
    );
}

#[test]
fn repo_invocations_carry_program_and_tokens() {
    let client = GhClient::builder().gh_path("/usr/bin/gh").build();
    let repo = client.repo();
    assert_eq!(repo.clone("a/b").invocation().program, "/usr/bin/gh");
    assert_eq!(repo.clone("a/b").invocation().args, args_of(&["repo", "clone", "a/b"]));
    assert_eq!(repo.create("n").invocation().args, args_of(&["repo", "create", "n"]));
    assert_eq!(repo.fork("a/b").invocation().args, args_of(&["repo", "fork", "a/b"]));
    assert_eq!(repo.list().invocation().args, args_of(&["repo", "list"]));
    assert_eq!(repo.view(None).invocation().args, args_of(&["repo", "view"]));
    assert_eq!(repo.view(None).invocation().program, "/usr/bin/gh");
}

#[test]
fn repo_commands_read_the_outcome() {
    let repo = GhClient::new().repo();
    let done = |text: &str| -> Result<ExecutionOutcome, std::io::Error> {
        Ok(ExecutionOutcome { code: Some(0), stdout: text.as_bytes().to_vec(), stderr: Vec::new() })
    };
    assert_eq!(repo.clone("a/b").execute(done("")).unwrap(), "");
    assert_eq!(repo.create("n").execute(done("https://github.com/me/n\n")).unwrap(),
        "https://github.com/me/n\n");
    assert_eq!(repo.fork("a/b").execute(done("forked")).unwrap(), "forked");
    assert_eq!(repo.list().execute(done("me/a\nme/b\n")).unwrap(), "me/a\nme/b\n");
    assert_eq!(repo.view(None).execute(done("name: a")).unwrap(), "name: a");
    let failed = ExecutionOutcome {
        code: Some(1),
        stdout: Vec::new(),
        stderr: b"name already exists".to_vec(),
    };
    match repo.create("n").execute(Ok(failed)) {
        Err(GhError::CommandFailed { code, stderr }) => {
            assert_eq!(code, 1);
            assert_eq!(stderr, "name already exists");
        }
        other => panic!("expected CommandFailed, got {:?}", other),
    }
}

#[test]
fn two_commands_of_one_client_do_not_mix() {
    let client = GhClient::builder().gh_path("/usr/bin/gh").build();
    let first = client.repo().list().owner("alice");
    let second = client.repo().list().owner("bob");
    let first = first.limit(1);
    let second = second.limit(2);
    assert_eq!(first.build_args(), args_of(&["repo", "list", "alice", "--limit", "1"]));
    assert_eq!(second.build_args(), args_of(&["repo", "list", "bob", "--limit", "2"]));
    let a = first.execute(Ok(ExecutionOutcome {
        code: Some(0),
        stdout: b"alice/x".to_vec(),
        stderr: Vec::new(),
    }));
    let b = second.execute(Ok(ExecutionOutcome {
        code: Some(3),
        stdout: Vec::new(),
        stderr: b"bob failed".to_vec(),
    }));
    assert_eq!(a.unwrap(), "alice/x");
    assert!(matches!(b, Err(GhError::CommandFailed { code: 3, .. })));
    assert_eq!(first.build_args(), args_of(&["repo", "list", "alice", "--limit", "1"]));
    assert_eq!(second.invocation().program, first.invocation().program);
}

#[test]
fn repo_namespace_clone_makes_the_same_commands() {
    let repo = GhClient::builder().gh_path("/x/gh").build().repo();
    let twin = Clone::clone(&repo);
    assert_eq!(twin.list().invocation().program, "/x/gh");
}

#[test]
fn repository_record_holds_its_fields() {
    let repo = Repository {
        name: "cli".to_string(),
        name_with_owner: "cli/cli".to_string(),
        description: None,
        url: "https://github.com/cli/cli".to_string(),
        is_private: false,
        is_fork: true,
        created_at: "2019-10-03T00:00:00Z".to_string(),
        updated_at: "2024-01-02T00:00:00Z".to_string(),
    };
    assert_eq!(repo.name_with_owner, "cli/cli");
    assert!(repo.description.is_none());
    assert!(repo.is_fork && !repo.is_private);
}

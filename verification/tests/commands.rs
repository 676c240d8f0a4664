// Exact command strings the builder must produce, and the outcome and
// connectivity behaviour, exercised through a stub transport that never
// touches a network.

use wcli::builder;
use wcli::builder::Credential;
use wcli::outcome::{test_connection, ExecutionOutcome};

/// A stand-in for the transport: executes nothing, echoes the handed string
/// back as the stdout of a successful run.
struct EchoTransport {
    elapsed_millis: u64,
}

impl EchoTransport {
    fn execute(&self, command: &str) -> ExecutionOutcome {
        ExecutionOutcome::new(true, command.to_string(), String::new(), self.elapsed_millis)
    }
}

/// A stand-in for a transport whose local process cannot be spawned: every
/// execution fails before reaching the remote host.
struct BrokenTransport;

impl BrokenTransport {
    fn execute(&self, _command: &str) -> ExecutionOutcome {
        ExecutionOutcome::new(
            false,
            String::new(),
            "failed to execute remote command".to_string(),
            0,
        )
    }
}

#[test]
fn plain_is_identity() {
    assert_eq!(builder::plain("ls -l"), "ls -l");
    assert_eq!(builder::plain(""), "");
    assert_eq!(builder::plain("cd Directory && ls -l"), "cd Directory && ls -l");
}

#[test]
fn privileged_feeds_secret_then_command() {
    let built = builder::sudo_command("pw", "sudo yum install -y tree");
    assert_eq!(built, "echo pw | sudo yum install -y tree");
    // the secret stands once, right after the feed prefix and before the command
    assert!(built.starts_with("echo pw | "));
    assert!(built.ends_with("sudo yum install -y tree"));
}

#[test]
fn scoped_prefixes_directory() {
    assert_eq!(builder::git_cmd("proj/repo", "status"), "cd proj/repo && status");
    assert_eq!(builder::git_cmd("a", "b"), "cd a && b");
}

#[test]
fn install_and_remove_wrap_package_token() {
    assert_eq!(builder::install("pw", "tree"), "echo pw | sudo yum install -y tree");
    assert_eq!(builder::remove("pw", "tree"), "echo pw | sudo yum remove -y tree");
}

#[test]
fn sql_query_selects_database_then_runs() {
    assert_eq!(
        builder::sql_query("pw", "mydb", "SELECT 1;"),
        "echo pw | sudo -S mariadb -u root -p -e \"USE mydb; SELECT 1;\""
    );
}

#[test]
fn sql_login_feeds_secret_into_client() {
    assert_eq!(builder::sql_login("pw"), "echo pw | sudo -S mariadb -u root -p");
}

#[test]
fn test_invocation_activates_venv_then_discovers() {
    assert_eq!(
        builder::run_unittests("Documents/repository", ".venv", "app/tests"),
        "cd Documents/repository && source .venv/bin/activate && python3 -m unittest discover app/tests"
    );
}

#[test]
fn test_invocation_trims_prompted_values() {
    assert_eq!(
        builder::run_unittests("proj\n", " .venv ", "tests\n"),
        "cd proj && source .venv/bin/activate && python3 -m unittest discover tests"
    );
}

#[test]
fn ssh_wraps_command_with_key_and_host() {
    let credential = Credential {
        password: "pw".to_string(),
        pem: "/home/user/key.pem".to_string(),
        ec2: "ec2-user@host".to_string(),
    };
    assert_eq!(
        builder::ssh(&credential, "echo test"),
        "ssh -i /home/user/key.pem ec2-user@host 'echo test'"
    );
}

#[test]
fn connectivity_command_is_noop_echo() {
    assert_eq!(builder::connectivity_command(), "echo test");
}

#[test]
fn outcome_reports_stdout_on_success_and_stderr_on_failure() {
    let ok = ExecutionOutcome::new(true, "out".to_string(), "err".to_string(), 3);
    assert_eq!(ok.report(), "out");
    let failed = ExecutionOutcome::new(false, "out".to_string(), "err".to_string(), 3);
    assert_eq!(failed.report(), "err");
}

#[test]
fn connectivity_test_is_idempotent_with_independent_timing() {
    let transport = EchoTransport { elapsed_millis: 5 };
    let first = transport.execute(&builder::connectivity_command());
    let slower = EchoTransport { elapsed_millis: 9 };
    let second = slower.execute(&builder::connectivity_command());
    assert_eq!(test_connection(&first), Some(5));
    assert_eq!(test_connection(&second), Some(9));
}

#[test]
fn round_trip_through_echoing_transport() {
    let transport = EchoTransport { elapsed_millis: 1 };
    let built = builder::sql_query("pw", "mydb", "SELECT 1;");
    let outcome = transport.execute(&built);
    assert_eq!(outcome.stdout, built);
    assert_eq!(outcome.report(), &built);
}

#[test]
fn spawn_failure_aborts_startup() {
    let transport = BrokenTransport;
    let outcome = transport.execute(&builder::connectivity_command());
    // None tells the caller to abort before any mode loop runs
    assert_eq!(test_connection(&outcome), None);
}

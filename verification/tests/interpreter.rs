// The mode interpreters' classification of typed lines, the text
// primitives they rest on, and the interactive scenarios end to end
// against a stub transport.

use wcli::modes::{git_step, shell_step, sql_step, top_step};
use wcli::modes::{GitAction, ShellAction, SqlAction, TopAction};
use wcli::outcome::{check_name, ExecutionOutcome};
use wcli::text::{capitalise, first_token, str_eq, trim};

#[test]
fn trim_strips_surrounding_whitespace_only() {
    assert_eq!(trim("  ls -l \n"), "ls -l");
    assert_eq!(trim("ls"), "ls");
    assert_eq!(trim(""), "");
    assert_eq!(trim(" \t\r\n"), "");
    assert_eq!(trim("a  b"), "a  b");
}

#[test]
fn first_token_stops_at_first_space() {
    assert_eq!(first_token("sudo yum install -y tree"), "sudo");
    assert_eq!(first_token("exit\n"), "exit");
    assert_eq!(first_token(""), "");
    assert_eq!(first_token(" leading"), "");
    assert_eq!(first_token("single"), "single");
}

#[test]
fn str_eq_compares_characters() {
    assert!(str_eq("exit", "exit"));
    assert!(!str_eq("exit", "exi"));
    assert!(!str_eq("exit", "quit"));
    assert!(str_eq("", ""));
}

#[test]
fn capitalise_uppercases_first_ascii_letter() {
    assert_eq!(capitalise("josh"), "Josh");
    assert_eq!(capitalise("Josh"), "Josh");
    assert_eq!(capitalise("j"), "J");
    assert_eq!(capitalise("1abc"), "1abc");
    assert_eq!(capitalise("émile"), "émile");
}

#[test]
fn check_name_trims_lookup_or_falls_back() {
    assert_eq!(check_name(true, "josh\n"), "josh");
    assert_eq!(check_name(false, "ignored"), "user");
}

#[test]
fn shell_line_runs_plain_after_trimming() {
    // scenario: `ls -l` typed in shell mode, transport answers with a listing
    match shell_step("pw", "ls -l\n") {
        ShellAction::Run(command) => {
            assert_eq!(command, "ls -l");
            let outcome =
                ExecutionOutcome::new(true, "file.txt".to_string(), String::new(), 2);
            assert_eq!(outcome.report(), "file.txt");
        },
        _ => panic!("a plain line must run as a remote command"),
    }
}

#[test]
fn shell_sudo_line_is_escalated_with_secret() {
    // scenario: `sudo yum install -y tree` typed in shell mode with secret pw
    match shell_step("pw", "sudo yum install -y tree\n") {
        ShellAction::RunSudo(command) => {
            assert_eq!(command, "echo pw | sudo yum install -y tree")
        },
        _ => panic!("a sudo line must be escalated"),
    }
}

#[test]
fn shell_keywords_trigger_their_branches() {
    assert!(matches!(shell_step("pw", "install\n"), ShellAction::Install));
    assert!(matches!(shell_step("pw", "remove\n"), ShellAction::Remove));
    assert!(matches!(shell_step("pw", "clear\n"), ShellAction::Clear));
    assert!(matches!(shell_step("pw", "help\n"), ShellAction::Help));
    assert!(matches!(shell_step("pw", "exit\n"), ShellAction::Exit));
    // the keyword decides by first token alone
    assert!(matches!(shell_step("pw", "exit now\n"), ShellAction::Exit));
}

#[test]
fn shell_line_with_leading_space_runs_plain() {
    // the first split token of an indented line is empty, so even an
    // indented sudo line runs as a plain command of the trimmed text
    match shell_step("pw", " sudo ls\n") {
        ShellAction::Run(command) => assert_eq!(command, "sudo ls"),
        _ => panic!("an indented line must run as a plain command"),
    }
}

#[test]
fn git_command_is_scoped_to_directory() {
    // scenario: git mode entered with proj/repo, the operator types status
    match git_step("proj/repo", "status\n") {
        GitAction::Run(command) => assert_eq!(command, "cd proj/repo && status"),
        _ => panic!("a git line must run scoped to the directory"),
    }
}

#[test]
fn git_keywords_trigger_their_branches() {
    assert!(matches!(git_step("d", "exit\n"), GitAction::Exit));
    assert!(matches!(git_step("d", "change\n"), GitAction::Change));
    assert!(matches!(git_step("d", "clear\n"), GitAction::Clear));
    assert!(matches!(git_step("d", "help\n"), GitAction::Help));
    // keywords match the whole trimmed line, not its first token
    match git_step("d", "help me\n") {
        GitAction::Run(command) => assert_eq!(command, "cd d && help me"),
        _ => panic!("a multi-word line is a git command"),
    }
}

#[test]
fn git_directory_is_trimmed_at_use() {
    match git_step("proj/repo\n", "status\n") {
        GitAction::Run(command) => assert_eq!(command, "cd proj/repo && status"),
        _ => panic!("a git line must run scoped to the directory"),
    }
}

#[test]
fn sql_query_is_wrapped_for_database() {
    // scenario: sql mode on mydb with secret pw, the operator types a query
    match sql_step("pw", "mydb", "SELECT 1;\n") {
        SqlAction::Run(command) => {
            assert_eq!(
                command,
                "echo pw | sudo -S mariadb -u root -p -e \"USE mydb; SELECT 1;\""
            )
        },
        _ => panic!("a query line must run against the database"),
    }
}

#[test]
fn sql_keywords_trigger_their_branches() {
    assert!(matches!(sql_step("pw", "mydb", "exit\n"), SqlAction::Exit));
    assert!(matches!(sql_step("pw", "mydb", "database\n"), SqlAction::ShowDatabase));
    assert!(matches!(sql_step("pw", "mydb", "change\n"), SqlAction::Change));
    assert!(matches!(sql_step("pw", "mydb", "clear\n"), SqlAction::Clear));
    assert!(matches!(sql_step("pw", "mydb", "help\n"), SqlAction::Help));
}

#[test]
fn top_level_routes_modes_and_globals() {
    assert!(matches!(top_step("cmd\n"), TopAction::Shell));
    assert!(matches!(top_step("git\n"), TopAction::Git));
    assert!(matches!(top_step("sql\n"), TopAction::Sql));
    assert!(matches!(top_step("test\n"), TopAction::Test));
    assert!(matches!(top_step("clear\n"), TopAction::Clear));
    assert!(matches!(top_step("help\n"), TopAction::Help));
    assert!(matches!(top_step("exit\n"), TopAction::Exit));
    assert!(matches!(top_step("bogus\n"), TopAction::Invalid));
    assert!(matches!(top_step("git status\n"), TopAction::Invalid));
}

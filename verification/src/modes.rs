//! Mode interpreters and the top-level dispatcher, as pure step functions:
//! each takes the session state and one typed line and returns the action
//! the surrounding loop must perform. The loops themselves — reading lines,
//! spawning the transport, printing — live outside the library; they hand
//! every typed line to these functions and obey the returned action.

use vstd::prelude::*;
use crate::builder;
use crate::builder::{scoped_spec, sql_query_spec, sudo_command_spec};
use crate::text;
use crate::text::{first_token_spec, trim_spec};

verus! {

/// What the shell-mode loop must do with one typed line.
pub enum ShellAction {
    /// Run this fully built command through the transport and print the
    /// outcome.
    Run(String),
    /// Run this fully built, privilege-escalated command and print the
    /// outcome.
    RunSudo(String),
    /// Prompt for a package token, then build and run the installation.
    Install,
    /// Prompt for a package token, then build and run the removal.
    Remove,
    /// Clear the terminal.
    Clear,
    /// Print the mode's command summary.
    Help,
    /// Leave the mode loop.
    Exit,
}

/// What the git-mode loop must do with one typed line.
pub enum GitAction {
    /// Run this fully built, directory-scoped command and print the outcome.
    Run(String),
    /// Prompt for a new working directory and continue with it.
    Change,
    /// Clear the terminal.
    Clear,
    /// Print the mode's command summary.
    Help,
    /// Leave the mode loop.
    Exit,
}

/// What the sql-mode loop must do with one typed line.
pub enum SqlAction {
    /// Run this fully built, database-scoped query and print the outcome.
    Run(String),
    /// Print the name of the session's database.
    ShowDatabase,
    /// Re-test database connectivity and prompt for a new database name.
    Change,
    /// Clear the terminal.
    Clear,
    /// Print the mode's command summary.
    Help,
    /// Leave the mode loop.
    Exit,
}

/// What the outer loop must do with one typed line.
pub enum TopAction {
    /// Enter the shell mode loop.
    Shell,
    /// Enter the git mode loop.
    Git,
    /// Enter the sql mode loop.
    Sql,
    /// Enter the test mode.
    Test,
    /// Clear the terminal.
    Clear,
    /// Print the top-level command summary.
    Help,
    /// Terminate the process.
    Exit,
    /// Print the invalid-command notice and re-prompt.
    Invalid,
}

/// Classifies one shell-mode line by its first space-delimited token: a
/// `sudo` line is escalated with the secret (the whole trimmed line, `sudo`
/// included, follows the injected secret), a reserved keyword triggers its
/// branch, and anything else runs as a plain remote command, trimmed.
pub fn shell_step(password: &str, line: &str) -> (action: ShellAction)
    ensures
        ({
            let token = first_token_spec(line@);
            let command = trim_spec(line@);
            &&& (action is RunSudo ==> token == "sudo"@ && action->RunSudo_0@
                == sudo_command_spec(password@, command))
            &&& (action is Install ==> token == "install"@)
            &&& (action is Remove ==> token == "remove"@)
            &&& (action is Clear ==> token == "clear"@)
            &&& (action is Help ==> token == "help"@)
            &&& (action is Exit ==> token == "exit"@)
            &&& (action is Run ==> token != "sudo"@ && token != "install"@ && token != "remove"@
                && token != "clear"@ && token != "help"@ && token != "exit"@
                && action->Run_0@ == command)
            &&& (token == "sudo"@ ==> action is RunSudo)
            &&& (token == "install"@ ==> action is Install)
            &&& (token == "remove"@ ==> action is Remove)
            &&& (token == "clear"@ ==> action is Clear)
            &&& (token == "help"@ ==> action is Help)
            &&& (token == "exit"@ ==> action is Exit)
        }),
{
    proof {
        crate::laws::lemma_keywords_distinct();
    }
    let token = text::first_token(line);
    let command = text::trim(line);
    if text::str_eq(token, "sudo") {
        ShellAction::RunSudo(builder::sudo_command(password, command))
    } else if text::str_eq(token, "install") {
        ShellAction::Install
    } else if text::str_eq(token, "remove") {
        ShellAction::Remove
    } else if text::str_eq(token, "clear") {
        ShellAction::Clear
    } else if text::str_eq(token, "help") {
        ShellAction::Help
    } else if text::str_eq(token, "exit") {
        ShellAction::Exit
    } else {
        ShellAction::Run(builder::plain(command))
    }
}

/// Classifies one git-mode line: an exact keyword (after trimming) triggers
/// its branch, anything else runs scoped to the session's working directory.
pub fn git_step(directory: &str, line: &str) -> (action: GitAction)
    ensures
        ({
            let command = trim_spec(line@);
            &&& (action is Exit ==> command == "exit"@)
            &&& (action is Change ==> command == "change"@)
            &&& (action is Clear ==> command == "clear"@)
            &&& (action is Help ==> command == "help"@)
            &&& (action is Run ==> command != "exit"@ && command != "change"@ && command
                != "clear"@ && command != "help"@ && action->Run_0@ == scoped_spec(
                trim_spec(directory@),
                command,
            ))
            &&& (command == "exit"@ ==> action is Exit)
            &&& (command == "change"@ ==> action is Change)
            &&& (command == "clear"@ ==> action is Clear)
            &&& (command == "help"@ ==> action is Help)
        }),
{
    proof {
        crate::laws::lemma_keywords_distinct();
    }
    let command = text::trim(line);
    if text::str_eq(command, "exit") {
        GitAction::Exit
    } else if text::str_eq(command, "change") {
        GitAction::Change
    } else if text::str_eq(command, "clear") {
        GitAction::Clear
    } else if text::str_eq(command, "help") {
        GitAction::Help
    } else {
        GitAction::Run(builder::git_cmd(text::trim(directory), command))
    }
}

/// Classifies one sql-mode line: an exact keyword (after trimming) triggers
/// its branch, anything else runs as a query scoped to the session's
/// database, escalated with the secret.
pub fn sql_step(password: &str, database: &str, line: &str) -> (action: SqlAction)
    ensures
        ({
            let query = trim_spec(line@);
            &&& (action is Exit ==> query == "exit"@)
            &&& (action is ShowDatabase ==> query == "database"@)
            &&& (action is Change ==> query == "change"@)
            &&& (action is Clear ==> query == "clear"@)
            &&& (action is Help ==> query == "help"@)
            &&& (action is Run ==> query != "exit"@ && query != "database"@ && query != "change"@
                && query != "clear"@ && query != "help"@ && action->Run_0@
                == sql_query_spec(password@, trim_spec(database@), query))
            &&& (query == "exit"@ ==> action is Exit)
            &&& (query == "database"@ ==> action is ShowDatabase)
            &&& (query == "change"@ ==> action is Change)
            &&& (query == "clear"@ ==> action is Clear)
            &&& (query == "help"@ ==> action is Help)
        }),
{
    proof {
        crate::laws::lemma_keywords_distinct();
    }
    let query = text::trim(line);
    if text::str_eq(query, "exit") {
        SqlAction::Exit
    } else if text::str_eq(query, "database") {
        SqlAction::ShowDatabase
    } else if text::str_eq(query, "change") {
        SqlAction::Change
    } else if text::str_eq(query, "clear") {
        SqlAction::Clear
    } else if text::str_eq(query, "help") {
        SqlAction::Help
    } else {
        SqlAction::Run(builder::sql_query(password, text::trim(database), query))
    }
}

/// Routes one top-level line to a mode or a global command; anything
/// unrecognized is reported as invalid and the prompt shown again.
pub fn top_step(line: &str) -> (action: TopAction)
    ensures
        ({
            let prompt = trim_spec(line@);
            &&& (action is Shell ==> prompt == "cmd"@)
            &&& (action is Git ==> prompt == "git"@)
            &&& (action is Sql ==> prompt == "sql"@)
            &&& (action is Test ==> prompt == "test"@)
            &&& (action is Clear ==> prompt == "clear"@)
            &&& (action is Help ==> prompt == "help"@)
            &&& (action is Exit ==> prompt == "exit"@)
            &&& (action is Invalid ==> prompt != "cmd"@ && prompt != "git"@ && prompt != "sql"@
                && prompt != "test"@ && prompt != "clear"@ && prompt != "help"@ && prompt
                != "exit"@)
            &&& (prompt == "cmd"@ ==> action is Shell)
            &&& (prompt == "git"@ ==> action is Git)
            &&& (prompt == "sql"@ ==> action is Sql)
            &&& (prompt == "test"@ ==> action is Test)
            &&& (prompt == "clear"@ ==> action is Clear)
            &&& (prompt == "help"@ ==> action is Help)
            &&& (prompt == "exit"@ ==> action is Exit)
        }),
{
    proof {
        crate::laws::lemma_keywords_distinct();
    }
    let prompt = text::trim(line);
    if text::str_eq(prompt, "cmd") {
        TopAction::Shell
    } else if text::str_eq(prompt, "git") {
        TopAction::Git
    } else if text::str_eq(prompt, "sql") {
        TopAction::Sql
    } else if text::str_eq(prompt, "test") {
        TopAction::Test
    } else if text::str_eq(prompt, "clear") {
        TopAction::Clear
    } else if text::str_eq(prompt, "help") {
        TopAction::Help
    } else if text::str_eq(prompt, "exit") {
        TopAction::Exit
    } else {
        TopAction::Invalid
    }
}

} // verus!

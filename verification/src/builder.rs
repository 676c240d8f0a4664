//! Command builder: pure construction of the exact strings handed to the
//! remote transport.
//!
//! Every function here is straight-line string concatenation; each one's
//! `ensures` pins the result down to the character. The secret is
//! interpolated in cleartext and nothing is shell-escaped: that is the
//! documented trust boundary of the tool, not an oversight.

use vstd::prelude::*;
use vstd::string::*;

verus! {

/// Connection parameters and the secret, loaded once at process start and
/// immutable for the process lifetime.
pub struct Credential {
    /// Root password fed to privilege escalation on the remote host.
    pub password: String,
    /// Path of the private-key file handed to the transport.
    pub pem: String,
    /// Remote host connection string (user@host).
    pub ec2: String,
}

/// The string a privilege-escalated command is built to: the secret piped
/// into the elevation tool, then the command.
pub open spec fn sudo_command_spec(password: Seq<char>, command: Seq<char>) -> Seq<char> {
    "echo "@ + password + " | "@ + command
}

/// The string a directory-scoped command is built to.
pub open spec fn scoped_spec(directory: Seq<char>, command: Seq<char>) -> Seq<char> {
    "cd "@ + directory + " && "@ + command
}

/// The string a package installation is built to.
pub open spec fn install_spec(password: Seq<char>, package: Seq<char>) -> Seq<char> {
    "echo "@ + password + " | sudo yum install -y "@ + package
}

/// The string a package removal is built to.
pub open spec fn remove_spec(password: Seq<char>, package: Seq<char>) -> Seq<char> {
    "echo "@ + password + " | sudo yum remove -y "@ + package
}

/// The string a database-scoped query is built to: the secret piped into the
/// elevation tool, then a non-interactive database-client invocation that
/// selects the database and executes the query.
pub open spec fn sql_query_spec(password: Seq<char>, database: Seq<char>, query: Seq<char>) -> Seq<
    char,
> {
    "echo "@ + password + " | sudo -S mariadb -u root -p -e \"USE "@ + database + "; "@ + query
        + "\""@
}

/// The string the database connectivity self-test is built to.
pub open spec fn sql_login_spec(password: Seq<char>) -> Seq<char> {
    "echo "@ + password + " | sudo -S mariadb -u root -p"@
}

/// The string a remote test run is built to: enter the repository, activate
/// the virtual environment, discover and run the tests.
pub open spec fn test_command_spec(directory: Seq<char>, venv: Seq<char>, tests: Seq<char>) -> Seq<
    char,
> {
    "cd "@ + directory + " && source "@ + venv + "/bin/activate && python3 -m unittest discover "@
        + tests
}

/// The full transport invocation: the remote command wrapped in an ssh call
/// with the key path and host from the credential.
pub open spec fn ssh_spec(pem: Seq<char>, ec2: Seq<char>, command: Seq<char>) -> Seq<char> {
    "ssh -i "@ + pem + " "@ + ec2 + " '"@ + command + "'"@
}

/// Plain variant: the command is passed through unchanged.
pub fn plain(command: &str) -> (r: String)
    ensures
        r@ == command@,
{
    String::from_str(command)
}

/// Privilege-escalated variant: feeds the secret into the elevation tool,
/// then runs the command. The secret appears in cleartext in the result.
pub fn sudo_command(password: &str, command: &str) -> (r: String)
    ensures
        r@ == sudo_command_spec(password@, command@),
{
    let mut s = String::from_str("echo ");
    s.append(password);
    s.append(" | ");
    s.append(command);
    s
}

/// Scoped variant: runs the command after changing to the given directory.
pub fn git_cmd(directory: &str, command: &str) -> (r: String)
    ensures
        r@ == scoped_spec(directory@, command@),
{
    let mut s = String::from_str("cd ");
    s.append(directory);
    s.append(" && ");
    s.append(command);
    s
}

/// Builds the elevation-wrapped package installation for the given package
/// token.
pub fn install(password: &str, package: &str) -> (r: String)
    ensures
        r@ == install_spec(password@, package@),
{
    let mut s = String::from_str("echo ");
    s.append(password);
    s.append(" | sudo yum install -y ");
    s.append(package);
    s
}

/// Builds the elevation-wrapped package removal for the given package token.
pub fn remove(password: &str, package: &str) -> (r: String)
    ensures
        r@ == remove_spec(password@, package@),
{
    let mut s = String::from_str("echo ");
    s.append(password);
    s.append(" | sudo yum remove -y ");
    s.append(package);
    s
}

/// Builds the elevation-wrapped, database-scoped client invocation for the
/// given query.
pub fn sql_query(password: &str, database: &str, query: &str) -> (r: String)
    ensures
        r@ == sql_query_spec(password@, database@, query@),
{
    let mut s = String::from_str("echo ");
    s.append(password);
    s.append(" | sudo -S mariadb -u root -p -e \"USE ");
    s.append(database);
    s.append("; ");
    s.append(query);
    s.append("\"");
    s
}

/// Builds the database connectivity self-test command.
pub fn sql_login(password: &str) -> (r: String)
    ensures
        r@ == sql_login_spec(password@),
{
    let mut s = String::from_str("echo ");
    s.append(password);
    s.append(" | sudo -S mariadb -u root -p");
    s
}

/// Builds the remote test invocation from repository path, virtual
/// environment name and test directory, each trimmed as prompted input is.
pub fn run_unittests(directory: &str, venv: &str, tests: &str) -> (r: String)
    ensures
        r@ == test_command_spec(
            crate::text::trim_spec(directory@),
            crate::text::trim_spec(venv@),
            crate::text::trim_spec(tests@),
        ),
{
    let mut s = String::from_str("cd ");
    s.append(crate::text::trim(directory));
    s.append(" && source ");
    s.append(crate::text::trim(venv));
    s.append("/bin/activate && python3 -m unittest discover ");
    s.append(crate::text::trim(tests));
    s
}

/// Wraps an already-built remote command in the transport invocation for the
/// credential's key path and host.
pub fn ssh(credential: &Credential, command: &str) -> (r: String)
    ensures
        r@ == ssh_spec(credential.pem@, credential.ec2@, command@),
{
    let mut s = String::from_str("ssh -i ");
    s.append(credential.pem.as_str());
    s.append(" ");
    s.append(credential.ec2.as_str());
    s.append(" '");
    s.append(command);
    s.append("'");
    s
}

/// Builds the no-op remote command the startup connectivity self-test runs.
pub fn connectivity_command() -> (r: String)
    ensures
        r@ == "echo test"@,
{
    String::from_str("echo test")
}

} // verus!

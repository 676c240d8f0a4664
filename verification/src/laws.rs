//! Laws of the command builder and the executor, stated over the same spec
//! functions the executable contracts use.

use vstd::prelude::*;
use crate::builder::sudo_command_spec;
use crate::outcome::{connection_report_spec, report_spec, ExecutionOutcome};

verus! {

/// The privilege-escalated string is exactly the feed prefix, then the
/// secret, then the pipe into the elevation tool, then the command: the
/// secret stands at positions 5 to 5 + |secret|, strictly before the
/// command, which fills the tail from position 8 + |secret| on.
pub proof fn lemma_privileged_secret_before_command(password: Seq<char>, command: Seq<char>)
    ensures
        sudo_command_spec(password, command).len() == 8 + password.len() + command.len(),
        sudo_command_spec(password, command).subrange(0, 5) == "echo "@,
        sudo_command_spec(password, command).subrange(5, 5 + password.len() as int) == password,
        sudo_command_spec(password, command).subrange(
            5 + password.len() as int,
            8 + password.len() as int,
        ) == " | "@,
        sudo_command_spec(password, command).subrange(
            8 + password.len() as int,
            sudo_command_spec(password, command).len() as int,
        ) == command,
{
    reveal_strlit("echo ");
    reveal_strlit(" | ");
    let s = sudo_command_spec(password, command);
    assert(s.subrange(0, 5) =~= "echo "@);
    assert(s.subrange(5, 5 + password.len() as int) =~= password);
    assert(s.subrange(5 + password.len() as int, 8 + password.len() as int) =~= " | "@);
    assert(s.subrange(8 + password.len() as int, s.len() as int) =~= command);
}

/// A pipe separator (space, pipe, space) stands at position `i` of `h`.
pub open spec fn sep_at(h: Seq<char>, i: int) -> bool {
    &&& 0 <= i
    &&& i + 3 <= h.len()
    &&& h[i] == ' '
    &&& h[i + 1] == '|'
    &&& h[i + 2] == ' '
}

/// Shell-decoding the privilege-escalated string recovers "feed the secret,
/// then run the command with elevated rights": when the secret holds no pipe
/// character, the first pipe separator stands right after the secret, what
/// precedes it is exactly the feed of the secret, and what follows it is
/// exactly the command.
pub proof fn lemma_privileged_decode(password: Seq<char>, command: Seq<char>)
    requires
        forall|k: int| 0 <= k < password.len() ==> password[k] != '|',
    ensures
        ({
            let s = sudo_command_spec(password, command);
            &&& sep_at(s, 5 + password.len() as int)
            &&& forall|i: int| 0 <= i < 5 + password.len() ==> !sep_at(s, i)
            &&& s.subrange(0, 5 + password.len() as int) == "echo "@ + password
            &&& s.subrange(8 + password.len() as int, s.len() as int) == command
        }),
{
    reveal_strlit("echo ");
    reveal_strlit(" | ");
    let s = sudo_command_spec(password, command);
    assert(s.subrange(0, 5 + password.len() as int) =~= "echo "@ + password);
    assert(s.subrange(8 + password.len() as int, s.len() as int) =~= command);
    assert forall|i: int| 0 <= i < 5 + password.len() implies !sep_at(s, i) by {
        if sep_at(s, i) {
            // the pipe at i + 1 would lie in the feed prefix, in the secret,
            // or on the space that opens the true separator: all impossible
            let j = i + 1;
            if j < 5 {
                assert(s[j] == "echo "@[j]);
            } else if j < 5 + password.len() {
                assert(s[j] == password[j - 5]);
            } else {
                assert(s[j] == " | "@[0]);
            }
        }
    }
}

/// The reserved keywords are pairwise distinct, so the conditions the step
/// functions' contracts attach to their action variants are mutually
/// exclusive: one typed line admits exactly one action.
pub proof fn lemma_keywords_distinct()
    ensures
        "sudo"@ != "install"@ && "sudo"@ != "remove"@ && "sudo"@ != "clear"@ && "sudo"@ != "help"@
            && "sudo"@ != "exit"@,
        "install"@ != "remove"@ && "install"@ != "clear"@ && "install"@ != "help"@ && "install"@
            != "exit"@,
        "remove"@ != "clear"@ && "remove"@ != "help"@ && "remove"@ != "exit"@,
        "clear"@ != "help"@ && "clear"@ != "exit"@,
        "help"@ != "exit"@,
        "change"@ != "exit"@ && "change"@ != "clear"@ && "change"@ != "help"@ && "change"@
            != "database"@,
        "database"@ != "exit"@ && "database"@ != "clear"@ && "database"@ != "help"@,
        "cmd"@ != "git"@ && "cmd"@ != "sql"@ && "cmd"@ != "test"@ && "cmd"@ != "clear"@ && "cmd"@
            != "help"@ && "cmd"@ != "exit"@,
        "git"@ != "sql"@ && "git"@ != "test"@ && "git"@ != "clear"@ && "git"@ != "help"@ && "git"@
            != "exit"@,
        "sql"@ != "test"@ && "sql"@ != "clear"@ && "sql"@ != "help"@ && "sql"@ != "exit"@,
        "test"@ != "clear"@ && "test"@ != "help"@ && "test"@ != "exit"@,
{
    reveal_strlit("sudo");
    reveal_strlit("install");
    reveal_strlit("remove");
    reveal_strlit("clear");
    reveal_strlit("help");
    reveal_strlit("exit");
    reveal_strlit("change");
    reveal_strlit("database");
    reveal_strlit("cmd");
    reveal_strlit("git");
    reveal_strlit("sql");
    reveal_strlit("test");
    // materialize the length and first character of each keyword, from
    // which every disequality follows
    assert("sudo"@.len() == 4);
    assert("install"@.len() == 7);
    assert("remove"@.len() == 6);
    assert("clear"@.len() == 5);
    assert("help"@.len() == 4);
    assert("exit"@.len() == 4);
    assert("change"@.len() == 6);
    assert("database"@.len() == 8);
    assert("cmd"@.len() == 3);
    assert("git"@.len() == 3);
    assert("sql"@.len() == 3);
    assert("test"@.len() == 4);
    assert("sudo"@[0] == 's');
    assert("install"@[0] == 'i');
    assert("remove"@[0] == 'r');
    assert("clear"@[0] == 'c');
    assert("help"@[0] == 'h');
    assert("exit"@[0] == 'e');
    assert("change"@[0] == 'c');
    assert("database"@[0] == 'd');
    assert("cmd"@[0] == 'c');
    assert("git"@[0] == 'g');
    assert("sql"@[0] == 's');
    assert("test"@[0] == 't');
}

/// Connectivity testing is idempotent: the verdict is a pure function of one
/// outcome, so two healthy outcomes each pass the self-test, and each is
/// reported with its own elapsed measurement, unaffected by the other.
pub proof fn lemma_connectivity_idempotent(first: &ExecutionOutcome, second: &ExecutionOutcome)
    requires
        first.succeeded,
        second.succeeded,
    ensures
        connection_report_spec(first) == Some(first.elapsed_millis),
        connection_report_spec(second) == Some(second.elapsed_millis),
{
}

/// Round trip: when the transport echoes the handed string back as standard
/// output of a successful run, the reported outcome text is exactly the
/// constructed command.
pub proof fn lemma_round_trip(outcome: &ExecutionOutcome, command: Seq<char>)
    requires
        outcome.succeeded,
        outcome.stdout@ == command,
    ensures
        report_spec(outcome) == command,
{
}

} // verus!

use vstd::prelude::*;
use crate::host::{text_result, CommandOutput, Invocation, Platform};
use crate::text::{decode_utf8_lossy, prefixed_message, utf8_lossy};

verus! {

/// The interpreter and arguments that run `command` on `platform`: `cmd /C`
/// on Windows, `sh -c` on macOS and Linux, none elsewhere.
pub open spec fn shell_for(platform: Platform, command: Seq<char>) -> Option<
    (Seq<char>, Seq<Seq<char>>),
> {
    match platform {
        Platform::Windows => Some(("cmd"@, seq!["/C"@, command])),
        Platform::MacOs | Platform::Linux => Some(("sh"@, seq!["-c"@, command])),
        Platform::Other => None,
    }
}

/// The result of a shell command, given what running it produced: its
/// standard output on success, its standard error on a non-zero exit, the
/// reason where it could not be started. Output is decoded permissively.
pub open spec fn shell_outcome(out: CommandOutput) -> Result<Seq<char>, Seq<char>> {
    match out {
        CommandOutput::Completed { success, stdout, stderr } => if success {
            Ok(utf8_lossy(stdout@))
        } else {
            Err("Command failed: "@ + utf8_lossy(stderr@))
        },
        CommandOutput::SpawnFailed { message } => Err("Failed to execute command: "@ + message@),
    }
}

/// A command that exits with success never fails, whatever bytes it writes:
/// invalid UTF-8 in its output is replaced, not rejected.
pub proof fn successful_run_never_fails(stdout: Vec<u8>, stderr: Vec<u8>)
    ensures
        shell_outcome((CommandOutput::Completed { success: true, stdout, stderr }))
            == Ok::<Seq<char>, Seq<char>>(utf8_lossy(stdout@)),
{
}

/// Every way in which running a shell command can go wrong gives a failure
/// with a non-empty message.
pub proof fn shell_failures_carry_a_message(out: CommandOutput)
    ensures
        shell_outcome(out) matches Err(e) ==> e.len() > 0,
{
    reveal_strlit("Command failed: ");
    reveal_strlit("Failed to execute command: ");
}

/// The invocation that runs `command` through the platform's interpreter;
/// the command is passed on as it stands, without escaping.
pub fn shell_invocation(platform: Platform, command: &str) -> (r: Option<Invocation>)
    ensures
        match (r, shell_for(platform, command@)) {
            (Some(inv), Some(expected)) => inv.runs(expected.0, expected.1),
            (None, None) => true,
            _ => false,
        },
{
    match platform {
        Platform::Windows => {
            let r = Invocation::new("cmd", &["/C", command]);
            assert(seq!["/C", command].map_values(|a: &str| a@) =~= seq!["/C"@, command@]);
            Some(r)
        },
        Platform::MacOs | Platform::Linux => {
            let r = Invocation::new("sh", &["-c", command]);
            assert(seq!["-c", command].map_values(|a: &str| a@) =~= seq!["-c"@, command@]);
            Some(r)
        },
        Platform::Other => None,
    }
}

/// Turns what running a shell command produced into the command's result.
/// A run that exited with success always gives `Ok`, whatever bytes it wrote.
pub fn shell_result(out: CommandOutput) -> (r: Result<String, String>)
    ensures
        text_result(r) == shell_outcome(out),
        out matches CommandOutput::Completed { success: true, .. } ==> r is Ok,
{
    match out {
        CommandOutput::Completed { success, stdout, stderr } => {
            if success {
                Ok(decode_utf8_lossy(&stdout))
            } else {
                let detail = decode_utf8_lossy(&stderr);
                Err(prefixed_message("Command failed: ", detail.as_str()))
            }
        },
        CommandOutput::SpawnFailed { message } => {
            Err(prefixed_message("Failed to execute command: ", message.as_str()))
        },
    }
}

/// Runs `command` through the platform's interpreter by way of `run`, which
/// spawns an invocation and waits for it. On a platform without a supported
/// interpreter nothing is run and the result is a fixed failure. Every
/// failure carries a non-empty message.
pub fn execute_shell_command<F: FnOnce(Invocation) -> CommandOutput>(
    platform: Platform,
    command: &str,
    run: F,
) -> (r: Result<String, String>)
    requires
        forall|inv: Invocation| call_requires(run, (inv,)),
    ensures
        shell_for(platform, command@) is None ==> text_result(r) == Err::<Seq<char>, Seq<char>>(
            "Shell command execution not supported on this platform"@,
        ),
        shell_for(platform, command@) matches Some(expected) ==> exists|
            inv: Invocation,
            out: CommandOutput,
        |
            inv.runs(expected.0, expected.1) && call_ensures(run, (inv,), out) && text_result(r)
                == shell_outcome(out),
        r matches Err(e) ==> e@.len() > 0,
{
    proof {
        reveal_strlit("Shell command execution not supported on this platform");
        reveal_strlit("Command failed: ");
        reveal_strlit("Failed to execute command: ");
    }
    match shell_invocation(platform, command) {
        None => Err(String::from_str("Shell command execution not supported on this platform")),
        Some(inv) => {
            let out = run(inv);
            shell_result(out)
        },
    }
}

} // verus!

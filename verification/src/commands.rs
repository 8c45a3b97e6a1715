//! Logic of the two subprocess handlers: the augmented search path handed to
//! a spawned command, and the translation of a finished process's outcome
//! into the result the frontend sees.
//!
//! Spawning itself is an operating-system call and stays outside the
//! library; these functions take what the call reported — whether it
//! succeeded, and what it printed — and decide the reply.

use vstd::prelude::*;

use crate::text::trim_spec;
use crate::text::trim_ws;

verus! {

/// The search path a spawned command runs under: the usual system
/// directories with the package-manager and per-user tool directories
/// put in front, `home` being the user's home directory.
pub fn augmented_path(home: &str) -> (r: String)
    ensures
        r@ == "/opt/homebrew/bin:/usr/local/bin:"@ + home@ + "/.cargo/bin:"@ + home@
            + "/.local/bin:/usr/bin:/bin:/usr/sbin:/sbin"@,
{
    let mut r: String = "/opt/homebrew/bin:/usr/local/bin:".to_owned();
    r.append(home);
    r.append("/.cargo/bin:");
    r.append(home);
    r.append("/.local/bin:/usr/bin:/bin:/usr/sbin:/sbin");
    r
}

/// The reply of the command-lookup handler. `found` says whether the lookup
/// tool exited successfully; `stdout` is what it printed. On success the
/// reply is the printed path with surrounding whitespace removed; otherwise
/// it is an error naming the command.
pub fn check_command_result(cmd: &str, found: bool, stdout: &str) -> (r: Result<String, String>)
    ensures
        (match r {
            Ok(path) => found && path@ == trim_spec(stdout@),
            Err(msg) => !found && msg@ == cmd@ + " not found"@,
        }),
{
    if found {
        Ok(trim_ws(stdout))
    } else {
        let mut msg: String = cmd.to_owned();
        msg.append(" not found");
        Err(msg)
    }
}

/// The reply of the command-run handler. A successful process hands its
/// standard output back unchanged; a failed one hands its standard error
/// back as the error, or a fixed message when it printed none.
pub fn run_command_result(success: bool, stdout: String, stderr: String) -> (r: Result<
    String,
    String,
>)
    ensures
        (match r {
            Ok(out) => success && out@ == stdout@,
            Err(msg) => !success && msg@ == (if stderr@.len() == 0 {
                "Command failed with no output"@
            } else {
                stderr@
            }),
        }),
{
    if success {
        Ok(stdout)
    } else if stderr.as_str().is_empty() {
        Err("Command failed with no output".to_owned())
    } else {
        Err(stderr)
    }
}

} // verus!

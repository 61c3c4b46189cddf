use vstd::prelude::*;

use crate::error::Error;

verus! {

/// The one stderr text that is treated as benign: the password prompt that
/// the remote host prints on an elevated command even when the command itself
/// succeeds.
pub open spec fn benign_prompt() -> Seq<char> {
    "[sudo] password for nvidia:"@
}

/// Whether captured stderr output counts as success: empty, or exactly the
/// whitelisted benign prompt.
pub open spec fn is_benign_stderr(err: Seq<char>) -> bool {
    err.len() == 0 || err == benign_prompt()
}

/// Decides whether the stderr captured from one command execution is benign.
pub fn stderr_is_benign(err: &String) -> (r: bool)
    ensures
        r == is_benign_stderr(err@),
{
    if err.as_str().is_empty() {
        true
    } else {
        let prompt: String = "[sudo] password for nvidia:".to_owned();
        *err == prompt
    }
}

/// Classifies one remote command execution from its captured streams: benign
/// stderr means success carrying the full stdout; anything else is a command
/// failure carrying the command text and the stderr text verbatim.
pub fn run_command_outcome(command: &String, stdout: String, stderr: &String) -> (r: Result<
    String,
    Error,
>)
    ensures
        is_benign_stderr(stderr@) ==> r == Ok::<String, Error>(stdout),
        !is_benign_stderr(stderr@) ==> (r matches Err(e) && e matches Error::SshCommandError(c, s)
            && c@ == command@ && s@ == stderr@),
{
    if stderr_is_benign(stderr) {
        Ok(stdout)
    } else {
        Err(Error::SshCommandError(command.clone(), stderr.clone()))
    }
}

/// Shapes the outcome of one upload: a completed transfer succeeds with an
/// empty payload, a failed one propagates its session failure.
pub fn upload_outcome(sent: Result<(), Error>) -> (r: Result<String, Error>)
    ensures
        sent is Ok ==> (r matches Ok(s) && s@ == Seq::<char>::empty()),
        sent matches Err(e) ==> r == Err::<String, Error>(e),
{
    match sent {
        Ok(()) => Ok(String::new()),
        Err(e) => Err(e),
    }
}

} // verus!

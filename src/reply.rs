use vstd::prelude::*;

use crate::protocol::{output_prefix, OUTPUT_PREFIX};

verus! {

/// Whether the bytes are well-formed UTF-8, as std's decoder judges them.
pub uninterp spec fn is_utf8(b: Seq<u8>) -> bool;

/// Relies on std::str::from_utf8: it succeeds exactly on well-formed UTF-8,
/// and the empty sequence is well-formed.
#[verifier::external_body]
fn utf8_valid(b: &[u8]) -> (r: bool)
    ensures
        r == is_utf8(b@),
        b@.len() == 0 ==> r,
{
    std::str::from_utf8(b).is_ok()
}

/// What a shell command left behind: its two captured streams and whether it
/// exited successfully.
#[derive(Debug)]
pub struct CommandOutput {
    pub stdout: Vec<u8>,
    pub stderr: Vec<u8>,
    pub success: bool,
}

/// The fatal conditions of the agent; a failed publish is not one of them.
#[derive(Clone, Copy, Debug, PartialEq, Eq, Structural)]
pub enum AgentError {
    /// Connecting or subscribing to the broker failed.
    Connection,
    /// The shell could not be started.
    Execution,
    /// A captured stream is not valid UTF-8.
    Encoding,
    /// Unsubscribing or disconnecting at shutdown failed.
    Teardown,
}

/// The stream that goes back to the sender: standard output on success,
/// standard error otherwise.
pub open spec fn reported_stream(stdout: Seq<u8>, stderr: Seq<u8>, success: bool) -> Seq<u8> {
    if success {
        stdout
    } else {
        stderr
    }
}

/// The reply payload for a command, given whether each of its streams decodes
/// as text.
pub open spec fn reply_of(
    stdout: Seq<u8>,
    stderr: Seq<u8>,
    success: bool,
    stdout_ok: bool,
    stderr_ok: bool,
) -> Result<Seq<u8>, AgentError> {
    if stdout_ok && stderr_ok {
        Ok(output_prefix() + reported_stream(stdout, stderr, success))
    } else {
        Err(AgentError::Encoding)
    }
}

fn append(dst: &mut Vec<u8>, src: &[u8])
    ensures
        final(dst)@ == old(dst)@ + src@,
{
    let mut i: usize = 0;
    while i < src.len()
        invariant
            0 <= i <= src.len(),
            dst@ == old(dst)@ + src@.subrange(0, i as int),
        decreases src.len() - i,
    {
        dst.push(src[i]);
        i = i + 1;
        assert(old(dst)@ + src@.subrange(0, i as int) =~= dst@);
    }
    assert(src@.subrange(0, src@.len() as int) =~= src@);
}

/// Builds the reply for a command whose streams were already checked for
/// UTF-8: `stdout_ok` and `stderr_ok` say whether each decodes.
pub fn compose_reply(out: &CommandOutput, stdout_ok: bool, stderr_ok: bool) -> (r: Result<
    Vec<u8>,
    AgentError,
>)
    ensures
        r matches Ok(p) ==> reply_of(out.stdout@, out.stderr@, out.success, stdout_ok, stderr_ok)
            == Ok::<Seq<u8>, AgentError>(p@),
        r matches Err(e) ==> reply_of(out.stdout@, out.stderr@, out.success, stdout_ok, stderr_ok)
            == Err::<Seq<u8>, AgentError>(e),
{
    if !stdout_ok || !stderr_ok {
        return Err(AgentError::Encoding);
    }
    let mut p: Vec<u8> = Vec::new();
    append(&mut p, &OUTPUT_PREFIX);
    assert(p@ =~= output_prefix());
    if out.success {
        append(&mut p, out.stdout.as_slice());
    } else {
        append(&mut p, out.stderr.as_slice());
    }
    Ok(p)
}

/// Checks both captured streams for UTF-8 and builds the reply:
/// `OUTPUT/` followed by standard output if the command succeeded, by
/// standard error otherwise.
pub fn reply_payload(out: &CommandOutput) -> (r: Result<Vec<u8>, AgentError>)
    ensures
        r matches Ok(p) ==> reply_of(
            out.stdout@,
            out.stderr@,
            out.success,
            is_utf8(out.stdout@),
            is_utf8(out.stderr@),
        ) == Ok::<Seq<u8>, AgentError>(p@),
        r matches Err(e) ==> reply_of(
            out.stdout@,
            out.stderr@,
            out.success,
            is_utf8(out.stdout@),
            is_utf8(out.stderr@),
        ) == Err::<Seq<u8>, AgentError>(e),
{
    let stdout_ok = utf8_valid(out.stdout.as_slice());
    let stderr_ok = utf8_valid(out.stderr.as_slice());
    compose_reply(out, stdout_ok, stderr_ok)
}

} // verus!

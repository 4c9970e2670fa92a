use vstd::prelude::*;

verus! {

/// Payloads that carry a command start with these bytes (`COMMAND/`).
pub const COMMAND_PREFIX: [u8; 8] = [67, 79, 77, 77, 65, 78, 68, 47];

/// Replies start with these bytes (`OUTPUT/`).
pub const OUTPUT_PREFIX: [u8; 7] = [79, 85, 84, 80, 85, 84, 47];

pub open spec fn command_prefix() -> Seq<u8> {
    seq![67u8, 79u8, 77u8, 77u8, 65u8, 78u8, 68u8, 47u8]
}

pub open spec fn output_prefix() -> Seq<u8> {
    seq![79u8, 85u8, 84u8, 80u8, 85u8, 84u8, 47u8]
}

/// `p` begins with `pre`.
pub open spec fn has_prefix(p: Seq<u8>, pre: Seq<u8>) -> bool {
    pre.len() <= p.len() && p.subrange(0, pre.len() as int) == pre
}

/// The command that a payload asks for: the text after the command prefix,
/// or nothing when the payload does not start with it.
pub open spec fn command_of(p: Seq<u8>) -> Option<Seq<u8>> {
    if has_prefix(p, command_prefix()) {
        Some(p.skip(command_prefix().len() as int))
    } else {
        None
    }
}

/// Extracts the command from an inbound payload; `None` for any payload that
/// is not a command, which the agent then ignores.
pub fn parse_command(payload: &[u8]) -> (r: Option<Vec<u8>>)
    ensures
        r matches Some(c) ==> command_of(payload@) == Some(c@),
        r is None ==> command_of(payload@) is None,
{
    let n: usize = COMMAND_PREFIX.len();
    if payload.len() < n {
        return None;
    }
    let mut i: usize = 0;
    while i < n
        invariant
            n == 8,
            n <= payload.len(),
            COMMAND_PREFIX@ == command_prefix(),
            0 <= i <= n,
            forall|j: int| 0 <= j < i ==> payload@[j] == command_prefix()[j],
        decreases n - i,
    {
        if payload[i] != COMMAND_PREFIX[i] {
            assert(payload@.subrange(0, 8)[i as int] != command_prefix()[i as int]);
            return None;
        }
        i = i + 1;
    }
    assert(payload@.subrange(0, 8) =~= command_prefix());
    let mut cmd: Vec<u8> = Vec::new();
    let mut k: usize = n;
    while k < payload.len()
        invariant
            n == 8,
            n <= k <= payload.len(),
            cmd@ =~= payload@.subrange(8, k as int),
        decreases payload.len() - k,
    {
        cmd.push(payload[k]);
        k = k + 1;
    }
    assert(cmd@ =~= payload@.skip(8));
    Some(cmd)
}

} // verus!

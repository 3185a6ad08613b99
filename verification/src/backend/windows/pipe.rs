//! The Windows side of the bridge to the agent: the client's decisions (open
//! again, wait for an instance, start the agent's task, give up), the agent's
//! check of a request's header, and the SID string that names a user's pipes.
//! The older per-user pipe name is kept too: the user name only keeps two users
//! logged in at once apart; it is no fence — the pipe's ACL is.
use vstd::prelude::*;
pub use crate::backend::pipe_proto::Reply;
use crate::backend::pipe_proto::PROTO;
use crate::text::{decimal, hex_fixed_upper, le_u32, owned, push_decimal, push_hex_fixed_upper, push_str, read_u32_le};

verus! {

/// Set in the environment of the child that the agent runs: that child must never
/// forward back into the pipe, which would loop without end.
pub const NO_FORWARD_ENV: &'static str = "TONGUE_NO_FORWARD";

/// `\\.\pipe\tongue-<user>`: the machine-wide pipe namespace, then the user.
pub open spec fn spec_user_pipe_name(user: Seq<char>) -> Seq<char> {
    "\\\\.\\pipe\\tongue-"@ + user
}

/// The pipe's name for `user` (the caller reads `USERNAME`, falling back to
/// `default`).
pub fn pipe_name(user: &str) -> (s: String)
    ensures
        s@ == spec_user_pipe_name(user@),
{
    let mut s = owned("\\\\.\\pipe\\tongue-");
    push_str(&mut s, user);
    s
}

/// Most arguments a request may carry: tongue's longest command line has a
/// handful, so anything above this is a broken or hostile client.
pub const MAX_ARGS: u32 = 32;

/// The error for a request announcing more than [`MAX_ARGS`] arguments.
pub open spec fn spec_too_many_args_msg(n: nat) -> Seq<char> {
    "quá nhiều tham số ("@ + decimal(n) + ")"@
}

/// The number of arguments announced by a request's four-byte little-endian
/// header; refused above [`MAX_ARGS`].
pub fn arg_count(head: [u8; 4]) -> (r: Result<u32, String>)
    ensures
        r is Ok <==> le_u32(head@, 0) <= MAX_ARGS,
        r matches Ok(n) ==> n as nat == le_u32(head@, 0),
        r matches Err(e) ==> e@ == spec_too_many_args_msg(le_u32(head@, 0)),
{
    let n = read_u32_le(head.as_slice(), 0);
    if n > MAX_ARGS {
        let mut m = owned("quá nhiều tham số (");
        push_decimal(&mut m, n as u64);
        push_str(&mut m, ")");
        return Err(m);
    }
    Ok(n)
}

/// How long a session-0 client waits for an agent it has just started: the
/// session hop alone takes ~400 ms before the agent starts and creates its pipe.
pub const AGENT_START_WAIT_MS: u64 = 3000;

/// Interval between two attempts while a just-started agent comes up.
pub const AGENT_RETRY_MS: u64 = 120;

/// What one attempt to reach the agent gave.
#[derive(Debug, PartialEq, Eq, Structural)]
pub enum BridgeOutcome {
    /// The agent answered with this exit code (its output is the caller's to
    /// write out).
    Reply(u8),
    /// No agent is listening.
    Absent,
    /// Several agents listen at once (in different sessions of this user).
    Several,
    /// An agent is there but the exchange failed.
    Broken,
}

/// What the forwarding client does next.
#[derive(Debug, PartialEq, Eq, Structural)]
pub enum ForwardNext {
    /// Exit with this code.
    Exit(u8),
    /// Run the configured scheduled task, then try again at once.
    StartTask,
    /// Wait this many milliseconds, then try again.
    RetryAfterMs(u64),
    /// Give up: no agent — say why session 0 cannot work, and exit 2.
    NoAgent,
}

/// The forwarding client's decision after an attempt:
/// - an answer is reproduced with its exit code;
/// - a broken bridge exits 2 — it is NOT "no agent": falling back to the local
///   path would spawn a second VKey in session 0;
/// - several agents exit 2: none is picked, since the wrong session is another
///   desktop;
/// - no agent, a task configured and not started yet: start it (the task is
///   only run, never registered);
/// - no agent after starting it: retry every [`AGENT_RETRY_MS`] until `until_ms`
///   (the start plus [`AGENT_START_WAIT_MS`]);
/// - otherwise give up.
pub open spec fn spec_forward_next(
    outcome: BridgeOutcome,
    task: Seq<char>,
    started: bool,
    now_ms: u64,
    until_ms: u64,
) -> ForwardNext {
    match outcome {
        BridgeOutcome::Reply(c) => ForwardNext::Exit(c),
        BridgeOutcome::Broken => ForwardNext::Exit(2),
        BridgeOutcome::Several => ForwardNext::Exit(2),
        BridgeOutcome::Absent => if !started && task.len() > 0 {
            ForwardNext::StartTask
        } else if started && now_ms < until_ms {
            ForwardNext::RetryAfterMs(AGENT_RETRY_MS)
        } else {
            ForwardNext::NoAgent
        },
    }
}

/// Decides the next step of forwarding a run to the agent (see
/// [`spec_forward_next`]); `started` says whether the task was already run, and
/// `now_ms`/`until_ms` are read on one clock.
pub fn forward_next(outcome: BridgeOutcome, task: &str, started: bool, now_ms: u64, until_ms: u64) -> (n:
    ForwardNext)
    ensures
        n == spec_forward_next(outcome, task@, started, now_ms, until_ms),
{
    match outcome {
        BridgeOutcome::Reply(c) => ForwardNext::Exit(c),
        BridgeOutcome::Broken => ForwardNext::Exit(2),
        BridgeOutcome::Several => ForwardNext::Exit(2),
        BridgeOutcome::Absent => {
            if !started && task.unicode_len() > 0 {
                ForwardNext::StartTask
            } else if started && now_ms < until_ms {
                ForwardNext::RetryAfterMs(AGENT_RETRY_MS)
            } else {
                ForwardNext::NoAgent
            }
        },
    }
}

/// The task is started at most once, and without a configured task none is.
pub proof fn lemma_task_started_at_most_once(outcome: BridgeOutcome, task: Seq<char>, now_ms: u64, until_ms: u64)
    ensures
        spec_forward_next(outcome, task, true, now_ms, until_ms) != ForwardNext::StartTask,
        task.len() == 0 ==> spec_forward_next(outcome, task, false, now_ms, until_ms) != ForwardNext::StartTask,
{
}

/// Why opening the agent's pipe failed.
#[derive(Debug, PartialEq, Eq, Structural)]
pub enum ConnectError {
    /// `ERROR_FILE_NOT_FOUND`: no instance — or the narrow moment right after the
    /// agent accepted another client, before its next instance exists.
    NotFound,
    /// `ERROR_PIPE_BUSY`: an agent is there, every instance is talking.
    Busy,
    /// Waiting for a free instance gave up.
    WaitFailed,
    /// Any other error.
    Other,
}

/// What the client does after a failed open.
#[derive(Debug, PartialEq, Eq, Structural)]
pub enum ConnectNext {
    /// Wait this many milliseconds and open again.
    RetryAfterMs(u64),
    /// Wait up to this many milliseconds for a free instance (`WaitNamedPipeW`),
    /// then open again.
    WaitForInstanceMs(u32),
    /// Treat it as no agent.
    Absent,
}

/// The connect decision: one retry for a missing instance (the gap after the
/// agent accepted a client; more retries would only delay the common "no agent"
/// answer), a wait for a busy agent, otherwise no agent. `retried` says whether
/// the one retry was used.
pub open spec fn spec_connect_next(err: ConnectError, retried: bool) -> ConnectNext {
    match err {
        ConnectError::NotFound => if retried {
            ConnectNext::Absent
        } else {
            ConnectNext::RetryAfterMs(60)
        },
        ConnectError::Busy => ConnectNext::WaitForInstanceMs(2000),
        _ => ConnectNext::Absent,
    }
}

/// Decides what follows a failed open (see [`spec_connect_next`]).
pub fn connect_next(err: ConnectError, retried: bool) -> (n: ConnectNext)
    ensures
        n == spec_connect_next(err, retried),
{
    match err {
        ConnectError::NotFound => if retried {
            ConnectNext::Absent
        } else {
            ConnectNext::RetryAfterMs(60)
        },
        ConnectError::Busy => ConnectNext::WaitForInstanceMs(2000),
        _ => ConnectNext::Absent,
    }
}

/// The agent's answer to a request whose protocol number is not its own.
pub open spec fn spec_proto_mismatch_msg(theirs: nat) -> Seq<char> {
    "giao thức "@ + decimal(theirs) + " không khớp với agent ("@ + decimal(PROTO as nat)
        + ") — cài cùng một bản tongue ở hai đầu"@
}

/// Reads a request's eight-byte header `[proto u32][n u32]` (little-endian): the
/// number of arguments, refused when the protocol is not [`PROTO`] or when it
/// announces more than [`MAX_ARGS`].
pub fn request_head(head: [u8; 8]) -> (r: Result<u32, String>)
    ensures
        r is Ok <==> le_u32(head@, 0) == PROTO && le_u32(head@, 4) <= MAX_ARGS,
        r matches Ok(n) ==> n as nat == le_u32(head@, 4),
        r matches Err(e) ==> e@ == (if le_u32(head@, 0) != PROTO {
            spec_proto_mismatch_msg(le_u32(head@, 0))
        } else {
            spec_too_many_args_msg(le_u32(head@, 4))
        }),
{
    let theirs = read_u32_le(head.as_slice(), 0);
    if theirs != PROTO {
        let mut m = owned("giao thức ");
        push_decimal(&mut m, theirs as u64);
        push_str(&mut m, " không khớp với agent (");
        push_decimal(&mut m, PROTO as u64);
        push_str(&mut m, ") — cài cùng một bản tongue ở hai đầu");
        return Err(m);
    }
    let n = read_u32_le(head.as_slice(), 4);
    if n > MAX_ARGS {
        let mut m = owned("quá nhiều tham số (");
        push_decimal(&mut m, n as u64);
        push_str(&mut m, ")");
        return Err(m);
    }
    Ok(n)
}

/// A SID as `S-1-<authority>-<sub>…`: the authority in decimal when it fits in
/// 32 bits, otherwise as `0x` and twelve upper-case hex digits; each
/// sub-authority in decimal.
pub open spec fn spec_sid_string(authority: nat, subs: Seq<u32>) -> Seq<char>
    decreases subs.len(),
{
    if subs.len() == 0 {
        "S-1-"@ + (if authority < 0x1_0000_0000 {
            decimal(authority)
        } else {
            "0x"@ + hex_fixed_upper(authority, 12)
        })
    } else {
        spec_sid_string(authority, subs.drop_last()) + "-"@ + decimal(subs.last() as nat)
    }
}

/// The string form of the caller's SID, which names its pipes, from the SID's
/// 48-bit identifier authority and its sub-authorities.
pub fn sid_string(authority: u64, subs: &[u32]) -> (s: String)
    ensures
        s@ == spec_sid_string(authority as nat, subs@),
{
    let mut s = owned("S-1-");
    if authority < 0x1_0000_0000 {
        push_decimal(&mut s, authority);
    } else {
        push_str(&mut s, "0x");
        push_hex_fixed_upper(&mut s, authority, 12);
    }
    let mut i: usize = 0;
    while i < subs.len()
        invariant
            i <= subs@.len(),
            s@ == spec_sid_string(authority as nat, subs@.subrange(0, i as int)),
        decreases subs.len() - i,
    {
        let ghost pre = subs@.subrange(0, i + 1);
        assert(pre.drop_last() =~= subs@.subrange(0, i as int));
        push_str(&mut s, "-");
        push_decimal(&mut s, subs[i] as u64);
        i = i + 1;
    }
    assert(subs@.subrange(0, subs@.len() as int) =~= subs@);
    s
}

} // verus!

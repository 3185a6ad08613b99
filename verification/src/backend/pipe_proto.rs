//! The pure part of the named-pipe bridge: pipe names, message framing, and the
//! list of commands that may be forwarded. It lives outside the Windows backend
//! because it is the only piece of the session-0 path that can be checked on
//! every platform.
//!
//! Framing: a chunk is `<u32 little-endian length><bytes>`; a request is
//! `[proto u32][n u32][chunk arg]*n`; a reply is `[proto u32][code u8][chunk
//! stdout][chunk stderr]`. The reply's shape never changes, even when `PROTO`
//! does, so a client of another version can still read a "version mismatch"
//! answer instead of a bare broken connection.
use vstd::prelude::*;
use vstd::utf8::encode_utf8;
use crate::doctor::{seq_join, views};
use crate::text::{chars_of, dec_value, decimal, lemma_decimal_reads_back, is_prefix, le_bytes_u32, le_u32, owned, parse_u32_from, push_decimal, push_str, push_u32_le, spec_parse_u32, str_eq};

verus! {

/// Protocol number, separate from the crate version: bumped only when the
/// framing changes.
pub const PROTO: u32 = 1;

/// Largest chunk accepted (1 MiB): a broken client must not drive the agent into
/// a huge allocation.
pub const MAX_CHUNK: u32 = 1048576;

/// Commands that may travel over the pipe. `agent` is deliberately absent (it
/// IS the other end; forwarding it would recurse without end), and so are
/// `--version`/`--help`, which must describe the binary that was invoked.
pub const FORWARDABLE: [&'static str; 5] = ["vi", "en", "zh", "status", "doctor"];

/// One exchange over the bridge: the exit code travels with both output streams
/// so that a caller through SSH sees exactly what a local run would show.
pub struct Reply {
    pub code: u8,
    pub stdout: Vec<u8>,
    pub stderr: Vec<u8>,
}

/// Why a chunk header was refused.
#[derive(Debug, PartialEq, Eq, Structural)]
pub enum ChunkError {
    /// The announced length exceeds [`MAX_CHUNK`].
    TooLong(u32),
}

impl ChunkError {
    /// The message shown for this error.
    pub open spec fn spec_message(self) -> Seq<char> {
        match self {
            ChunkError::TooLong(n) => "khung dài bất thường ("@ + decimal(n as nat) + " byte)"@,
        }
    }

    /// The message shown for this error.
    pub fn message(&self) -> (s: String)
        ensures
            s@ == self.spec_message(),
    {
        match self {
            ChunkError::TooLong(n) => {
                let mut s = owned("khung dài bất thường (");
                push_decimal(&mut s, *n as u64);
                push_str(&mut s, " byte)");
                s
            },
        }
    }
}

/// `tongue.<sid>.`: the prefix shared by every agent pipe of one user.
pub open spec fn spec_pipe_prefix(sid: Seq<char>) -> Seq<char> {
    "tongue."@ + sid + "."@
}

/// `\\.\pipe\tongue.<sid>.<session>`: the machine-wide pipe namespace, the
/// user's SID, and the session id.
pub open spec fn spec_pipe_name(sid: Seq<char>, session: nat) -> Seq<char> {
    "\\\\.\\pipe\\"@ + spec_pipe_prefix(sid) + decimal(session)
}

/// The session id in a bare pipe entry (the part after `\\.\pipe\`): the entry
/// must start with the user's prefix and the rest must read as a `u32`.
pub open spec fn spec_session_of(entry: Seq<char>, sid: Seq<char>) -> Option<nat> {
    let p = spec_pipe_prefix(sid);
    if is_prefix(p, entry) {
        spec_parse_u32(entry.subrange(p.len() as int, entry.len() as int))
    } else {
        None
    }
}

/// The pipe's name. `\\.\pipe\` is machine-wide — the whole reason the bridge
/// exists; the SID separates users and the session id separates two sessions of
/// the same user. The name is not the security fence; the ACL is.
pub fn pipe_name(sid: &str, session: u32) -> (s: String)
    ensures
        s@ == spec_pipe_name(sid@, session as nat),
{
    let mut s = owned("\\\\.\\pipe\\");
    let p = pipe_prefix(sid);
    push_str(&mut s, p.as_str());
    push_decimal(&mut s, session as u64);
    s
}

/// Prefix used to enumerate every agent of the same user.
pub fn pipe_prefix(sid: &str) -> (s: String)
    ensures
        s@ == spec_pipe_prefix(sid@),
{
    let mut s = owned("tongue.");
    push_str(&mut s, sid);
    push_str(&mut s, ".");
    s
}

/// Reading a pipe's name back gives its session: the bare entry of
/// `pipe_name(sid, session)` (the part after `\\.\pipe\`) yields `session`
/// for the same user, and `None` for no session id at all.
pub proof fn lemma_session_round_trip(sid: Seq<char>, session: u32)
    ensures
        spec_session_of(spec_pipe_prefix(sid) + decimal(session as nat), sid) == Some(session as nat),
        spec_pipe_name(sid, session as nat) == "\\\\.\\pipe\\"@ + (spec_pipe_prefix(sid) + decimal(session as nat)),
{
    let p = spec_pipe_prefix(sid);
    let d = decimal(session as nat);
    let e = p + d;
    lemma_decimal_reads_back(session as nat);
    assert(e.subrange(0, p.len() as int) =~= p);
    assert(e.subrange(p.len() as int, e.len() as int) =~= d);
    assert(dec_value(d[0]) is Some);
    assert(d[0] != '+');
}

/// Two sessions of one user never share a pipe: the session id is part of the
/// name because the pipe namespace is not split by session.
pub proof fn lemma_sessions_get_distinct_pipes(sid: Seq<char>, a: u32, b: u32)
    requires
        a != b,
    ensures
        spec_pipe_name(sid, a as nat) != spec_pipe_name(sid, b as nat),
{
    lemma_session_round_trip(sid, a);
    lemma_session_round_trip(sid, b);
    let x = "\\\\.\\pipe\\"@;
    let ea = spec_pipe_prefix(sid) + decimal(a as nat);
    let eb = spec_pipe_prefix(sid) + decimal(b as nat);
    if spec_pipe_name(sid, a as nat) == spec_pipe_name(sid, b as nat) {
        assert((x + ea).subrange(x.len() as int, (x + ea).len() as int) =~= ea);
        assert((x + eb).subrange(x.len() as int, (x + eb).len() as int) =~= eb);
        assert(ea == eb);
    }
}

/// Session id of a bare pipe entry of this user; `None` for an entry of another
/// user or with a suffix that is not a number.
pub fn session_of(entry: &str, sid: &str) -> (r: Option<u32>)
    ensures
        r matches Some(n) ==> spec_session_of(entry@, sid@) == Some(n as nat),
        r is None ==> spec_session_of(entry@, sid@) is None,
{
    let p = pipe_prefix(sid);
    let pc = chars_of(p.as_str());
    let ec = chars_of(entry);
    if pc.len() > ec.len() {
        return None;
    }
    let mut i: usize = 0;
    while i < pc.len()
        invariant
            pc@ == spec_pipe_prefix(sid@),
            ec@ == entry@,
            pc.len() <= ec.len(),
            i <= pc.len(),
            forall|j: int| 0 <= j < i ==> pc@[j] == ec@[j],
        decreases pc.len() - i,
    {
        if pc[i] != ec[i] {
            proof {
                assert(ec@.subrange(0, pc@.len() as int)[i as int] != pc@[i as int]);
            }
            return None;
        }
        i = i + 1;
    }
    assert(ec@.subrange(0, pc@.len() as int) =~= pc@);
    parse_u32_from(&ec, pc.len())
}

/// Whether `args` may be forwarded: its first element must be one of
/// [`FORWARDABLE`].
pub open spec fn spec_forwardable(args: Seq<String>) -> bool {
    args.len() > 0 && {
        let a = args[0]@;
        a == "vi"@ || a == "en"@ || a == "zh"@ || a == "status"@ || a == "doctor"@
    }
}

/// Whether the command line `args` (without the program name) may go over the
/// wire: argv travels verbatim, but its first word must be a known subcommand.
pub fn forwardable(args: &[String]) -> (r: bool)
    ensures
        r == spec_forwardable(args@),
{
    if args.len() == 0 {
        return false;
    }
    let a = args[0].as_str();
    str_eq(a, "vi") || str_eq(a, "en") || str_eq(a, "zh") || str_eq(a, "status") || str_eq(
        a,
        "doctor",
    )
}

/// Whether a run is handed to the agent: only from session 0 (the local path
/// never goes through the pipe, so it keeps no single point of failure), never
/// when the run is itself the agent's child (`TONGUE_NO_FORWARD` is set — the
/// second guard against an endless loop), and only for a forwardable command.
pub fn should_forward(no_forward_set: bool, in_service_session: bool, args: &[String]) -> (r: bool)
    ensures
        r == (!no_forward_set && in_service_session && spec_forwardable(args@)),
{
    !no_forward_set && in_service_session && forwardable(args)
}

/// One chunk: the length as a little-endian `u32`, then the bytes. A length
/// beyond `u32` wraps, as `as u32` does.
pub open spec fn spec_chunk(b: Seq<u8>) -> Seq<u8> {
    le_bytes_u32(b.len() % 0x1_0000_0000) + b
}

/// Appends one chunk for `b` to `out`.
pub fn put_chunk(out: &mut Vec<u8>, b: &[u8])
    ensures
        final(out)@ == old(out)@ + spec_chunk(b@),
{
    let n = b.len();
    let len32 = ((n as u64) % 0x1_0000_0000) as u32;
    push_u32_le(out, len32);
    let ghost mid = out@;
    let mut i: usize = 0;
    while i < b.len()
        invariant
            i <= b@.len(),
            out@ == mid + b@.subrange(0, i as int),
        decreases b.len() - i,
    {
        out.push(b[i]);
        i = i + 1;
        assert(out@ =~= mid + b@.subrange(0, i as int));
    }
    assert(b@.subrange(0, b@.len() as int) =~= b@);
    assert(final(out)@ =~= old(out)@ + spec_chunk(b@));
}

/// What [`chunk_len`] answers for a header.
pub open spec fn spec_chunk_len(head: Seq<u8>) -> Result<nat, ChunkError> {
    if le_u32(head, 0) > MAX_CHUNK {
        Err(ChunkError::TooLong(le_u32(head, 0) as u32))
    } else {
        Ok(le_u32(head, 0))
    }
}

/// The payload length announced by a chunk header; refused above [`MAX_CHUNK`].
pub fn chunk_len(head: [u8; 4]) -> (r: Result<usize, ChunkError>)
    ensures
        r matches Ok(n) ==> spec_chunk_len(head@) == Ok::<nat, ChunkError>(n as nat),
        r matches Err(e) ==> spec_chunk_len(head@) == Err::<nat, ChunkError>(e),
{
    let n = crate::text::read_u32_le(head.as_slice(), 0);
    if n > MAX_CHUNK {
        return Err(ChunkError::TooLong(n));
    }
    Ok(n as usize)
}

/// The bytes of a sequence of chunks, one per element of `items`.
pub open spec fn spec_chunks(items: Seq<Seq<u8>>) -> Seq<u8>
    decreases items.len(),
{
    if items.len() == 0 {
        Seq::empty()
    } else {
        spec_chunks(items.drop_last()) + spec_chunk(items.last())
    }
}

/// The UTF-8 bytes of each argument.
pub open spec fn arg_bytes(args: Seq<String>) -> Seq<Seq<u8>> {
    Seq::new(args.len(), |i: int| encode_utf8(args[i]@))
}

/// A request: protocol number, argument count (wrapping as `as u32` does), then
/// one chunk per argument.
pub open spec fn spec_request(args: Seq<String>) -> Seq<u8> {
    le_bytes_u32(PROTO as nat) + le_bytes_u32(args.len() % 0x1_0000_0000) + spec_chunks(
        arg_bytes(args),
    )
}

/// A reply: protocol number, exit code, then the stdout chunk and the stderr chunk.
pub open spec fn spec_reply(code: u8, stdout: Seq<u8>, stderr: Seq<u8>) -> Seq<u8> {
    le_bytes_u32(PROTO as nat) + seq![code] + spec_chunk(stdout) + spec_chunk(stderr)
}

/// Request `[proto u32][n u32][chunk arg]*n`.
pub fn encode_request(args: &[String]) -> (out: Vec<u8>)
    ensures
        out@ == spec_request(args@),
{
    let mut out: Vec<u8> = Vec::new();
    push_u32_le(&mut out, PROTO);
    let n = args.len();
    push_u32_le(&mut out, ((n as u64) % 0x1_0000_0000) as u32);
    let ghost head = out@;
    let mut i: usize = 0;
    while i < args.len()
        invariant
            i <= args@.len(),
            out@ == head + spec_chunks(arg_bytes(args@).subrange(0, i as int)),
        decreases args.len() - i,
    {
        let b = args[i].as_str().as_bytes();
        put_chunk(&mut out, b);
        let ghost items = arg_bytes(args@).subrange(0, i + 1);
        assert(items.drop_last() =~= arg_bytes(args@).subrange(0, i as int));
        assert(items.last() == encode_utf8(args@[i as int]@));
        i = i + 1;
        assert(out@ =~= head + spec_chunks(arg_bytes(args@).subrange(0, i as int)));
    }
    assert(arg_bytes(args@).subrange(0, args@.len() as int) =~= arg_bytes(args@));
    assert(out@ =~= spec_request(args@));
    out
}

/// Reply `[proto u32][code u8][chunk stdout][chunk stderr]`.
pub fn encode_reply(code: u8, stdout: &[u8], stderr: &[u8]) -> (out: Vec<u8>)
    ensures
        out@ == spec_reply(code, stdout@, stderr@),
{
    let mut out: Vec<u8> = Vec::new();
    push_u32_le(&mut out, PROTO);
    out.push(code);
    put_chunk(&mut out, stdout);
    put_chunk(&mut out, stderr);
    assert(out@ =~= spec_reply(code, stdout@, stderr@));
    out
}

/// A chunk reads back intact: its header, wherever it stands in a buffer, is
/// accepted and announces exactly the payload's length when the payload fits in
/// [`MAX_CHUNK`], and the payload follows the header unchanged.
pub proof fn lemma_chunk_round_trip(pre: Seq<u8>, b: Seq<u8>)
    requires
        b.len() <= MAX_CHUNK,
    ensures
        ({
            let buf = pre + spec_chunk(b);
            let n = pre.len() as int;
            &&& spec_chunk_len(buf.subrange(n, n + 4)) == Ok::<nat, ChunkError>(b.len())
            &&& buf.subrange(n + 4, n + 4 + b.len()) == b
            &&& buf.len() == n + 4 + b.len()
        }),
{
    let len = b.len() % 0x1_0000_0000;
    assert(len == b.len());
    let buf = pre + spec_chunk(b);
    let n = pre.len() as int;
    crate::text::lemma_le_u32_round_trip(len as u32, pre);
    assert(buf.subrange(n, n + 4) =~= le_bytes_u32(len));
    assert((pre + le_bytes_u32(len))[n] == buf.subrange(n, n + 4)[0]);
    assert((pre + le_bytes_u32(len))[n + 1] == buf.subrange(n, n + 4)[1]);
    assert((pre + le_bytes_u32(len))[n + 2] == buf.subrange(n, n + 4)[2]);
    assert((pre + le_bytes_u32(len))[n + 3] == buf.subrange(n, n + 4)[3]);
    assert(le_u32(buf.subrange(n, n + 4), 0) == le_u32(pre + le_bytes_u32(len), n));
    assert(buf.subrange(n + 4, n + 4 + b.len()) =~= b);
}

/// A header announcing more than [`MAX_CHUNK`] bytes is always refused.
pub proof fn lemma_chunk_len_refuses_oversize(head: Seq<u8>)
    requires
        head.len() == 4,
        le_u32(head, 0) > MAX_CHUNK,
    ensures
        spec_chunk_len(head) is Err,
{
}

/// Every reply, whatever the protocol version and payloads, starts with the
/// protocol number and then the exit code — the shape a client of any version
/// can read.
pub proof fn lemma_reply_starts_with_proto_then_code(code: u8, stdout: Seq<u8>, stderr: Seq<u8>)
    ensures
        ({
            let r = spec_reply(code, stdout, stderr);
            &&& le_u32(r, 0) == PROTO
            &&& r[4] == code
        }),
{
    let r = spec_reply(code, stdout, stderr);
    crate::text::lemma_le_u32_round_trip(PROTO, Seq::empty());
    let h = Seq::<u8>::empty() + le_bytes_u32(PROTO as nat);
    assert(h =~= le_bytes_u32(PROTO as nat));
    assert(r[0] == h[0] && r[1] == h[1] && r[2] == h[2] && r[3] == h[3]);
}

/// Every request starts with the protocol number and then the argument count.
pub proof fn lemma_request_header(args: Seq<String>)
    requires
        args.len() < 0x1_0000_0000,
    ensures
        ({
            let r = spec_request(args);
            &&& le_u32(r, 0) == PROTO
            &&& le_u32(r, 4) == args.len()
        }),
{
    let r = spec_request(args);
    let n = args.len() % 0x1_0000_0000;
    assert(n == args.len());
    crate::text::lemma_le_u32_round_trip(PROTO, Seq::empty());
    crate::text::lemma_le_u32_round_trip(n as u32, le_bytes_u32(PROTO as nat));
    let h = Seq::<u8>::empty() + le_bytes_u32(PROTO as nat);
    assert(h =~= le_bytes_u32(PROTO as nat));
    assert(r[0] == h[0] && r[1] == h[1] && r[2] == h[2] && r[3] == h[3]);
    let h2 = le_bytes_u32(PROTO as nat) + le_bytes_u32(n);
    assert(r[4] == h2[4] && r[5] == h2[5] && r[6] == h2[6] && r[7] == h2[7]);
}

/// `agent` never travels over the wire, nor do the global flags, whatever
/// follows them.
pub proof fn lemma_agent_and_global_flags_never_forwarded(args: Seq<String>)
    requires
        args.len() > 0,
        args[0]@ == "agent"@ || args[0]@ == "--version"@ || args[0]@ == "-V"@ || args[0]@
            == "--help"@ || args[0]@ == "-h"@,
    ensures
        !spec_forwardable(args),
{
    reveal_strlit("agent");
    reveal_strlit("--version");
    reveal_strlit("-V");
    reveal_strlit("--help");
    reveal_strlit("-h");
    reveal_strlit("vi");
    reveal_strlit("en");
    reveal_strlit("zh");
    reveal_strlit("status");
    reveal_strlit("doctor");
    let a = args[0]@;
    assert(a.len() == 5 || a.len() == 9 || a.len() == 2 || a.len() == 6);
    assert(a[0] == 'a' || a[0] == '-');
    assert("vi"@[0] == 'v' && "en"@[0] == 'e' && "zh"@[0] == 'z');
    assert("status"@[0] == 's' && "doctor"@[0] == 'd');
    if a == "vi"@ || a == "en"@ || a == "zh"@ || a == "status"@ || a == "doctor"@ {
        assert(a[0] != 'a' && a[0] != '-');
    }
}

/// The sessions of this user's agents among the bare pipe entries, in listing
/// order: each entry that [`spec_session_of`] reads as a session of `sid`.
pub open spec fn spec_agent_sessions(entries: Seq<Seq<char>>, sid: Seq<char>) -> Seq<nat>
    decreases entries.len(),
{
    if entries.len() == 0 {
        Seq::empty()
    } else {
        spec_agent_sessions(entries.drop_last(), sid) + match spec_session_of(entries.last(), sid) {
            Some(n) => seq![n],
            None => Seq::empty(),
        }
    }
}

/// The sessions of `v` as numbers.
pub open spec fn session_nats(v: Seq<u32>) -> Seq<nat> {
    v.map_values(|x: u32| x as nat)
}

/// The sessions in which this user has an agent listening, in listing order.
/// `entries` are the bare names under `\\.\pipe\`.
pub fn agent_sessions(entries: &[String], sid: &str) -> (v: Vec<u32>)
    ensures
        session_nats(v@) == spec_agent_sessions(views(entries@), sid@),
{
    let mut v: Vec<u32> = Vec::new();
    let mut i: usize = 0;
    while i < entries.len()
        invariant
            i <= entries@.len(),
            session_nats(v@) == spec_agent_sessions(views(entries@).subrange(0, i as int), sid@),
        decreases entries.len() - i,
    {
        let ghost pre = views(entries@).subrange(0, i + 1);
        assert(pre.drop_last() =~= views(entries@).subrange(0, i as int));
        assert(pre.last() == entries@[i as int]@);
        let ghost before = session_nats(v@);
        match session_of(entries[i].as_str(), sid) {
            Some(n) => {
                v.push(n);
                assert(session_nats(v@) =~= before + seq![n as nat]);
            },
            None => {
                assert(session_nats(v@) =~= before + Seq::<nat>::empty());
            },
        }
        i = i + 1;
    }
    assert(views(entries@).subrange(0, entries@.len() as int) =~= views(entries@));
    v
}

/// Which agent a session-0 client may talk to.
#[derive(Debug, PartialEq, Eq)]
pub enum AgentSearch {
    /// None of this user's agents is listening.
    Absent,
    /// Exactly one, in this session.
    One(u32),
    /// Several at once, in these sessions: none is chosen, since driving the wrong
    /// session means switching the input method of another desktop.
    Several(Vec<u32>),
}

/// Finds this user's agent among the bare pipe entries (see
/// [`spec_agent_sessions`]): none, exactly one, or several — and then none is
/// picked.
pub fn find_agent(entries: &[String], sid: &str) -> (r: AgentSearch)
    ensures
        spec_agent_sessions(views(entries@), sid@).len() == 0 <==> r is Absent,
        r matches AgentSearch::One(n) ==> spec_agent_sessions(views(entries@), sid@) == seq![n as nat],
        r matches AgentSearch::Several(v) ==> session_nats(v@) == spec_agent_sessions(views(entries@), sid@)
            && v@.len() > 1,
        spec_agent_sessions(views(entries@), sid@).len() == 1 ==> r is One,
{
    let v = agent_sessions(entries, sid);
    if v.len() == 0 {
        AgentSearch::Absent
    } else if v.len() == 1 {
        let n = v[0];
        assert(session_nats(v@) =~= seq![n as nat]);
        AgentSearch::One(n)
    } else {
        AgentSearch::Several(v)
    }
}

/// The refusal when several agents listen, naming their sessions as `{:?}`
/// prints a list of numbers.
pub open spec fn spec_several_agents_msg(sessions: Seq<nat>) -> Seq<char> {
    "có nhiều agent cùng lúc (session ["@ + seq_join(sessions.map_values(|n: nat| decimal(n)), ", "@)
        + "]) — KHÔNG tự chọn, vì lái nhầm session nghĩa là đổi bộ gõ của một desktop khác. Dừng bớt đi."@
}

/// The refusal when several agents listen at once.
pub fn several_agents_msg(sessions: &[u32]) -> (s: String)
    ensures
        s@ == spec_several_agents_msg(session_nats(sessions@)),
{
    let ghost ds = session_nats(sessions@).map_values(|n: nat| decimal(n));
    let mut list = String::new();
    let mut i: usize = 0;
    while i < sessions.len()
        invariant
            i <= sessions@.len(),
            ds == session_nats(sessions@).map_values(|n: nat| decimal(n)),
            list@ == seq_join(ds.subrange(0, i as int), ", "@),
        decreases sessions.len() - i,
    {
        let ghost pre = ds.subrange(0, i + 1);
        assert(pre.drop_last() =~= ds.subrange(0, i as int));
        assert(pre.last() == decimal(sessions@[i as int] as nat));
        if i > 0 {
            push_str(&mut list, ", ");
        }
        push_decimal(&mut list, sessions[i] as u64);
        i = i + 1;
    }
    assert(ds.subrange(0, sessions@.len() as int) =~= ds);
    let mut s = owned("có nhiều agent cùng lúc (session [");
    push_str(&mut s, list.as_str());
    push_str(
        &mut s,
        "]) — KHÔNG tự chọn, vì lái nhầm session nghĩa là đổi bộ gõ của một desktop khác. Dừng bớt đi.",
    );
    s
}

} // verus!

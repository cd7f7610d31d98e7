//! Forwarding an invocation to `git`: what is kept of git's stderr
//! while it streams through, and which exit code marshal reports.
//! Spawning git and moving the bytes is the front end's part.
use vstd::prelude::*;

verus! {

/// At most this many bytes of git's stderr are retained for the
/// error hints; everything beyond is still forwarded live.
pub const STDERR_CAPTURE_CAP: usize = 262144;

/// The buffer after one more chunk: the chunk's head, up to what the
/// cap leaves room for.
pub open spec fn retain_spec(buf: Seq<u8>, chunk: Seq<u8>) -> Seq<u8> {
    if buf.len() < STDERR_CAPTURE_CAP {
        let room = STDERR_CAPTURE_CAP - buf.len();
        buf + chunk.take(if chunk.len() < room { chunk.len() as int } else { room as int })
    } else {
        buf
    }
}

/// What is retained of a stream read in these chunks.
pub open spec fn retained(chunks: Seq<Seq<u8>>) -> Seq<u8>
    decreases chunks.len(),
{
    if chunks.len() == 0 {
        Seq::empty()
    } else {
        retain_spec(retained(chunks.drop_last()), chunks.last())
    }
}

/// The stream itself: the chunks one after the other.
pub open spec fn joined(chunks: Seq<Seq<u8>>) -> Seq<u8>
    decreases chunks.len(),
{
    if chunks.len() == 0 {
        Seq::empty()
    } else {
        joined(chunks.drop_last()) + chunks.last()
    }
}

/// Keep the head of `chunk` in `buffer`, up to the capture cap.
pub fn retain_chunk(buffer: &mut Vec<u8>, chunk: &[u8])
    ensures
        final(buffer)@ == retain_spec(old(buffer)@, chunk@),
{
    if buffer.len() >= STDERR_CAPTURE_CAP {
        return;
    }
    let room = STDERR_CAPTURE_CAP - buffer.len();
    let take = if chunk.len() < room { chunk.len() } else { room };
    let ghost start = buffer@;
    let mut i: usize = 0;
    while i < take
        invariant
            take <= chunk@.len(),
            i <= take,
            buffer@ == start + chunk@.take(i as int),
        decreases take - i,
    {
        buffer.push(chunk[i]);
        assert(chunk@.take(i + 1) =~= chunk@.take(i as int).push(chunk@[i as int]));
        i += 1;
    }
}

/// Reading a stream chunk by chunk retains exactly its head: the
/// first bytes of the whole stream, as many as the cap allows.
pub proof fn law_retained_is_the_head(chunks: Seq<Seq<u8>>)
    ensures
        retained(chunks) == joined(chunks).take(
            if joined(chunks).len() < STDERR_CAPTURE_CAP { joined(chunks).len() as int } else { STDERR_CAPTURE_CAP as int }),
    decreases chunks.len(),
{
    if chunks.len() == 0 {
        assert(joined(chunks).take(0) =~= Seq::<u8>::empty());
    } else {
        let prev = chunks.drop_last();
        let c = chunks.last();
        law_retained_is_the_head(prev);
        let j = joined(prev);
        let b = retained(prev);
        let cap = STDERR_CAPTURE_CAP as int;
        if b.len() < cap {
            assert(j.len() < cap);
            assert(b =~= j);
            let room = cap - j.len();
            let t = if c.len() < room { c.len() as int } else { room };
            assert(j + c.take(t) =~= (j + c).take(j.len() + t));
        } else {
            assert(j.len() >= cap);
            assert(j.take(cap) =~= (j + c).take(cap));
        }
    }
}

/// `code` clamped into an exit status byte.
pub open spec fn clamp_spec(code: int) -> int {
    if code < 0 { 0 } else if code > 255 { 255 } else { code }
}

/// Clamp a raw exit code into `0..=255`.
pub fn clamp_u8(code: i32) -> (r: u8)
    ensures
        r as int == clamp_spec(code as int),
{
    if code < 0 {
        0
    } else if code > 255 {
        255
    } else {
        code as u8
    }
}

/// Marshal's exit status for a finished git: git's own code, or, for
/// a death by signal N, the shell convention `128 + N`; 1 when the
/// status carries neither.
pub open spec fn exit_status_spec(code: Option<i32>, signal: Option<i32>) -> int {
    match code {
        Some(c) => clamp_spec(c as int),
        None => match signal {
            Some(s) => clamp_spec(if 128 + s > i32::MAX { i32::MAX as int } else { 128 + s }),
            None => 1,
        },
    }
}

pub fn exit_status(code: Option<i32>, signal: Option<i32>) -> (r: u8)
    ensures
        r as int == exit_status_spec(code, signal),
{
    match code {
        Some(c) => clamp_u8(c),
        None => match signal {
            Some(s) => {
                let shifted: i32 = if s > i32::MAX - 128 { i32::MAX } else { 128 + s };
                clamp_u8(shifted)
            },
            None => 1,
        },
    }
}

/// The exit status when git could not be launched: the shell's
/// "command not found".
pub const GIT_NOT_FOUND_STATUS: u8 = 127;

} // verus!

//! Line framing and deadline bookkeeping for the component pipes: one message
//! per line, written and read under a per-operation deadline. The descriptors,
//! polling and sleeping belong to the caller, which reports what happened.
use vstd::prelude::*;
use vstd::string::StringExecFns;
use vstd::utf8::{decode_utf8, valid_utf8};

use crate::error::{WorkerError, WorkerErrorKind};

verus! {

/// Budget for opening both ends of a pipe, in milliseconds.
pub const PIPE_CREATION_TIMEOUT_MS: u64 = 10000;

/// Budget for one read or one write, in milliseconds.
pub const PIPE_IO_TIMEOUT_MS: u64 = 10000;

/// Pause between two attempts to open a pipe end or to read again, in milliseconds.
pub const PIPE_POLL_INTERVAL_MS: u64 = 3;

/// How much is read from the component at a time.
pub const BUF_SIZE: usize = 512;

pub const NEWLINE: u8 = 10;

pub open spec fn has_newline(s: Seq<u8>) -> bool {
    exists|i: int| 0 <= i < s.len() && s[i] == NEWLINE
}

/// The line that carries message `m`.
pub open spec fn framed(m: Seq<u8>) -> Seq<u8> {
    m.push(NEWLINE)
}

/// A deadline `budget` milliseconds after `now`, saturating at the clock's end.
pub open spec fn deadline_after(now: u64, budget: u64) -> u64 {
    if now as int + budget as int > u64::MAX as int {
        u64::MAX
    } else {
        (now + budget) as u64
    }
}

pub fn deadline_from(now_ms: u64, budget_ms: u64) -> (r: u64)
    ensures
        r == deadline_after(now_ms, budget_ms),
{
    now_ms.saturating_add(budget_ms)
}

/// What the caller does next while opening the two ends of a pipe.
#[derive(Clone, Copy, Debug, PartialEq, Eq, Structural)]
pub enum OpenStep {
    /// Try to open the output (read) end, then pause.
    TryOutput,
    /// Try to open the input (write) end, then pause.
    TryInput,
    /// Both ends are open.
    Ready,
    /// The deadline passed with an end still closed.
    TimedOut,
}

/// Opening goes output end first, then input end, each retried until the
/// deadline of the creation budget.
pub fn open_step(output_open: bool, input_open: bool, now_ms: u64, deadline_ms: u64) -> (r: OpenStep)
    ensures
        output_open && input_open <==> r == OpenStep::Ready,
        r == OpenStep::TryOutput <==> !output_open && now_ms < deadline_ms,
        r == OpenStep::TryInput <==> output_open && !input_open && now_ms < deadline_ms,
        r == OpenStep::TimedOut <==> !(output_open && input_open) && now_ms >= deadline_ms,
{
    if output_open && input_open {
        OpenStep::Ready
    } else if now_ms >= deadline_ms {
        OpenStep::TimedOut
    } else if !output_open {
        OpenStep::TryOutput
    } else {
        OpenStep::TryInput
    }
}

/// The error for a pipe whose ends could not be opened in time.
pub fn open_timeout() -> (r: WorkerError)
    ensures
        r.kind matches WorkerErrorKind::OperationTimedOut(what) && what@ == "fifo pipe opening"@,
{
    WorkerError::new(WorkerErrorKind::OperationTimedOut(String::from_str("fifo pipe opening")))
}

/// Turns a message into the line that carries it. A message holding a newline
/// cannot be framed and is rejected with `InvalidSerialization`.
pub fn frame_message(m: &Vec<u8>) -> (r: Result<Vec<u8>, WorkerError>)
    ensures
        has_newline(m@) <==> r is Err,
        r is Ok ==> r->Ok_0@ == framed(m@),
        r matches Err(e) ==> (e.kind matches WorkerErrorKind::InvalidSerialization(reason, bytes) && reason@
            == "contains newline"@ && bytes@ == m@),
{
    let mut i: usize = 0;
    while i < m.len()
        invariant
            i <= m@.len(),
            forall|k: int| 0 <= k < i ==> m@[k] != NEWLINE,
        decreases m@.len() - i,
    {
        if m[i] == NEWLINE {
            return Err(
                WorkerError::new(
                    WorkerErrorKind::InvalidSerialization(String::from_str("contains newline"), m.clone()),
                ),
            );
        }
        i = i + 1;
    }
    let mut line = m.clone();
    line.push(NEWLINE);
    Ok(line)
}

/// Where the first newline of `c` stands, or `c.len()` if it holds none.
pub open spec fn newline_at(c: Seq<u8>) -> int
    decreases c.len(),
{
    if c.len() == 0 {
        0
    } else if c[0] == NEWLINE {
        0
    } else {
        1 + newline_at(c.drop_first())
    }
}

pub proof fn lemma_newline_at(c: Seq<u8>)
    ensures
        0 <= newline_at(c) <= c.len(),
        forall|j: int| 0 <= j < newline_at(c) ==> c[j] != NEWLINE,
        newline_at(c) < c.len() ==> c[newline_at(c)] == NEWLINE,
        newline_at(c) == c.len() <==> !has_newline(c),
    decreases c.len(),
{
    if c.len() > 0 && c[0] != NEWLINE {
        let rest = c.drop_first();
        lemma_newline_at(rest);
        assert forall|j: int| 0 <= j < newline_at(c) implies c[j] != NEWLINE by {
            if j > 0 {
                assert(c[j] == rest[j - 1]);
            }
        }
        if !has_newline(rest) {
            assert(!has_newline(c)) by {
                if has_newline(c) {
                    let i = choose|i: int| 0 <= i < c.len() && c[i] == NEWLINE;
                    assert(rest[i - 1] == NEWLINE);
                }
            }
        } else {
            let i = choose|i: int| 0 <= i < rest.len() && rest[i] == NEWLINE;
            assert(c[i + 1] == NEWLINE);
        }
    } else if c.len() > 0 {
        assert(c[0] == NEWLINE);
    }
}

/// What a reader holding `received` makes of the next chunk `c`: the completed
/// line, if `c` holds a newline (bytes after it are dropped), or else the
/// bytes received so far.
pub open spec fn absorb_spec(received: Seq<u8>, c: Seq<u8>) -> (Seq<u8>, Option<Seq<u8>>) {
    if newline_at(c) < c.len() {
        (received, Some(received + c.take(newline_at(c) + 1)))
    } else {
        (received + c, None)
    }
}

/// The line a reader holding `received` completes from `chunks`, if any.
pub open spec fn feed(received: Seq<u8>, chunks: Seq<Seq<u8>>) -> Option<Seq<u8>>
    decreases chunks.len(),
{
    if chunks.len() == 0 {
        None
    } else {
        let (next, line) = absorb_spec(received, chunks[0]);
        if line is Some {
            line
        } else {
            feed(next, chunks.drop_first())
        }
    }
}

proof fn lemma_feed_framed(s: Seq<u8>, received: Seq<u8>, chunks: Seq<Seq<u8>>)
    requires
        !has_newline(s),
        !has_newline(received),
        forall|i: int| 0 <= i < chunks.len() ==> #[trigger] chunks[i].len() > 0,
        received + chunks.flatten() == framed(s),
    ensures
        feed(received, chunks) == Some(framed(s)),
    decreases chunks.len(),
{
    let f = framed(s);
    if chunks.len() == 0 {
        assert(received =~= f);
        assert(f[s.len() as int] == NEWLINE);
        assert(false);
    }
    let c = chunks[0];
    let rest = chunks.drop_first();
    assert(chunks.flatten() == c + rest.flatten());
    lemma_newline_at(c);
    let k = newline_at(c);
    let total = received + c + rest.flatten();
    assert(total =~= f);
    if k < c.len() {
        let pos = received.len() + k;
        assert(total[pos] == NEWLINE);
        assert(pos == s.len()) by {
            if pos < s.len() {
                assert(s[pos] == f[pos]);
            }
        }
        assert(received + c.take(k + 1) =~= f);
    } else {
        let next = received + c;
        assert(!has_newline(next)) by {
            if has_newline(next) {
                let i = choose|i: int| 0 <= i < next.len() && next[i] == NEWLINE;
                if i < received.len() {
                    assert(received[i] == NEWLINE);
                } else {
                    assert(c[i - received.len()] == NEWLINE);
                }
            }
        }
        assert forall|i: int| 0 <= i < rest.len() implies #[trigger] rest[i].len() > 0 by {
            assert(rest[i] == chunks[i + 1]);
        }
        assert(next + rest.flatten() =~= f);
        lemma_feed_framed(s, next, rest);
    }
}

/// Framing round trip: a message without a newline, framed and then delivered
/// to a fresh reader in any number of non-empty chunks, comes out as exactly
/// the framed line, and stripping its final newline gives the message back.
pub proof fn lemma_framing_round_trip(s: Seq<u8>, chunks: Seq<Seq<u8>>)
    requires
        !has_newline(s),
        forall|i: int| 0 <= i < chunks.len() ==> #[trigger] chunks[i].len() > 0,
        chunks.flatten() == framed(s),
    ensures
        feed(Seq::empty(), chunks) == Some(framed(s)),
        framed(s).drop_last() == s,
{
    assert(!has_newline(Seq::<u8>::empty()));
    assert(Seq::<u8>::empty() + chunks.flatten() =~= chunks.flatten());
    lemma_feed_framed(s, Seq::empty(), chunks);
    assert(framed(s).drop_last() =~= s);
}

/// Progress of writing one line under a deadline.
pub struct LineWriter {
    line: Vec<u8>,
    written: usize,
    deadline_ms: u64,
}

/// What the caller of a `LineWriter` does next.
pub enum WriteStep {
    /// Wait at most `timeout_ms` for the pipe to take bytes, then write the line from `offset` on.
    Write { offset: usize, timeout_ms: u64 },
    /// The whole line is written.
    Done,
    /// The write failed.
    Failed(WorkerError),
}

impl LineWriter {
    pub closed spec fn line_spec(&self) -> Seq<u8> {
        self.line@
    }

    pub closed spec fn written_spec(&self) -> nat {
        self.written as nat
    }

    pub closed spec fn deadline_spec(&self) -> u64 {
        self.deadline_ms
    }

    pub closed spec fn wf(&self) -> bool {
        self.written <= self.line@.len()
    }

    /// Frames message `m` for writing, with a deadline of the I/O budget after
    /// `now_ms`; a message holding a newline is rejected as `frame_message` does.
    pub fn new(m: &Vec<u8>, now_ms: u64) -> (r: Result<Self, WorkerError>)
        ensures
            has_newline(m@) <==> r is Err,
            r matches Err(e) ==> (e.kind matches WorkerErrorKind::InvalidSerialization(reason, bytes) && reason@
                == "contains newline"@ && bytes@ == m@),
            r matches Ok(w) ==> w.wf() && w.line_spec() == framed(m@) && w.written_spec() == 0
                && w.deadline_spec() == deadline_after(now_ms, PIPE_IO_TIMEOUT_MS),
    {
        match frame_message(m) {
            Ok(line) => Ok(LineWriter { line, written: 0, deadline_ms: deadline_from(now_ms, PIPE_IO_TIMEOUT_MS) }),
            Err(e) => Err(e),
        }
    }

    pub fn line(&self) -> (r: &Vec<u8>)
        ensures
            r@ == self.line_spec(),
    {
        &self.line
    }

    /// Decides the next move at time `now_ms`: done once every byte is out,
    /// timed out once the deadline is reached with bytes left, else write on.
    pub fn next_step(&self, now_ms: u64) -> (r: WriteStep)
        requires
            self.wf(),
        ensures
            self.written_spec() == self.line_spec().len() <==> r is Done,
            self.written_spec() < self.line_spec().len() && now_ms >= self.deadline_spec() <==> (r matches WriteStep::Failed(e)
                && e.kind matches WorkerErrorKind::OperationTimedOut(what) && what@ == "pipe writing"@),
            r matches WriteStep::Write { offset, timeout_ms } ==> offset == self.written_spec() && now_ms
                < self.deadline_spec() && timeout_ms == self.deadline_spec() - now_ms,
    {
        if self.written == self.line.len() {
            WriteStep::Done
        } else if now_ms >= self.deadline_ms {
            WriteStep::Failed(WorkerError::new(WorkerErrorKind::OperationTimedOut(String::from_str("pipe writing"))))
        } else {
            WriteStep::Write { offset: self.written, timeout_ms: self.deadline_ms - now_ms }
        }
    }

    /// Notes that `n` more bytes of the line were taken by the pipe.
    pub fn record_written(&mut self, n: usize)
        requires
            old(self).wf(),
            old(self).written_spec() + n <= old(self).line_spec().len(),
        ensures
            final(self).wf(),
            final(self).written_spec() == old(self).written_spec() + n,
            final(self).line_spec() == old(self).line_spec(),
            final(self).deadline_spec() == old(self).deadline_spec(),
    {
        let len = self.line.len();
        assert(self.written + n <= len);
        self.written = self.written + n;
    }
}

/// Accumulates what the component writes until a whole line has come.
pub struct LineReader {
    received: Vec<u8>,
    deadline_ms: u64,
}

/// A completed line, or a sign that more bytes are needed.
pub enum ReadStep {
    Pending,
    Line(Vec<u8>),
}

impl LineReader {
    pub closed spec fn received_spec(&self) -> Seq<u8> {
        self.received@
    }

    pub closed spec fn deadline_spec(&self) -> u64 {
        self.deadline_ms
    }

    /// A reader with nothing received and a deadline of the I/O budget after `now_ms`.
    pub fn new(now_ms: u64) -> (r: Self)
        ensures
            r.received_spec() == Seq::<u8>::empty(),
            r.deadline_spec() == deadline_after(now_ms, PIPE_IO_TIMEOUT_MS),
    {
        LineReader { received: Vec::new(), deadline_ms: deadline_from(now_ms, PIPE_IO_TIMEOUT_MS) }
    }

    /// Checked after each wait for data: past the deadline the read has timed
    /// out; before it, the result is how long the next wait may last.
    pub fn check_deadline(&self, now_ms: u64) -> (r: Result<u64, WorkerError>)
        ensures
            now_ms > self.deadline_spec() <==> r is Err,
            r matches Ok(left) ==> left == self.deadline_spec() - now_ms,
            r matches Err(e) ==> (e.kind matches WorkerErrorKind::OperationTimedOut(what) && what@ == "pipe reading"@),
    {
        if now_ms > self.deadline_ms {
            Err(WorkerError::new(WorkerErrorKind::OperationTimedOut(String::from_str("pipe reading"))))
        } else {
            Ok(self.deadline_ms - now_ms)
        }
    }

    /// Takes the bytes of one successful read. Zero bytes mean the writer has
    /// closed its end. A chunk holding a newline completes the line, up to and
    /// including that newline.
    pub fn absorb(&mut self, chunk: &[u8]) -> (r: Result<ReadStep, WorkerError>)
        ensures
            chunk@.len() == 0 <==> (r matches Err(e) && e.kind is PipeDisconnected),
            chunk@.len() > 0 ==> match absorb_spec(old(self).received_spec(), chunk@) {
                (next, None) => r matches Ok(ReadStep::Pending) && final(self).received_spec() == next,
                (_, Some(line)) => r matches Ok(ReadStep::Line(l)) && l@ == line,
            },
            final(self).deadline_spec() == old(self).deadline_spec(),
    {
        if chunk.len() == 0 {
            return Err(WorkerError::new(WorkerErrorKind::PipeDisconnected));
        }
        proof {
            lemma_newline_at(chunk@);
        }
        let ghost start = self.received@;
        let mut i: usize = 0;
        while i < chunk.len()
            invariant
                i <= chunk@.len(),
                i <= newline_at(chunk@),
                0 <= newline_at(chunk@) <= chunk@.len(),
                forall|j: int| 0 <= j < newline_at(chunk@) ==> chunk@[j] != NEWLINE,
                newline_at(chunk@) < chunk@.len() ==> chunk@[newline_at(chunk@)] == NEWLINE,
                self.received@ == start + chunk@.take(i as int),
                start == old(self).received@,
                self.deadline_ms == old(self).deadline_ms,
            decreases chunk@.len() - i,
        {
            let b = chunk[i];
            self.received.push(b);
            assert(self.received@ =~= start + chunk@.take(i as int + 1));
            if b == NEWLINE {
                assert(i == newline_at(chunk@));
                let mut line: Vec<u8> = Vec::new();
                std::mem::swap(&mut self.received, &mut line);
                return Ok(ReadStep::Line(line));
            }
            i = i + 1;
        }
        assert(chunk@.take(i as int) =~= chunk@);
        Ok(ReadStep::Pending)
    }
}

/// Relies on String::from_utf8: the bytes are taken as text exactly when they are valid UTF-8.
#[verifier::external_body]
fn utf8_text(bytes: Vec<u8>) -> (r: Option<String>)
    ensures
        r is Some <==> valid_utf8(bytes@),
        r matches Some(s) ==> s@ == decode_utf8(bytes@),
{
    String::from_utf8(bytes).ok()
}

/// A line read from the component as text; bytes that are not UTF-8 are an error.
pub fn line_text(line: Vec<u8>) -> (r: Result<String, WorkerError>)
    ensures
        r is Ok <==> valid_utf8(line@),
        r matches Ok(s) ==> s@ == decode_utf8(line@),
        r matches Err(e) ==> e.kind is InvalidUtf8,
{
    match utf8_text(line) {
        Some(s) => Ok(s),
        None => Err(WorkerError::new(WorkerErrorKind::InvalidUtf8)),
    }
}

} // verus!

//! Following a growing file: the incremental line cursor and the
//! connect/stream/reopen supervisor.
//!
//! The cursor owns the byte offset already consumed from the file and a
//! buffer of bytes not yet returned as lines. A line is complete only when
//! its terminator has arrived; an unterminated tail stays buffered and is
//! never emitted. The supervisor is a two-phase state machine; the runtime
//! loop performs the actions it decides.
use crate::watcher::ChangeKind;
use vstd::prelude::*;

verus! {

/// Index of the first line feed in `s`, or `s.len()` when there is none.
pub open spec fn first_nl(s: Seq<u8>) -> int
    decreases s.len(),
{
    if s.len() == 0 {
        0
    } else if s[0] == 10 {
        0
    } else {
        1 + first_nl(s.drop_first())
    }
}

/// `first_nl` points at the first line feed: everything before it is not one,
/// and it is one unless the sequence holds none at all.
pub proof fn lemma_first_nl(s: Seq<u8>)
    ensures
        0 <= first_nl(s) <= s.len(),
        forall|k: int| 0 <= k < first_nl(s) ==> s[k] != 10,
        first_nl(s) < s.len() ==> s[first_nl(s)] == 10,
    decreases s.len(),
{
    if s.len() > 0 && s[0] != 10 {
        lemma_first_nl(s.drop_first());
        assert forall|k: int| 0 <= k < first_nl(s) implies s[k] != 10 by {
            if k > 0 {
                assert(s.drop_first()[k - 1] == s[k]);
            }
        }
        if first_nl(s) < s.len() {
            assert(s.drop_first()[first_nl(s) - 1] == s[first_nl(s)]);
        }
    }
}

/// The tail reader's cursor: `offset` bytes of the file were consumed so
/// far, and `buf` holds the consumed bytes not yet handed out as lines.
#[derive(Debug)]
pub struct TailCursor {
    pub offset: u64,
    pub buf: Vec<u8>,
}

impl TailCursor {
    /// A fresh cursor reads from the beginning of the file.
    pub fn new() -> (c: Self)
        ensures
            c.offset == 0,
            c.buf@ == Seq::<u8>::empty(),
    {
        TailCursor { offset: 0, buf: Vec::new() }
    }

    /// Takes in newly appended bytes; the offset advances by exactly what was
    /// read.
    pub fn feed(&mut self, data: &Vec<u8>)
        requires
            old(self).offset + data@.len() <= u64::MAX,
        ensures
            final(self).offset == old(self).offset + data@.len(),
            final(self).buf@ == old(self).buf@ + data@,
    {
        let mut k: usize = 0;
        while k < data.len()
            invariant
                k <= data@.len(),
                self.offset == old(self).offset,
                self.buf@ == old(self).buf@ + data@.subrange(0, k as int),
            decreases data@.len() - k,
        {
            self.buf.push(data[k]);
            proof {
                assert(data@.subrange(0, k + 1) =~= data@.subrange(0, k as int).push(
                    data@[k as int],
                ));
            }
            k += 1;
        }
        proof {
            assert(data@.subrange(0, data@.len() as int) =~= data@);
        }
        self.offset = self.offset + data.len() as u64;
    }

    /// Pops the first complete line, without its terminator. Bytes past the
    /// terminator stay buffered; with no terminator buffered nothing is
    /// emitted and nothing changes.
    pub fn next_line(&mut self) -> (r: Option<Vec<u8>>)
        ensures
            final(self).offset == old(self).offset,
            first_nl(old(self).buf@) == old(self).buf@.len() ==> r is None && *final(self)
                == *old(self),
            first_nl(old(self).buf@) < old(self).buf@.len() ==> {
                &&& r matches Some(v) && v@ == old(self).buf@.subrange(
                    0,
                    first_nl(old(self).buf@),
                )
                &&& final(self).buf@ == old(self).buf@.subrange(
                    first_nl(old(self).buf@) + 1,
                    old(self).buf@.len() as int,
                )
            },
    {
        proof {
            lemma_first_nl(self.buf@);
        }
        let n = self.buf.len();
        let mut i: usize = 0;
        while i < n && self.buf[i] != 10
            invariant
                i <= n,
                n == self.buf@.len(),
                *self == *old(self),
                forall|k: int| 0 <= k < i ==> self.buf@[k] != 10,
            decreases n - i,
        {
            i += 1;
        }
        proof {
            if i < n {
                assert(first_nl(self.buf@) == i) by {
                    lemma_first_nl(self.buf@);
                }
            }
        }
        if i == n {
            return None;
        }
        let mut line_out: Vec<u8> = Vec::new();
        let mut k: usize = 0;
        while k < i
            invariant
                k <= i < n,
                n == self.buf@.len(),
                *self == *old(self),
                line_out@ == self.buf@.subrange(0, k as int),
            decreases i - k,
        {
            line_out.push(self.buf[k]);
            proof {
                assert(self.buf@.subrange(0, k + 1) =~= self.buf@.subrange(0, k as int).push(
                    self.buf@[k as int],
                ));
            }
            k += 1;
        }
        let mut rest: Vec<u8> = Vec::new();
        let mut j: usize = i + 1;
        while j < n
            invariant
                i + 1 <= j <= n,
                i < n,
                n == self.buf@.len(),
                *self == *old(self),
                rest@ == self.buf@.subrange(i + 1, j as int),
            decreases n - j,
        {
            rest.push(self.buf[j]);
            proof {
                assert(self.buf@.subrange(i + 1, j + 1) =~= self.buf@.subrange(i + 1, j as int).push(
                    self.buf@[j as int],
                ));
            }
            j += 1;
        }
        self.buf = rest;
        Some(line_out)
    }

    /// True exactly when the consumed offset equals the file's on-disk
    /// length: a change notification with no new bytes behind it, the sign of
    /// rotation or truncation by the writer.
    pub fn has_no_new_data(&self, file_len: u64) -> (r: bool)
        ensures
            r == (self.offset == file_len),
    {
        self.offset == file_len
    }
}

/// Phase of the tail supervisor.
#[derive(Clone, Copy, Debug, PartialEq, Eq, Structural)]
pub enum TailPhase {
    Connecting,
    Streaming,
}

/// What the supervisor just observed.
#[derive(Clone, Copy, Debug, PartialEq, Eq, Structural)]
pub enum TailInput {
    OpenSucceeded,
    OpenFailed,
    DataChange { no_new_data: bool },
    OtherChange,
    ErrorChange,
}

/// What the runtime loop must do next.
#[derive(Clone, Copy, Debug, PartialEq, Eq, Structural)]
pub enum TailAction {
    StartStreaming,
    RetryAfterDelay,
    Reopen,
    Ignore,
}

/// One supervisor decision. While connecting, a successful open starts
/// streaming from a fresh cursor and a failed one is retried after the fixed
/// interval. While streaming, a data modification with no new bytes behind
/// it, or an error notification, drops the stale resources and reconnects;
/// every other observation is ignored.
pub open spec fn tail_step_spec(ph: TailPhase, input: TailInput) -> (TailPhase, TailAction) {
    match (ph, input) {
        (TailPhase::Connecting, TailInput::OpenSucceeded) => (
            TailPhase::Streaming,
            TailAction::StartStreaming,
        ),
        (TailPhase::Connecting, TailInput::OpenFailed) => (
            TailPhase::Connecting,
            TailAction::RetryAfterDelay,
        ),
        (TailPhase::Connecting, _) => (TailPhase::Connecting, TailAction::Ignore),
        (TailPhase::Streaming, TailInput::DataChange { no_new_data }) => if no_new_data {
            (TailPhase::Connecting, TailAction::Reopen)
        } else {
            (TailPhase::Streaming, TailAction::Ignore)
        },
        (TailPhase::Streaming, TailInput::ErrorChange) => (
            TailPhase::Connecting,
            TailAction::Reopen,
        ),
        (TailPhase::Streaming, _) => (TailPhase::Streaming, TailAction::Ignore),
    }
}

/// Decides `tail_step_spec`.
pub fn tail_step(ph: TailPhase, input: TailInput) -> (r: (TailPhase, TailAction))
    ensures
        r == tail_step_spec(ph, input),
{
    match (ph, input) {
        (TailPhase::Connecting, TailInput::OpenSucceeded) => (
            TailPhase::Streaming,
            TailAction::StartStreaming,
        ),
        (TailPhase::Connecting, TailInput::OpenFailed) => (
            TailPhase::Connecting,
            TailAction::RetryAfterDelay,
        ),
        (TailPhase::Connecting, _) => (TailPhase::Connecting, TailAction::Ignore),
        (TailPhase::Streaming, TailInput::DataChange { no_new_data }) => if no_new_data {
            (TailPhase::Connecting, TailAction::Reopen)
        } else {
            (TailPhase::Streaming, TailAction::Ignore)
        },
        (TailPhase::Streaming, TailInput::ErrorChange) => (
            TailPhase::Connecting,
            TailAction::Reopen,
        ),
        (TailPhase::Streaming, _) => (TailPhase::Streaming, TailAction::Ignore),
    }
}

/// Maps a raw change notification, together with the no-new-bytes check made
/// for data modifications, to the supervisor's input.
pub fn tail_input_of_change(k: ChangeKind, no_new_data: bool) -> (r: TailInput)
    ensures
        r == match k {
            ChangeKind::ModifiedData => TailInput::DataChange { no_new_data },
            ChangeKind::Error => TailInput::ErrorChange,
            _ => TailInput::OtherChange,
        },
{
    match k {
        ChangeKind::ModifiedData => TailInput::DataChange { no_new_data },
        ChangeKind::Error => TailInput::ErrorChange,
        _ => TailInput::OtherChange,
    }
}

/// Law (reopen correctness): a data modification with no new bytes sends the
/// streaming supervisor back to connecting with a reopen, the reconnect
/// starts streaming anew, and the fresh cursor's buffer is empty — so the
/// first line it yields from the replacement file's bytes is exactly that
/// file's first line, neither skipped nor read twice.
pub proof fn lemma_reopen_resumes_at_start(content: Seq<u8>)
    ensures
        tail_step_spec(TailPhase::Streaming, TailInput::DataChange { no_new_data: true }) == (
            TailPhase::Connecting,
            TailAction::Reopen,
        ),
        tail_step_spec(TailPhase::Connecting, TailInput::OpenSucceeded) == (
            TailPhase::Streaming,
            TailAction::StartStreaming,
        ),
        (Seq::<u8>::empty() + content).subrange(
            0,
            first_nl(Seq::<u8>::empty() + content),
        ) == content.subrange(0, first_nl(content)),
{
    assert(Seq::<u8>::empty() + content =~= content);
}

} // verus!

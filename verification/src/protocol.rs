//! Messages exchanged between supervisor and workers, and how they are
//! framed on a stream: one JSON document per line.
use vstd::prelude::*;

verus! {

/// Message sent to the supervisor when a worker
/// is spawned and has connected to the IPC socket.
#[derive(Debug, Clone, PartialEq, Eq)]
pub struct Connected {
    /// Worker identifier.
    pub id: String,
}

/// Message given to a worker process when it is launched.
#[derive(Debug, Clone, PartialEq, Eq)]
pub struct WorkerInfo {
    /// Socket path.
    pub path: String,
    /// Worker identifier.
    pub id: String,
}

/// The newline byte that ends each frame.
pub const NEWLINE: u8 = 10;

/// The frame of a message: its bytes followed by a newline.
pub open spec fn frame_spec(payload: Seq<u8>) -> Seq<u8> {
    payload.push(NEWLINE)
}

/// Frame one encoded message for writing on a stream.
pub fn frame_line(payload: &[u8]) -> (line: Vec<u8>)
    ensures
        line@ == frame_spec(payload@),
{
    let mut line: Vec<u8> = Vec::new();
    let n = payload.len();
    let mut i: usize = 0;
    while i < n
        invariant
            n == payload@.len(),
            i <= n,
            line@ == payload@.take(i as int),
        decreases n - i,
    {
        line.push(payload[i]);
        proof {
            assert(line@ =~= payload@.take(i + 1));
        }
        i = i + 1;
    }
    line.push(NEWLINE);
    proof {
        assert(payload@.take(n as int) =~= payload@);
    }
    line
}

/// A message without a newline in it is read back whole from its frame:
/// the frame holds exactly one newline, at its end, and what stands before
/// it is the message.
pub proof fn lemma_frame_reads_back(payload: Seq<u8>)
    requires
        !payload.contains(NEWLINE),
    ensures
        frame_spec(payload).last() == NEWLINE,
        frame_spec(payload).drop_last() == payload,
        forall|i: int| 0 <= i < frame_spec(payload).len() - 1 ==> #[trigger] frame_spec(payload)[i] != NEWLINE,
{
    assert(frame_spec(payload).drop_last() =~= payload);
    assert forall|i: int| 0 <= i < frame_spec(payload).len() - 1 implies #[trigger] frame_spec(payload)[i] != NEWLINE by {
        assert(frame_spec(payload)[i] == payload[i]);
    }
}

}

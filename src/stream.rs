use vstd::prelude::*;

verus! {

/// What one read of the input stream returned.
#[derive(Clone, Copy, Debug, PartialEq, Eq, Structural)]
pub enum ReadEvent {
    /// The read delivered this many bytes.
    Data(usize),
    /// The read failed.
    Failed,
}

/// What the pipeline does after a read.
#[derive(Clone, Copy, Debug, PartialEq, Eq, Structural)]
pub enum Action {
    /// Run the first `len` bytes of the read buffer through the pipeline and write the
    /// result; when `last` holds, read no more afterwards.
    Process { len: usize, last: bool },
    /// Read no more.
    Stop,
}

/// The decisions of the read loop: reads of fixed-size chunks go on until one returns
/// fewer bytes than a chunk, or fails.
#[derive(Clone, Copy, Debug, PartialEq, Eq)]
pub struct ReadLoop {
    pub chunk_bytes: usize,
    pub finished: bool,
}

/// The loop state after event `e` in state `finished`, with the action it calls for.
pub open spec fn step(finished: bool, chunk: usize, e: ReadEvent) -> (bool, Action) {
    if finished {
        (true, Action::Stop)
    } else {
        match e {
            ReadEvent::Failed => (true, Action::Stop),
            ReadEvent::Data(n) => (n < chunk, Action::Process { len: n, last: n < chunk }),
        }
    }
}

/// The byte counts that the loop processes, in order, when its reads return `events`.
pub open spec fn processed(finished: bool, chunk: usize, events: Seq<ReadEvent>) -> Seq<usize>
    decreases events.len(),
{
    if events.len() == 0 {
        Seq::empty()
    } else {
        let (next, a) = step(finished, chunk, events[0]);
        let rest = processed(next, chunk, events.drop_first());
        match a {
            Action::Process { len, last } => seq![len] + rest,
            Action::Stop => rest,
        }
    }
}

impl ReadLoop {
    /// A loop that reads chunks of `chunk_bytes` bytes and has not finished.
    pub fn new(chunk_bytes: usize) -> (r: ReadLoop)
        ensures
            r.chunk_bytes == chunk_bytes,
            !r.finished,
    {
        ReadLoop { chunk_bytes, finished: false }
    }

    /// Decides what to do with the outcome of one read and advances the loop.
    pub fn on_read(&mut self, e: ReadEvent) -> (r: Action)
        ensures
            final(self).chunk_bytes == old(self).chunk_bytes,
            (final(self).finished, r) == step(old(self).finished, old(self).chunk_bytes, e),
    {
        if self.finished {
            return Action::Stop;
        }
        match e {
            ReadEvent::Failed => {
                self.finished = true;
                Action::Stop
            },
            ReadEvent::Data(n) => {
                let last = n < self.chunk_bytes;
                self.finished = last;
                Action::Process { len: n, last }
            },
        }
    }

    /// Whether the loop reads no more.
    pub fn is_finished(&self) -> (r: bool)
        ensures
            r == self.finished,
    {
        self.finished
    }
}

proof fn lemma_finished_processes_nothing(chunk: usize, events: Seq<ReadEvent>)
    ensures
        processed(true, chunk, events) == Seq::<usize>::empty(),
    decreases events.len(),
{
    if events.len() > 0 {
        lemma_finished_processes_nothing(chunk, events.drop_first());
    }
}

/// Whatever a stream's reads return, every chunk that the loop processes holds a full
/// chunk of bytes except possibly the last: a short read is processed and ends the loop.
pub proof fn at_most_one_short_chunk(chunk: usize, events: Seq<ReadEvent>)
    ensures
        forall|i: int|
            0 <= i < processed(false, chunk, events).len() && #[trigger] processed(
                false,
                chunk,
                events,
            )[i] < chunk ==> i == processed(false, chunk, events).len() - 1,
    decreases events.len(),
{
    if events.len() > 0 {
        let s = processed(false, chunk, events);
        let rest = events.drop_first();
        at_most_one_short_chunk(chunk, rest);
        match events[0] {
            ReadEvent::Failed => {
                lemma_finished_processes_nothing(chunk, rest);
            },
            ReadEvent::Data(n) => {
                if n < chunk {
                    lemma_finished_processes_nothing(chunk, rest);
                    assert(s =~= seq![n]);
                } else {
                    let t = processed(false, chunk, rest);
                    assert(s =~= seq![n] + t);
                    assert forall|i: int| 0 <= i < s.len() && #[trigger] s[i] < chunk implies i
                        == s.len() - 1 by {
                        if i > 0 {
                            assert(s[i] == t[i - 1]);
                        }
                    }
                }
            },
        }
    }
}

} // verus!

use vstd::prelude::*;

use futures::{Async, Stream};
use hyper::Body as ChunkStream;

verus! {

/// The chunk stream of a request body, as the HTTP codec hands it over.
#[verifier::external_type_specification]
#[verifier::external_body]
pub struct ExStream(ChunkStream);

/// A failure of the chunk stream.
#[verifier::external_type_specification]
#[verifier::external_body]
pub struct ExStreamError(hyper::Error);

/// What one poll of the underlying chunk stream gave.
pub enum Polled<E> {
    /// The next chunk of the body.
    Chunk(Vec<u8>),
    /// The stream has ended.
    End,
    /// No data is available yet.
    NotReady,
    /// The stream failed.
    Failed(E),
    /// The poll was not made: no task was running to be woken when data
    /// arrives.
    OutsideTask,
}

/// Why a read gave no bytes.
#[derive(Debug)]
pub enum ReadError<E> {
    /// Nothing is buffered and the stream has no data yet: poll again later.
    NotReady,
    /// The stream failed with this error.
    Stream(E),
    /// The stream can only be polled from within a running task.
    OutsideTask,
}

/// How many bytes a read copies out of `data` into a buffer of `room` bytes.
pub open spec fn fill(data: Seq<u8>, room: nat) -> nat {
    if data.len() < room {
        data.len()
    } else {
        room
    }
}

/// `after` is `before` with its first `n` bytes taken from `data`.
pub open spec fn copied(data: Seq<u8>, before: Seq<u8>, after: Seq<u8>, n: nat) -> bool {
    &&& n == fill(data, before.len())
    &&& after.len() == before.len()
    &&& after.take(n as int) == data.take(n as int)
    &&& after.skip(n as int) == before.skip(n as int)
}

/// What stays buffered of `data` once `n` of its bytes have been delivered.
pub open spec fn rest_after(data: Seq<u8>, n: nat) -> Option<Seq<u8>> {
    if n < data.len() {
        Some(data.skip(n as int))
    } else {
        None
    }
}

/// What a read that handles the poll result `polled` does, when nothing was
/// buffered: a chunk is delivered as far as `buf` has room and its rest
/// buffered; the end of the stream reads zero bytes; every other outcome is
/// reported as its error. Only a chunk writes to `buf` or buffers anything.
pub open spec fn polled_outcome<E>(
    polled: Polled<E>,
    before: Seq<u8>,
    after: Seq<u8>,
    r: Result<usize, ReadError<E>>,
    pending: Option<Seq<u8>>,
) -> bool {
    match polled {
        Polled::Chunk(c) => {
            &&& r is Ok
            &&& copied(c@, before, after, r->Ok_0 as nat)
            &&& pending == rest_after(c@, r->Ok_0 as nat)
        },
        Polled::End => {
            &&& r == Ok::<usize, ReadError<E>>(0)
            &&& after == before
            &&& pending is None
        },
        Polled::NotReady => {
            &&& r == Err::<usize, ReadError<E>>(ReadError::NotReady)
            &&& after == before
            &&& pending is None
        },
        Polled::Failed(e) => {
            &&& r == Err::<usize, ReadError<E>>(ReadError::Stream(e))
            &&& after == before
            &&& pending is None
        },
        Polled::OutsideTask => {
            &&& r == Err::<usize, ReadError<E>>(ReadError::OutsideTask)
            &&& after == before
            &&& pending is None
        },
    }
}

/// A pull-style reader over a body that arrives as a stream of chunks. It
/// buffers at most one chunk that was not fully delivered, with the offset of
/// the first byte not yet delivered.
#[derive(Debug)]
pub struct Body {
    stream: ChunkStream,
    chunk: Option<(Vec<u8>, usize)>,
}

/// Relies on `futures::Stream::poll` of `hyper::Body`: one poll of the chunk
/// stream, its four outcomes mapped one for one. That poll parks the current
/// task when no data is there, which panics outside a task, so it is made
/// only where `futures::task::is_in_task` says a task runs. What comes back
/// depends on the connection, so nothing is promised of it.
#[verifier::external_body]
fn poll_stream(stream: &mut ChunkStream) -> Polled<hyper::Error> {
    if !futures::task::is_in_task() {
        return Polled::OutsideTask;
    }
    match stream.poll() {
        Ok(Async::Ready(Some(chunk))) => Polled::Chunk(chunk.to_vec()),
        Ok(Async::Ready(None)) => Polled::End,
        Ok(Async::NotReady) => Polled::NotReady,
        Err(error) => Polled::Failed(error),
    }
}

/// Relies on `hyper::Body::empty`: a stream that ends at once.
#[verifier::external_body]
fn empty_stream() -> ChunkStream {
    ChunkStream::empty()
}

impl Body {
    /// The offset lies inside the buffered chunk.
    pub closed spec fn wf(&self) -> bool {
        match self.chunk {
            Some((c, off)) => off < c.len(),
            None => true,
        }
    }

    /// The chunk stream that the reader polls.
    pub closed spec fn stream_of(&self) -> ChunkStream {
        self.stream
    }

    /// The buffered bytes not yet delivered, if a chunk is buffered.
    pub closed spec fn pending(&self) -> Option<Seq<u8>> {
        match self.chunk {
            Some((c, off)) => Some(c@.skip(off as int)),
            None => None,
        }
    }

    /// A reader over `stream`, with nothing buffered.
    pub fn new(stream: ChunkStream) -> (r: Body)
        ensures
            r.stream_of() == stream,
            r.wf(),
            r.pending() is None,
    {
        Body { stream, chunk: None }
    }

    /// A reader over a stream that ends at once.
    pub fn empty() -> (r: Body)
        ensures
            r.wf(),
            r.pending() is None,
    {
        Body::new(empty_stream())
    }

    /// Whether a chunk is buffered, so that the next read needs no poll.
    pub fn has_pending(&self) -> (r: bool)
        ensures
            r == self.pending() is Some,
    {
        self.chunk.is_some()
    }

    /// Moves the stream and what is buffered into a new reader, and leaves
    /// this one over a stream that ends at once.
    pub fn take(&mut self) -> (r: Body)
        ensures
            r.stream_of() == old(self).stream_of(),
            r.pending() == old(self).pending(),
            old(self).wf() ==> r.wf(),
            final(self).wf(),
            final(self).pending() is None,
    {
        let mut stream = empty_stream();
        core::mem::swap(&mut self.stream, &mut stream);
        Body { stream, chunk: self.chunk.take() }
    }

    /// Copies from `chunk` at `off` into `buf` and keeps what is left.
    fn take_from(&mut self, chunk: Vec<u8>, off: usize, buf: &mut Vec<u8>) -> (n: usize)
        requires
            off <= chunk@.len(),
        ensures
            final(self).wf(),
            final(self).stream_of() == old(self).stream_of(),
            copied(chunk@.skip(off as int), old(buf)@, final(buf)@, n as nat),
            final(self).pending() == rest_after(chunk@.skip(off as int), n as nat),
    {
        let avail = chunk.len() - off;
        let n: usize = if avail < buf.len() {
            avail
        } else {
            buf.len()
        };
        let ghost data = chunk@.skip(off as int);
        let ghost before = buf@;
        let end: usize = off + n;
        let mut k: usize = 0;
        while k < n
            invariant
                end == off + n,
                n <= buf@.len(),
                off + n <= chunk@.len(),
                data == chunk@.skip(off as int),
                k <= n,
                buf@.len() == before.len(),
                forall|j: int| 0 <= j < k ==> #[trigger] buf@[j] == data[j],
                forall|j: int| k <= j < buf@.len() ==> #[trigger] buf@[j] == before[j],
            decreases n - k,
        {
            buf[k] = chunk[off + k];
            k = k + 1;
        }
        assert(buf@.take(n as int) =~= data.take(n as int));
        assert(buf@.skip(n as int) =~= before.skip(n as int));
        if off + n < chunk.len() {
            let ghost c = chunk@;
            self.chunk = Some((chunk, off + n));
            assert(c.skip(off + n) =~= data.skip(n as int));
        } else {
            self.chunk = None;
        }
        n
    }

    /// Delivers buffered bytes into `buf`, as many as fit, and keeps the rest
    /// buffered; once the chunk is drained nothing stays buffered.
    pub fn read_pending(&mut self, buf: &mut Vec<u8>) -> (n: usize)
        requires
            old(self).wf(),
            old(self).pending() is Some,
        ensures
            final(self).wf(),
            final(self).stream_of() == old(self).stream_of(),
            copied(old(self).pending()->0, old(buf)@, final(buf)@, n as nat),
            final(self).pending() == rest_after(old(self).pending()->0, n as nat),
    {
        let taken = self.chunk.take();
        match taken {
            Some((chunk, off)) => self.take_from(chunk, off, buf),
            None => 0,
        }
    }

    /// Handles what a poll of the stream gave, when nothing was buffered, as
    /// `polled_outcome` says.
    pub fn read_polled<E>(&mut self, buf: &mut Vec<u8>, polled: Polled<E>) -> (r: Result<
        usize,
        ReadError<E>,
    >)
        requires
            old(self).wf(),
            old(self).pending() is None,
        ensures
            final(self).wf(),
            final(self).stream_of() == old(self).stream_of(),
            polled_outcome(polled, old(buf)@, final(buf)@, r, final(self).pending()),
    {
        match polled {
            Polled::Chunk(c) => {
                let ghost cv = c@;
                assert(cv.skip(0) =~= cv);
                let n = self.take_from(c, 0, buf);
                Ok(n)
            },
            Polled::End => Ok(0),
            Polled::NotReady => Err(ReadError::NotReady),
            Polled::Failed(e) => Err(ReadError::Stream(e)),
            Polled::OutsideTask => Err(ReadError::OutsideTask),
        }
    }

    /// Reads into `buf`: from the buffered chunk if there is one, and else
    /// from one poll of the stream, handled as `read_polled` does.
    pub fn read(&mut self, buf: &mut Vec<u8>) -> (r: Result<usize, ReadError<hyper::Error>>)
        requires
            old(self).wf(),
        ensures
            final(self).wf(),
            old(self).pending() is Some ==> {
                &&& r is Ok
                &&& copied(old(self).pending()->0, old(buf)@, final(buf)@, r->Ok_0 as nat)
                &&& final(self).pending() == rest_after(old(self).pending()->0, r->Ok_0 as nat)
            },
            old(self).pending() is Some ==> final(self).stream_of() == old(self).stream_of(),
            old(self).pending() is None ==> exists|p: Polled<hyper::Error>|
                polled_outcome(p, old(buf)@, final(buf)@, r, final(self).pending()),
    {
        if self.has_pending() {
            return Ok(self.read_pending(buf));
        }
        let polled = poll_stream(&mut self.stream);
        let ghost p = polled;
        let r = self.read_polled(buf, polled);
        assert(polled_outcome(p, old(buf)@, buf@, r, self.pending()));
        r
    }
}

impl Default for Body {
    fn default() -> (r: Body)
        ensures
            r.wf(),
            r.pending() is None,
    {
        Body::empty()
    }
}

} // verus!

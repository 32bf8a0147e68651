use vstd::prelude::*;

verus! {

/// The most bytes moved by one read: the relay never holds more.
pub const BUFFER_SIZE: usize = 4096;

/// Why a relay stopped.
#[derive(Clone, Copy, Debug, PartialEq, Eq, Structural)]
pub enum RelayEnd {
    /// The source closed and every byte read was written.
    Completed,
    /// Cancellation was seen after a chunk had been fully written.
    Cancelled,
    /// Reading the source failed.
    ReadFailed,
    /// Writing the sink failed, or it accepted no byte.
    WriteFailed,
}

/// What the relay asks its driver to do next.
#[derive(Clone, Copy, Debug, PartialEq, Eq, Structural)]
pub enum RelayAction {
    /// Read up to `BUFFER_SIZE` bytes from the source.
    Read,
    /// Write `chunk()[written()..]` to the sink.
    Write,
    /// Close both endpoints: the relay is over.
    Close(RelayEnd),
}

/// The copy loop between one stage's output and the next stage's input, as
/// a state machine: the driver performs each action and reports the event.
pub struct Relay {
    chunk: Vec<u8>,
    written: usize,
    writing: bool,
    end: Option<RelayEnd>,
    source: Ghost<Seq<u8>>,
    sink: Ghost<Seq<u8>>,
}

impl Relay {
    /// Every byte read from the source so far.
    pub closed spec fn read_so_far(&self) -> Seq<u8> {
        self.source@
    }

    /// Every byte written to the sink so far.
    pub closed spec fn written_so_far(&self) -> Seq<u8> {
        self.sink@
    }

    /// The chunk being written.
    pub closed spec fn chunk_view(&self) -> Seq<u8> {
        self.chunk@
    }

    /// How many bytes of the chunk the sink has taken.
    pub closed spec fn offset(&self) -> nat {
        self.written as nat
    }

    /// The bytes of the current chunk not yet written.
    pub closed spec fn unwritten(&self) -> Seq<u8> {
        self.chunk@.subrange(self.written as int, self.chunk@.len() as int)
    }

    /// The next action, as a value.
    pub closed spec fn action_spec(&self) -> RelayAction {
        match self.end {
            Some(e) => RelayAction::Close(e),
            None => if self.writing {
                RelayAction::Write
            } else {
                RelayAction::Read
            },
        }
    }

    /// What the relay holds: at most one buffer; the sink followed by the
    /// unwritten rest is the source; outside a write, nothing is left over.
    pub closed spec fn wf(&self) -> bool {
        &&& self.chunk@.len() <= BUFFER_SIZE
        &&& self.written <= self.chunk@.len()
        &&& self.written_so_far() + self.unwritten() == self.read_so_far()
        &&& self.writing ==> self.end is None && self.written < self.chunk@.len()
        &&& !self.writing && self.end != Some(RelayEnd::WriteFailed) ==> self.written
            == self.chunk@.len()
    }

    /// A relay that has moved nothing and is about to read.
    pub fn new() -> (r: Relay)
        ensures
            r.wf(),
            r.action_spec() == RelayAction::Read,
            r.read_so_far() == Seq::<u8>::empty(),
            r.written_so_far() == Seq::<u8>::empty(),
    {
        Relay {
            chunk: Vec::new(),
            written: 0,
            writing: false,
            end: None,
            source: Ghost(Seq::empty()),
            sink: Ghost(Seq::empty()),
        }
    }

    /// The next action.
    pub fn action(&self) -> (r: RelayAction)
        ensures
            r == self.action_spec(),
    {
        match self.end {
            Some(e) => RelayAction::Close(e),
            None => if self.writing {
                RelayAction::Write
            } else {
                RelayAction::Read
            },
        }
    }

    /// The chunk being written.
    pub fn chunk(&self) -> (r: &Vec<u8>)
        ensures
            r@ == self.chunk_view(),
            self.wf() ==> r@.len() <= BUFFER_SIZE,
    {
        &self.chunk
    }

    /// How many bytes of the chunk the sink has taken.
    pub fn written(&self) -> (r: usize)
        ensures
            r == self.offset(),
            self.wf() ==> r <= self.chunk_view().len() && self.unwritten()
                == self.chunk_view().subrange(r as int, self.chunk_view().len() as int),
    {
        self.written
    }

    /// The source handed over `data`: an empty read means the source closed.
    pub fn on_read(&mut self, data: Vec<u8>)
        requires
            old(self).wf(),
            old(self).action_spec() == RelayAction::Read,
            data@.len() <= BUFFER_SIZE,
        ensures
            final(self).wf(),
            final(self).read_so_far() == old(self).read_so_far() + data@,
            final(self).written_so_far() == old(self).written_so_far(),
            data@.len() == 0 ==> final(self).action_spec() == RelayAction::Close(
                RelayEnd::Completed,
            ),
            data@.len() > 0 ==> final(self).action_spec() == RelayAction::Write
                && final(self).unwritten() == data@,
    {
        let ghost d = data@;
        if data.len() == 0 {
            self.end = Some(RelayEnd::Completed);
            assert(self.read_so_far() + d =~= self.read_so_far());
        } else {
            self.chunk = data;
            self.written = 0;
            self.writing = true;
            self.source = Ghost(self.read_so_far() + d);
            assert(self.unwritten() =~= d);
        }
    }

    /// Reading the source failed.
    pub fn on_read_error(&mut self)
        requires
            old(self).wf(),
            old(self).action_spec() == RelayAction::Read,
        ensures
            final(self).wf(),
            final(self).read_so_far() == old(self).read_so_far(),
            final(self).written_so_far() == old(self).written_so_far(),
            final(self).action_spec() == RelayAction::Close(RelayEnd::ReadFailed),
    {
        self.end = Some(RelayEnd::ReadFailed);
    }

    /// The sink took the first `n` unwritten bytes; `cancelled` is what the
    /// cancellation signal said after the write. A chunk is always finished
    /// before cancellation stops the relay, so no frame is cut short.
    pub fn on_written(&mut self, n: usize, cancelled: bool)
        requires
            old(self).wf(),
            old(self).action_spec() == RelayAction::Write,
            n <= old(self).unwritten().len(),
        ensures
            final(self).wf(),
            final(self).read_so_far() == old(self).read_so_far(),
            final(self).written_so_far() == old(self).written_so_far() + old(self).unwritten().subrange(0, n as int),
            n == 0 ==> final(self).action_spec() == RelayAction::Close(RelayEnd::WriteFailed),
            0 < n < old(self).unwritten().len() ==> final(self).action_spec()
                == RelayAction::Write && final(self).unwritten() == old(
                self,
            ).unwritten().subrange(n as int, old(self).unwritten().len() as int),
            n > 0 && n == old(self).unwritten().len() && !cancelled ==> final(self).action_spec()
                == RelayAction::Read,
            n > 0 && n == old(self).unwritten().len() && cancelled ==> final(self).action_spec()
                == RelayAction::Close(RelayEnd::Cancelled),
    {
        let ghost rest = self.unwritten();
        if n == 0 {
            self.writing = false;
            self.end = Some(RelayEnd::WriteFailed);
            assert(rest.subrange(0, 0) =~= Seq::<u8>::empty());
            assert(self.written_so_far() + rest.subrange(0, 0) =~= self.written_so_far());
        } else {
            self.sink = Ghost(self.written_so_far() + rest.subrange(0, n as int));
            self.written = self.written + n;
            assert(self.unwritten() =~= rest.subrange(n as int, rest.len() as int));
            assert(self.written_so_far() + self.unwritten() =~= self.read_so_far());
            if self.written == self.chunk.len() {
                self.writing = false;
                if cancelled {
                    self.end = Some(RelayEnd::Cancelled);
                }
            }
        }
    }

    /// Writing the sink failed.
    pub fn on_write_error(&mut self)
        requires
            old(self).wf(),
            old(self).action_spec() == RelayAction::Write,
        ensures
            final(self).wf(),
            final(self).read_so_far() == old(self).read_so_far(),
            final(self).written_so_far() == old(self).written_so_far(),
            final(self).action_spec() == RelayAction::Close(RelayEnd::WriteFailed),
    {
        self.writing = false;
        self.end = Some(RelayEnd::WriteFailed);
    }
}

/// A relay that completed has written every byte it read, in order, and
/// one that stopped for cancellation has written every byte it read too.
pub proof fn relay_passes_bytes_through(r: Relay)
    requires
        r.wf(),
        r.action_spec() == RelayAction::Close(RelayEnd::Completed) || r.action_spec()
            == RelayAction::Close(RelayEnd::Cancelled),
    ensures
        r.written_so_far() == r.read_so_far(),
{
    assert(r.unwritten() =~= Seq::<u8>::empty());
    assert(r.written_so_far() + Seq::<u8>::empty() =~= r.written_so_far());
}

} // verus!

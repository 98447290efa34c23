use vstd::prelude::*;
use crate::checksum::fold16;
use crate::error::{Error, Starved};

verus! {

/// What a transport holds, as plain values: the bytes that arrived and were
/// not read yet, all bytes written, and whether the far end is done sending.
pub struct Line {
    pub incoming: Seq<u8>,
    pub outgoing: Seq<u8>,
    pub closed: bool,
}

impl Line {
    /// The error of a read of `n` bytes that `incoming` cannot serve.
    pub open spec fn shortfall(self, n: int) -> Error {
        if self.closed {
            Error::EndOfFile
        } else {
            Error::Wire(Starved { missing: (n - self.incoming.len()) as usize })
        }
    }

    /// What an exact read of `n` bytes returns.
    pub open spec fn read(self, n: int) -> Result<Seq<u8>, Error> {
        if n <= self.incoming.len() {
            Ok(self.incoming.take(n))
        } else {
            Err(self.shortfall(n))
        }
    }

    /// The line after reads that asked for `n` bytes in all: they are gone
    /// from the front, or everything is gone where fewer were there.
    pub open spec fn advance(self, n: int) -> Line {
        Line {
            incoming: if n <= self.incoming.len() {
                self.incoming.skip(n)
            } else {
                Seq::empty()
            },
            outgoing: self.outgoing,
            closed: self.closed,
        }
    }

    /// The checksum `before` after a read of `n` bytes: they are added where
    /// the read is served, and nothing is where it is not.
    pub open spec fn fold(self, n: int, before: u16) -> u16 {
        if n <= self.incoming.len() {
            fold16(before, self.incoming.take(n))
        } else {
            before
        }
    }

    /// The line after `bytes` were written.
    pub open spec fn push(self, bytes: Seq<u8>) -> Line {
        Line { incoming: self.incoming, outgoing: self.outgoing + bytes, closed: self.closed }
    }
}

/// Reads that ask for `a` and then for `b` bytes leave what one read of
/// `a + b` bytes leaves, where the first was served.
pub proof fn lemma_advance_twice(line: Line, a: int, b: int)
    requires
        0 <= a <= line.incoming.len(),
        0 <= b,
    ensures
        line.advance(a).advance(b) == line.advance(a + b),
{
    assert(line.advance(a).advance(b).incoming =~= line.advance(a + b).incoming);
}

/// The read that follows reads of `a` bytes in all, which were served: a read
/// of `m` bytes returns the bytes from `a` to `a + m` and adds them to the
/// checksum, or falls short by what the whole lacks of `a + m`; either way it
/// leaves what one read of `a + m` bytes leaves.
pub proof fn lemma_next_read(line: Line, a: int, m: int)
    requires
        0 <= a <= line.incoming.len(),
        0 <= m,
    ensures
        line.advance(a).read(m) == if a + m <= line.incoming.len() {
            Ok::<Seq<u8>, Error>(line.incoming.subrange(a, a + m))
        } else {
            Err(line.shortfall(a + m))
        },
        forall|c: u16|
            #[trigger] line.advance(a).fold(m, c) == if a + m <= line.incoming.len() {
                fold16(c, line.incoming.subrange(a, a + m))
            } else {
                c
            },
        line.advance(a).advance(m) == line.advance(a + m),
{
    if a + m <= line.incoming.len() {
        assert(line.advance(a).incoming.take(m) =~= line.incoming.subrange(a, a + m));
    }
    lemma_advance_twice(line, a, m);
}

/// A half-duplex byte transport held in memory. Whoever owns the real link
/// feeds in what it received and sends out what was written here.
pub struct Serial {
    rx: Vec<u8>,
    pos: usize,
    tx: Vec<u8>,
    closed: bool,
}

impl View for Serial {
    type V = Line;

    closed spec fn view(&self) -> Line {
        Line {
            incoming: if self.pos <= self.rx@.len() {
                self.rx@.skip(self.pos as int)
            } else {
                Seq::empty()
            },
            outgoing: self.tx@,
            closed: self.closed,
        }
    }
}

impl Serial {
    /// An open transport on which nothing has arrived or been written.
    pub fn new() -> (serial: Self)
        ensures
            serial@ == (Line { incoming: Seq::empty(), outgoing: Seq::empty(), closed: false }),
    {
        let serial = Self { rx: Vec::new(), pos: 0, tx: Vec::new(), closed: false };
        assert(serial.rx@.skip(0) =~= Seq::<u8>::empty());
        serial
    }

    /// Appends `bytes` to what has arrived.
    pub fn feed(&mut self, bytes: &[u8])
        ensures
            final(self)@ == (Line {
                incoming: old(self)@.incoming + bytes@,
                outgoing: old(self)@.outgoing,
                closed: old(self)@.closed,
            }),
    {
        self.pos = self.cursor();
        self.rx.extend_from_slice(bytes);
        proof {
            assert(self.rx@.skip(self.pos as int) =~= old(self)@.incoming + bytes@);
        }
    }

    /// Where the next read starts: never past the end of what arrived.
    fn cursor(&self) -> (at: usize)
        ensures
            at <= self.rx@.len(),
            self@.incoming == self.rx@.skip(at as int),
    {
        if self.pos <= self.rx.len() {
            self.pos
        } else {
            self.rx.len()
        }
    }

    /// Records that the far end will send no more.
    pub fn close(&mut self)
        ensures
            final(self)@ == (Line {
                incoming: old(self)@.incoming,
                outgoing: old(self)@.outgoing,
                closed: true,
            }),
    {
        self.closed = true;
    }

    /// Whether the far end is done sending.
    pub fn is_closed(&self) -> (closed: bool)
        ensures
            closed == self@.closed,
    {
        self.closed
    }

    /// How many bytes have arrived and were not read yet.
    pub fn pending(&self) -> (n: usize)
        ensures
            n == self@.incoming.len(),
    {
        self.rx.len() - self.cursor()
    }

    /// Everything written so far, in order.
    pub fn written(&self) -> (bytes: &[u8])
        ensures
            bytes@ == self@.outgoing,
    {
        self.tx.as_slice()
    }

    /// Fills `buf` from the front of what has arrived. Where fewer bytes are
    /// there, `buf` is left as it was, what is there is dropped, and the
    /// error says whether more can still come.
    pub fn read_exact(&mut self, buf: &mut [u8]) -> (r: Result<(), Error>)
        ensures
            final(self)@ == old(self)@.advance(old(buf)@.len() as int),
            final(buf)@.len() == old(buf)@.len(),
            match r {
                Ok(()) => old(self)@.read(old(buf)@.len() as int) == Ok::<Seq<u8>, Error>(final(buf)@),
                Err(e) => old(self)@.read(old(buf)@.len() as int) == Err::<Seq<u8>, Error>(e)
                    && final(buf)@ == old(buf)@,
            },
    {
        let n = buf.len();
        let start = self.cursor();
        let have = self.rx.len() - start;
        if have < n {
            let e = if self.closed {
                Error::EndOfFile
            } else {
                Error::Wire(Starved { missing: n - have })
            };
            self.pos = self.rx.len();
            proof {
                assert(self.rx@.skip(self.pos as int) =~= Seq::<u8>::empty());
            }
            return Err(e);
        }
        let mut i: usize = 0;
        while i < n
            invariant
                i <= n,
                n == buf@.len(),
                n == old(buf)@.len(),
                start + n <= self.rx@.len() <= usize::MAX,
                self.rx == old(self).rx,
                self.tx == old(self).tx,
                self.closed == old(self).closed,
                forall|j: int| 0 <= j < i ==> buf@[j] == self.rx@[start + j],
            decreases n - i,
        {
            buf[i] = self.rx[start + i];
            i += 1;
        }
        self.pos = start + n;
        proof {
            assert(buf@ =~= old(self)@.incoming.take(n as int));
            assert(self.rx@.skip(self.pos as int) =~= old(self)@.incoming.skip(n as int));
        }
        Ok(())
    }

    /// Appends `bytes` to what was written.
    pub fn write_all(&mut self, bytes: &[u8])
        ensures
            final(self)@ == old(self)@.push(bytes@),
    {
        self.tx.extend_from_slice(bytes);
        proof {
            assert(self.tx@ =~= old(self).tx@ + bytes@);
        }
    }
}

} // verus!

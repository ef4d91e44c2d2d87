//! In-memory stream endpoints.
//!
//! These implement the traits of [`crate::stream`] over plain byte vectors:
//! a source that delivers a fixed sequence, a sink that accepts everything, a
//! sink that accepts only a bounded number of bytes per call (partial writes),
//! a direct channel, and endpoints that fail after a set number of calls. They
//! let a whole copy run — including partial writes, end-of-stream and fatal
//! errors — be exercised and checked byte for byte.

use vstd::prelude::*;

use crate::error::IoError;
use crate::stream::{ByteSink, ByteSource, TransferChannel};

verus! {

/// A source delivering the bytes of a vector, in order.
pub struct MemSource {
    data: Vec<u8>,
    pos: usize,
}

impl MemSource {
    #[verifier::type_invariant]
    spec fn wf(self) -> bool {
        self.pos <= self.data@.len()
    }

    /// A source that will deliver exactly `data`.
    pub fn new(data: Vec<u8>) -> (r: MemSource)
        ensures
            r.remaining() == data@,
    {
        MemSource { data, pos: 0 }
    }
}

impl ByteSource for MemSource {
    closed spec fn remaining(&self) -> Seq<u8> {
        self.data@.skip(self.pos as int)
    }

    fn read(&mut self, buf: &mut Vec<u8>) -> (r: Result<usize, IoError>) {
        proof {
            use_type_invariant(&*self);
        }
        let n = fill_from(&self.data, self.pos, buf);
        let dlen = self.data.len();
        proof {
            assert(self.pos + n <= dlen);
        }
        self.pos = self.pos + n;
        proof {
            assert(self.remaining() =~= old(self).remaining().skip(n as int));
        }
        Ok(n)
    }
}

/// A source that fails with the given error once its call budget is spent.
pub struct FaultySource {
    data: Vec<u8>,
    pos: usize,
    reads_left: usize,
    code: i32,
}

impl FaultySource {
    #[verifier::type_invariant]
    spec fn wf(self) -> bool {
        self.pos <= self.data@.len()
    }

    /// A source that serves at most `reads` calls out of `data`, then fails
    /// every further call with the operating-system code `code`.
    pub fn new(data: Vec<u8>, reads: usize, code: i32) -> (r: FaultySource)
        ensures
            r.remaining() == data@,
    {
        FaultySource { data, pos: 0, reads_left: reads, code }
    }
}

impl ByteSource for FaultySource {
    closed spec fn remaining(&self) -> Seq<u8> {
        self.data@.skip(self.pos as int)
    }

    fn read(&mut self, buf: &mut Vec<u8>) -> (r: Result<usize, IoError>) {
        proof {
            use_type_invariant(&*self);
        }
        if self.reads_left == 0 {
            return Err(IoError { code: self.code });
        }
        self.reads_left = self.reads_left - 1;
        let n = fill_from(&self.data, self.pos, buf);
        let dlen = self.data.len();
        proof {
            assert(self.pos + n <= dlen);
        }
        self.pos = self.pos + n;
        proof {
            assert(self.remaining() =~= old(self).remaining().skip(n as int));
        }
        Ok(n)
    }
}

/// A sink that accepts every byte offered.
pub struct MemSink {
    data: Vec<u8>,
}

impl MemSink {
    /// An empty sink.
    pub fn new() -> (r: MemSink)
        ensures
            r.written() == Seq::<u8>::empty(),
    {
        MemSink { data: Vec::new() }
    }

    /// The bytes accepted so far.
    pub fn contents(&self) -> (r: &Vec<u8>)
        ensures
            r@ == self.written(),
    {
        &self.data
    }
}

impl ByteSink for MemSink {
    closed spec fn written(&self) -> Seq<u8> {
        self.data@
    }

    fn write(&mut self, buf: &Vec<u8>, offset: usize, len: usize) -> (r: Result<
        usize,
        IoError,
    >) {
        append_from(&mut self.data, buf, offset, len);
        Ok(len)
    }
}

/// A sink that accepts at most a fixed number of bytes per call: every write
/// beyond that bound comes back partial.
pub struct LimitedSink {
    data: Vec<u8>,
    per_call: usize,
}

impl LimitedSink {
    #[verifier::type_invariant]
    spec fn wf(self) -> bool {
        self.per_call >= 1
    }

    /// An empty sink accepting at most `per_call` bytes per write call.
    pub fn new(per_call: usize) -> (r: LimitedSink)
        requires
            per_call >= 1,
        ensures
            r.written() == Seq::<u8>::empty(),
    {
        LimitedSink { data: Vec::new(), per_call }
    }

    /// The bytes accepted so far.
    pub fn contents(&self) -> (r: &Vec<u8>)
        ensures
            r@ == self.written(),
    {
        &self.data
    }
}

impl ByteSink for LimitedSink {
    closed spec fn written(&self) -> Seq<u8> {
        self.data@
    }

    fn write(&mut self, buf: &Vec<u8>, offset: usize, len: usize) -> (r: Result<
        usize,
        IoError,
    >) {
        proof {
            use_type_invariant(&*self);
        }
        let n = if len < self.per_call {
            len
        } else {
            self.per_call
        };
        let mut data = Vec::new();
        std::mem::swap(&mut data, &mut self.data);
        append_from(&mut data, buf, offset, n);
        std::mem::swap(&mut data, &mut self.data);
        Ok(n)
    }
}

/// A sink that fails with the given error once its call budget is spent.
pub struct FaultySink {
    data: Vec<u8>,
    writes_left: usize,
    code: i32,
}

impl FaultySink {
    /// An empty sink that accepts at most `writes` calls, then fails every
    /// further call with the operating-system code `code`.
    pub fn new(writes: usize, code: i32) -> (r: FaultySink)
        ensures
            r.written() == Seq::<u8>::empty(),
    {
        FaultySink { data: Vec::new(), writes_left: writes, code }
    }

    /// The bytes accepted so far.
    pub fn contents(&self) -> (r: &Vec<u8>)
        ensures
            r@ == self.written(),
    {
        &self.data
    }
}

impl ByteSink for FaultySink {
    closed spec fn written(&self) -> Seq<u8> {
        self.data@
    }

    fn write(&mut self, buf: &Vec<u8>, offset: usize, len: usize) -> (r: Result<
        usize,
        IoError,
    >) {
        if self.writes_left == 0 {
            return Err(IoError { code: self.code });
        }
        self.writes_left = self.writes_left - 1;
        append_from(&mut self.data, buf, offset, len);
        Ok(len)
    }
}

/// A direct channel moving the bytes of a vector to an output vector, at most
/// a fixed number of bytes per call.
pub struct MemChannel {
    data: Vec<u8>,
    pos: usize,
    out: Vec<u8>,
    per_call: usize,
}

impl MemChannel {
    #[verifier::type_invariant]
    spec fn wf(self) -> bool {
        self.pos <= self.data@.len() && self.per_call >= 1
    }

    /// A channel that will move exactly `data`, at most `per_call` bytes per
    /// transfer call.
    pub fn new(data: Vec<u8>, per_call: usize) -> (r: MemChannel)
        requires
            per_call >= 1,
        ensures
            r.remaining() == data@,
            r.moved() == Seq::<u8>::empty(),
    {
        MemChannel { data, pos: 0, out: Vec::new(), per_call }
    }

    /// The bytes moved to the output endpoint so far.
    pub fn contents(&self) -> (r: &Vec<u8>)
        ensures
            r@ == self.moved(),
    {
        &self.out
    }
}

impl TransferChannel for MemChannel {
    closed spec fn remaining(&self) -> Seq<u8> {
        self.data@.skip(self.pos as int)
    }

    closed spec fn moved(&self) -> Seq<u8> {
        self.out@
    }

    fn transfer(&mut self, limit: usize) -> (r: Result<usize, IoError>) {
        proof {
            use_type_invariant(&*self);
        }
        let bound = if limit < self.per_call {
            limit
        } else {
            self.per_call
        };
        let avail = self.data.len() - self.pos;
        let n = if bound < avail {
            bound
        } else {
            avail
        };
        let mut out = Vec::new();
        std::mem::swap(&mut out, &mut self.out);
        append_from(&mut out, &self.data, self.pos, n);
        std::mem::swap(&mut out, &mut self.out);
        self.pos = self.pos + n;
        proof {
            assert(self.remaining() =~= old(self).remaining().skip(n as int));
            assert(old(self).remaining().take(n as int) =~= old(self).data@.subrange(
                old(self).pos as int,
                old(self).pos + n,
            ));
        }
        Ok(n)
    }
}

/// A channel that fails with the given error once its call budget is spent.
pub struct FaultyChannel {
    data: Vec<u8>,
    pos: usize,
    out: Vec<u8>,
    transfers_left: usize,
    code: i32,
}

impl FaultyChannel {
    #[verifier::type_invariant]
    spec fn wf(self) -> bool {
        self.pos <= self.data@.len()
    }

    /// A channel that serves at most `transfers` calls out of `data`, then
    /// fails every further call with the operating-system code `code`.
    pub fn new(data: Vec<u8>, transfers: usize, code: i32) -> (r: FaultyChannel)
        ensures
            r.remaining() == data@,
            r.moved() == Seq::<u8>::empty(),
    {
        FaultyChannel { data, pos: 0, out: Vec::new(), transfers_left: transfers, code }
    }

    /// The bytes moved to the output endpoint so far.
    pub fn contents(&self) -> (r: &Vec<u8>)
        ensures
            r@ == self.moved(),
    {
        &self.out
    }
}

impl TransferChannel for FaultyChannel {
    closed spec fn remaining(&self) -> Seq<u8> {
        self.data@.skip(self.pos as int)
    }

    closed spec fn moved(&self) -> Seq<u8> {
        self.out@
    }

    fn transfer(&mut self, limit: usize) -> (r: Result<usize, IoError>) {
        proof {
            use_type_invariant(&*self);
        }
        if self.transfers_left == 0 {
            return Err(IoError { code: self.code });
        }
        self.transfers_left = self.transfers_left - 1;
        let avail = self.data.len() - self.pos;
        let n = if limit < avail {
            limit
        } else {
            avail
        };
        let mut out = Vec::new();
        std::mem::swap(&mut out, &mut self.out);
        append_from(&mut out, &self.data, self.pos, n);
        std::mem::swap(&mut out, &mut self.out);
        self.pos = self.pos + n;
        proof {
            assert(self.remaining() =~= old(self).remaining().skip(n as int));
            assert(old(self).remaining().take(n as int) =~= old(self).data@.subrange(
                old(self).pos as int,
                old(self).pos + n,
            ));
        }
        Ok(n)
    }
}

/// Copy as many bytes as fit from `data[pos..]` into the front of `buf`,
/// returning the count; the rest of `buf` keeps its old contents.
#[verifier::loop_isolation(false)]
fn fill_from(data: &Vec<u8>, pos: usize, buf: &mut Vec<u8>) -> (n: usize)
    requires
        pos <= data@.len(),
    ensures
        n <= old(buf)@.len(),
        n <= data@.len() - pos,
        (n == 0 <==> (data@.len() - pos == 0 || old(buf)@.len() == 0)),
        final(buf)@ == data@.skip(pos as int).take(n as int) + old(buf)@.skip(n as int),
{
    let avail = data.len() - pos;
    let n = if buf.len() < avail {
        buf.len()
    } else {
        avail
    };
    let mut i: usize = 0;
    while i < n
        invariant
            i <= n,
            n <= buf@.len(),
            buf@.len() == old(buf)@.len(),
            pos + n <= data@.len(),
            forall|j: int| 0 <= j < i ==> buf@[j] == data@[pos + j],
            forall|j: int| i <= j < buf@.len() ==> buf@[j] == old(buf)@[j],
        decreases n - i,
    {
        buf[i] = data[pos + i];
        i = i + 1;
    }
    proof {
        assert(buf@ =~= data@.skip(pos as int).take(n as int) + old(buf)@.skip(n as int));
    }
    n
}

/// Append `buf[offset..offset + len]` to `out`.
#[verifier::loop_isolation(false)]
fn append_from(out: &mut Vec<u8>, buf: &Vec<u8>, offset: usize, len: usize)
    requires
        offset + len <= buf@.len(),
    ensures
        final(out)@ == old(out)@ + buf@.subrange(offset as int, offset + len),
{
    let blen = buf.len();
    let mut i: usize = 0;
    while i < len
        invariant
            i <= len,
            out@ == old(out)@ + buf@.subrange(offset as int, offset + i),
        decreases len - i,
    {
        proof {
            assert(offset + i < blen);
        }
        let b = buf[offset + i];
        out.push(b);
        proof {
            assert(out@ =~= old(out)@ + buf@.subrange(offset as int, offset + i + 1));
        }
        i = i + 1;
    }
}

} // verus!

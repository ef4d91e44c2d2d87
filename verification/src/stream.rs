//! The stream endpoints the copy engine runs over.
//!
//! Three capabilities, each with the contract the engine's proofs rest on:
//!
//! - [`ByteSource`]: a readable endpoint delivering a fixed sequence of bytes
//!   in order, with a read of zero bytes meaning end-of-stream;
//! - [`ByteSink`]: a writable endpoint that may accept fewer bytes per call
//!   than offered, but accepts them in order and loses none;
//! - [`TransferChannel`]: a source/sink pair whose bytes move directly from
//!   one endpoint to the other, as a kernel zero-copy primitive does.
//!
//! The crate provides in-memory implementations (module [`crate::sim`]);
//! callers outside the library may implement these traits over real
//! descriptors, and are then responsible for meeting the contracts.

use vstd::prelude::*;

use crate::error::IoError;

verus! {

/// A readable byte-stream endpoint.
pub trait ByteSource {
    /// The bytes this source still has to deliver, in order.
    spec fn remaining(&self) -> Seq<u8>;

    /// Read up to `buf.len()` bytes into the front of `buf`.
    ///
    /// Returns the number of bytes read. Zero bytes are read exactly when the
    /// source is exhausted or `buf` is empty (end-of-stream is a return of 0).
    /// On failure nothing is consumed and `buf` is unchanged.
    fn read(&mut self, buf: &mut Vec<u8>) -> (r: Result<usize, IoError>)
        ensures
            match r {
                Ok(n) => {
                    &&& n <= old(buf)@.len()
                    &&& n <= old(self).remaining().len()
                    &&& (n == 0 <==> (old(self).remaining().len() == 0 || old(buf)@.len()
                        == 0))
                    &&& final(buf)@ == old(self).remaining().take(n as int) + old(buf)@.skip(
                        n as int,
                    )
                    &&& final(self).remaining() == old(self).remaining().skip(n as int)
                },
                Err(_) => {
                    &&& final(self).remaining() == old(self).remaining()
                    &&& final(buf)@ == old(buf)@
                },
            },
    ;
}

/// A writable byte-stream endpoint.
pub trait ByteSink {
    /// All bytes this sink has accepted so far, in order.
    spec fn written(&self) -> Seq<u8>;

    /// Write bytes from `buf[offset..offset + len]`, possibly fewer than
    /// `len`.
    ///
    /// Returns the number of bytes accepted, at least one: a sink that can
    /// accept nothing more must fail instead. On failure nothing is accepted.
    fn write(&mut self, buf: &Vec<u8>, offset: usize, len: usize) -> (r: Result<
        usize,
        IoError,
    >)
        requires
            1 <= len,
            offset + len <= buf@.len(),
        ensures
            match r {
                Ok(n) => {
                    &&& 1 <= n <= len
                    &&& final(self).written() == old(self).written() + buf@.subrange(
                        offset as int,
                        offset + n,
                    )
                },
                Err(_) => final(self).written() == old(self).written(),
            },
    ;
}

/// A pair of endpoints whose bytes move directly from one to the other, the
/// shape of a kernel zero-copy transfer: the engine never sees the bytes.
pub trait TransferChannel {
    /// The bytes the input endpoint still has to deliver, in order.
    spec fn remaining(&self) -> Seq<u8>;

    /// All bytes moved to the output endpoint so far, in order.
    spec fn moved(&self) -> Seq<u8>;

    /// Move up to `limit` bytes from the input endpoint to the output
    /// endpoint.
    ///
    /// Returns the number of bytes moved; zero exactly when the input is
    /// exhausted (end-of-stream). On failure nothing moves.
    fn transfer(&mut self, limit: usize) -> (r: Result<usize, IoError>)
        requires
            1 <= limit,
        ensures
            match r {
                Ok(n) => {
                    &&& n <= limit
                    &&& n <= old(self).remaining().len()
                    &&& (n == 0 <==> old(self).remaining().len() == 0)
                    &&& final(self).moved() == old(self).moved() + old(self).remaining().take(
                        n as int,
                    )
                    &&& final(self).remaining() == old(self).remaining().skip(n as int)
                },
                Err(_) => {
                    &&& final(self).moved() == old(self).moved()
                    &&& final(self).remaining() == old(self).remaining()
                },
            },
    ;
}

} // verus!

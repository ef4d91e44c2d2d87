//! The copy engine: move every byte from an input endpoint to an output
//! endpoint, in order, with no loss, no duplication and no reordering, until
//! end-of-stream, advancing the shared counter by the bytes moved.
//!
//! Two interchangeable strategies share one contract: a zero-copy kernel
//! transfer over a [`TransferChannel`], and a buffered read/write loop over a
//! [`ByteSource`] and a [`ByteSink`]. Either returns successfully exactly when
//! the input is exhausted; the first I/O failure aborts the run and is handed
//! back unchanged. In every outcome the counter advances by exactly the bytes
//! that reached the output before the failing call, and the output holds
//! exactly that prefix of the input.

use vstd::prelude::*;

use crate::counter::ProgressCounter;
use crate::error::IoError;
use crate::stream::{ByteSink, ByteSource, TransferChannel};

verus! {

/// One full successful run delivers everything the input held, appended in
/// order to what the output already had.
pub open spec fn delivers(before: Seq<u8>, after: Seq<u8>, input: Seq<u8>) -> bool {
    after == before + input
}

/// Copy with the zero-copy strategy: ask the channel to move up to
/// `chunk_size` bytes per call until a call moves none (end-of-stream), adding
/// each call's count to `counter`.
///
/// On success the whole input reached the output and the counter advanced by
/// its length; on failure the counter advanced by exactly the bytes moved
/// strictly before the failing call, and the output holds exactly that prefix.
#[verifier::loop_isolation(false)]
pub fn splice_copy<C: TransferChannel, P: ProgressCounter>(
    channel: &mut C,
    counter: &mut P,
    chunk_size: usize,
) -> (r: Result<(), IoError>)
    requires
        1 <= chunk_size,
        old(counter).count() + old(channel).remaining().len() <= u64::MAX,
    ensures
        old(counter).count() <= final(counter).count(),
        final(counter).count() - old(counter).count() <= old(channel).remaining().len(),
        final(channel).moved() == old(channel).moved() + old(channel).remaining().take(
            final(counter).count() - old(counter).count(),
        ),
        final(channel).remaining() == old(channel).remaining().skip(
            final(counter).count() - old(counter).count(),
        ),
        r is Ok ==> final(counter).count() - old(counter).count() == old(channel).remaining().len(),
        r is Ok ==> delivers(old(channel).moved(), final(channel).moved(), old(channel).remaining()),
{
    loop
        invariant
            old(counter).count() <= counter.count(),
            counter.count() - old(counter).count() <= old(channel).remaining().len(),
            channel.moved() == old(channel).moved() + old(channel).remaining().take(
                counter.count() - old(counter).count(),
            ),
            channel.remaining() == old(channel).remaining().skip(counter.count() - old(counter).count()),
            counter.count() + channel.remaining().len() <= u64::MAX,
        decreases channel.remaining().len(),
    {
        let ghost pre = counter.count() - old(counter).count();
        match channel.transfer(chunk_size) {
            Ok(moved) => {
                if moved == 0 {
                    proof {
                        assert(old(channel).remaining().take(pre) =~= old(channel).remaining());
                    }
                    return Ok(());
                }
                counter.fetch_add(moved as u64);
                proof {
                    lemma_take_extend(old(channel).remaining(), pre, moved as int);
                }
            },
            Err(e) => {
                return Err(e);
            },
        }
    }
}

/// Copy with the buffered read/write strategy: read up to `chunk_size` bytes
/// into one reusable buffer, then keep writing from a running offset until the
/// whole chunk has been flushed — a single write may accept fewer bytes than
/// offered — adding each individual write's count to `counter`.
///
/// On success the whole input reached the output and the counter advanced by
/// its length; on failure the counter advanced by exactly the bytes written
/// strictly before the failing call, and the output holds exactly that prefix.
#[verifier::loop_isolation(false)]
pub fn rw_copy<R: ByteSource, W: ByteSink, P: ProgressCounter>(
    input: &mut R,
    output: &mut W,
    counter: &mut P,
    chunk_size: usize,
) -> (r: Result<(), IoError>)
    requires
        1 <= chunk_size,
        old(counter).count() + old(input).remaining().len() <= u64::MAX,
    ensures
        old(counter).count() <= final(counter).count(),
        final(counter).count() - old(counter).count() <= old(input).remaining().len(),
        final(output).written() == old(output).written() + old(input).remaining().take(
            final(counter).count() - old(counter).count(),
        ),
        exists|consumed: int|
            {
                &&& final(counter).count() - old(counter).count() <= consumed <= old(
                    input,
                ).remaining().len()
                &&& final(input).remaining() == old(input).remaining().skip(consumed)
            },
        r is Ok ==> final(counter).count() - old(counter).count() == old(input).remaining().len(),
        r is Ok ==> final(input).remaining().len() == 0,
        r is Ok ==> delivers(old(output).written(), final(output).written(), old(input).remaining()),
{
    let mut buffer: Vec<u8> = Vec::new();
    let mut i: usize = 0;
    while i < chunk_size
        invariant
            i <= chunk_size,
            buffer@.len() == i,
        decreases chunk_size - i,
    {
        buffer.push(0u8);
        i = i + 1;
    }
    loop
        invariant
            buffer@.len() == chunk_size,
            old(counter).count() <= counter.count(),
            counter.count() - old(counter).count() <= old(input).remaining().len(),
            input.remaining() == old(input).remaining().skip(counter.count() - old(counter).count()),
            output.written() == old(output).written() + old(input).remaining().take(
                counter.count() - old(counter).count(),
            ),
            counter.count() + input.remaining().len() <= u64::MAX,
        decreases input.remaining().len(),
    {
        let ghost done = counter.count() - old(counter).count();
        let ghost rem = input.remaining();
        let n = match input.read(&mut buffer) {
            Ok(n) => n,
            Err(e) => {
                proof {
                    assert(input.remaining() == old(input).remaining().skip(done));
                }
                return Err(e);
            },
        };
        if n == 0 {
            proof {
                assert(old(input).remaining().take(done) =~= old(input).remaining());
                assert(input.remaining() == old(input).remaining().skip(done));
            }
            return Ok(());
        }
        proof {
            assert(buffer@.take(n as int) =~= rem.take(n as int));
            assert(rem.take(n as int) =~= old(input).remaining().subrange(done, done + n));
        }
        let mut offset: usize = 0;
        let mut left: usize = n;
        while left > 0
            invariant
                1 <= n <= chunk_size,
                offset + left == n,
                buffer@.len() == chunk_size,
                counter.count() - old(counter).count() == done + offset,
                done + n <= old(input).remaining().len(),
                buffer@.take(n as int) == old(input).remaining().subrange(done, done + n),
                input.remaining() == old(input).remaining().skip(done + n),
                output.written() == old(output).written() + old(input).remaining().take(
                    done + offset,
                ),
                counter.count() + left + input.remaining().len() <= u64::MAX,
            decreases left,
        {
            let written = match output.write(&buffer, offset, left) {
                Ok(w) => w,
                Err(e) => {
                    proof {
                        assert(input.remaining() == old(input).remaining().skip(done + n));
                    }
                    return Err(e);
                },
            };
            proof {
                assert(buffer@.subrange(offset as int, offset + written) =~= old(
                    input,
                ).remaining().subrange(done + offset, done + offset + written));
                lemma_take_extend(old(input).remaining(), done + offset, written as int);
            }
            offset = offset + written;
            left = left - written;
            counter.fetch_add(written as u64);
        }
    }
}

/// Extending a taken prefix by the next `n` elements takes the longer prefix.
proof fn lemma_take_extend(s: Seq<u8>, k: int, n: int)
    requires
        0 <= k,
        0 <= n,
        k + n <= s.len(),
    ensures
        s.take(k) + s.subrange(k, k + n) == s.take(k + n),
{
    assert(s.take(k) + s.subrange(k, k + n) =~= s.take(k + n));
}

} // verus!

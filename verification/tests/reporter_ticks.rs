use bytepump::counter::ByteCounter;
use bytepump::engine::rw_copy;
use bytepump::error::IoError;
use bytepump::reporter::{RateSample, Reporter};
use bytepump::sim::{MemSink, MemSource};

#[test]
fn first_change_renders_over_one_tick() {
    let mut rep = Reporter::new();
    let sample = rep.tick(1000).expect("count changed, a sample is due");
    assert_eq!(sample, RateSample { bytes: 1000, ticks: 1 });
}

#[test]
fn unchanged_count_renders_nothing() {
    let mut rep = Reporter::new();
    assert!(rep.tick(0).is_none());
    assert!(rep.tick(0).is_none());
}

#[test]
fn stall_stretches_the_averaging_window() {
    // A burst, then three silent ticks, then another burst: the second sample
    // averages over the whole stretch since the count last changed.
    let mut rep = Reporter::new();
    assert_eq!(rep.tick(500), Some(RateSample { bytes: 500, ticks: 1 }));
    assert!(rep.tick(500).is_none());
    assert!(rep.tick(500).is_none());
    assert!(rep.tick(500).is_none());
    assert_eq!(rep.tick(900), Some(RateSample { bytes: 400, ticks: 4 }));
    assert_eq!(rep.tick(1000), Some(RateSample { bytes: 100, ticks: 1 }));
}

#[test]
fn reporter_does_not_alter_engine_output() {
    // The same copy, once with no reporter activity and once with a reporter
    // polling the counter around it: output and final count are identical,
    // and ticking moves the counter not at all.
    let data: Vec<u8> = (0u8..=255).cycle().take(3000).collect();

    let mut src = MemSource::new(data.clone());
    let mut sink = MemSink::new();
    let mut ctr = ByteCounter::new();
    let plain: Result<(), IoError> = rw_copy(&mut src, &mut sink, &mut ctr, 32);
    assert!(plain.is_ok());
    let plain_out = sink.contents().clone();
    let plain_count = ctr.load();

    let mut rep = Reporter::new();
    let mut src = MemSource::new(data);
    let mut sink = MemSink::new();
    let mut ctr = ByteCounter::new();
    assert!(rep.tick(ctr.load()).is_none());
    let observed: Result<(), IoError> = rw_copy(&mut src, &mut sink, &mut ctr, 32);
    assert!(observed.is_ok());
    let before = ctr.load();
    rep.tick(ctr.load());
    rep.tick(ctr.load());
    assert_eq!(ctr.load(), before);
    assert_eq!(sink.contents().clone(), plain_out);
    assert_eq!(ctr.load(), plain_count);
}

#[test]
fn error_code_is_kept() {
    let e = IoError::from_os_code(32);
    assert_eq!(e.code, 32);
}

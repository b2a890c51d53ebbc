use hyper_evm_sync::applier::Applier;
use hyper_evm_sync::chain::Chain;
use hyper_evm_sync::config::{resolve_start_block, TESTNET_BLOCK_THRESHOLD};
use hyper_evm_sync::error::SyncError;
use hyper_evm_sync::plan::{chunk_batches, chunk_boundary_of, read_window_end, read_windows};
use hyper_evm_sync::run::{next_phase, RunEvent, RunPhase};

/// Runs the reader's plan and the processor over `[start, end]`, returning the
/// snapshot points and the most blocks resident at once.
fn replay(start: u64, end: u64, limit: u64, chunk: u64, snapshots: bool) -> (Applier, Vec<u64>, u64) {
    let mut applier = Applier::new(start, chunk, snapshots);
    let mut points = Vec::new();
    let mut most_resident = 0;
    let windows = read_windows(start, end, limit);
    let mut queued: u64 = 0;
    for (lo, hi) in windows {
        let reading = hi - lo + 1;
        most_resident = most_resident.max(queued + reading);
        queued = reading;
        for (_key, first, last) in chunk_batches(lo, hi, chunk) {
            let numbers: Vec<u64> = (first..=last).collect();
            points.extend(applier.apply_blocks(&numbers).unwrap());
        }
    }
    (applier, points, most_resident)
}

#[test]
fn out_of_order_block_is_rejected() {
    let mut a = Applier::new(10, 1000, false);
    assert_eq!(a.apply_block(11), Err(SyncError::State { expected: 10, found: 11 }));
    assert_eq!(a.next_block, 10);
    assert_eq!(a.apply_block(10), Ok(false));
    assert_eq!(a.next_block, 11);
}

#[test]
fn reapplied_block_is_rejected() {
    let mut a = Applier::new(1, 1000, false);
    assert_eq!(a.apply_blocks(&vec![1, 2, 3]), Ok(vec![]));
    assert_eq!(a.next_block, 4);
    assert_eq!(a.apply_block(3), Err(SyncError::State { expected: 4, found: 3 }));
}

#[test]
fn batch_with_gap_stops_at_gap() {
    let mut a = Applier::new(1, 2, true);
    assert_eq!(a.apply_blocks(&vec![1, 2, 4]), Err(SyncError::State { expected: 3, found: 4 }));
    assert_eq!(a.next_block, 3);
}

#[test]
fn snapshot_due_only_at_boundary() {
    let mut a = Applier::new(999, 1000, true);
    assert_eq!(a.apply_block(999), Ok(false));
    assert_eq!(a.apply_block(1000), Ok(true));
    assert_eq!(a.apply_block(1001), Ok(false));
}

#[test]
fn snapshots_after_1000_and_2000_only() {
    let (applier, points, _) = replay(1, 2500, 700, 1000, true);
    assert_eq!(points, vec![1000, 2000]);
    assert_eq!(applier.next_block, 2501);
}

#[test]
fn snapshot_cadence_ignores_read_limit() {
    let (_, a, _) = replay(1, 2500, 1, 1000, true);
    let (_, b, _) = replay(1, 2500, 100000, 1000, true);
    assert_eq!(a, b);
}

#[test]
fn resident_blocks_stay_under_twice_the_limit() {
    let limit = 100;
    let (_, _, most) = replay(1, 1050, limit, 1000, false);
    assert!(most <= 2 * limit);
    assert_eq!(most, 2 * limit);
}

#[test]
fn read_windows_cover_range() {
    assert_eq!(read_windows(1, 250, 100), vec![(1, 100), (101, 200), (201, 250)]);
    assert_eq!(read_windows(5, 5, 100), vec![(5, 5)]);
    assert_eq!(read_windows(6, 5, 100), vec![]);
    assert_eq!(read_windows(u64::MAX - 1, u64::MAX, 1), vec![(u64::MAX - 1, u64::MAX - 1), (u64::MAX, u64::MAX)]);
    assert_eq!(read_window_end(1, 10, 3), 3);
    assert_eq!(read_window_end(9, 10, 3), 10);
}

#[test]
fn chunk_batches_end_at_boundaries() {
    assert_eq!(
        chunk_batches(995, 2005, 1000),
        vec![(1000, 995, 1000), (2000, 1001, 2000), (3000, 2001, 2005)]
    );
    assert_eq!(chunk_batches(1000, 1000, 1000), vec![(1000, 1000, 1000)]);
    assert_eq!(chunk_batches(3, 2, 1000), vec![]);
    assert_eq!(chunk_boundary_of(1, 1000), 1000);
    assert_eq!(chunk_boundary_of(2000, 1000), 2000);
}

#[test]
fn end_to_end_three_blocks_from_genesis() {
    let mut phase = next_phase(RunPhase::Uninitialized, RunEvent::Started).unwrap();
    let start = resolve_start_block(Chain::Mainnet, None, TESTNET_BLOCK_THRESHOLD).unwrap();
    assert_eq!(start, 1);
    phase = next_phase(phase, RunEvent::StateLoaded).unwrap();
    assert_eq!(phase, RunPhase::Hashing);
    phase = next_phase(phase, RunEvent::DigestReported).unwrap();
    assert_eq!(phase, RunPhase::Streaming);
    let (applier, points, _) = replay(start, 3, 100000, 1000, false);
    assert_eq!(applier.next_block, 4);
    assert!(points.is_empty());
    phase = next_phase(phase, RunEvent::ReaderFinished).unwrap();
    phase = next_phase(phase, RunEvent::ProcessorFinished).unwrap();
    assert_eq!(phase, RunPhase::Completed);
}

#[test]
fn fault_fails_run_and_ended_run_takes_no_events() {
    assert_eq!(next_phase(RunPhase::Streaming, RunEvent::Fault), Some(RunPhase::Failed));
    assert_eq!(next_phase(RunPhase::Failed, RunEvent::Started), None);
    assert_eq!(next_phase(RunPhase::Completed, RunEvent::Fault), None);
    assert_eq!(next_phase(RunPhase::Hashing, RunEvent::ReaderFinished), None);
}

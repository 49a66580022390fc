//! Whole operators on a quota: a tracker and a backend in memory, and the
//! loops that take the library's steps.
use std::cell::{Cell, RefCell};
use std::collections::HashMap;
use std::rc::Rc;

use opendal::{Error, ErrorKind};
use quota_layer::{
    AbortStep, QuotaAccessor, QuotaLayer, QuotaState, QuotaWriter, ReserveStep, Start, WriteStep,
};

/// Keeps totals in memory, counts its calls, and fails them on demand.
#[derive(Default)]
struct MemoryTracker {
    totals: RefCell<HashMap<String, u64>>,
    gets: Cell<u32>,
    sets: Cell<u32>,
    get_fails: Cell<bool>,
    set_fails: Cell<bool>,
}

impl MemoryTracker {
    fn get_bytes_written(&self, id: &str) -> Result<u64, Error> {
        self.gets.set(self.gets.get() + 1);
        if self.get_fails.get() {
            return Err(Error::new(ErrorKind::Unexpected, "get failed"));
        }
        Ok(*self.totals.borrow().get(id).unwrap_or(&0))
    }

    fn set_bytes_written(&self, id: &str, bytes: u64) -> Result<(), Error> {
        self.sets.set(self.sets.get() + 1);
        if self.set_fails.get() {
            return Err(Error::new(ErrorKind::Unexpected, "set failed"));
        }
        self.totals.borrow_mut().insert(id.to_string(), bytes);
        Ok(())
    }

    fn total(&self, id: &str) -> u64 {
        *self.totals.borrow().get(id).unwrap_or(&0)
    }
}

type Shared = Rc<MemoryTracker>;

fn reserve(state: &QuotaState<Shared>, len: u64) -> Result<(), Error> {
    match state.reserve(len) {
        Start::Done => return Ok(()),
        Start::Lock => {}
    }
    let mut cache = state.cache().try_lock().unwrap();
    let mut step = state.reserve_locked(&mut cache, len);
    loop {
        step = match step {
            ReserveStep::Fetch { id } => {
                let reply = state.tracker().get_bytes_written(id);
                state.reserve_fetched(&mut cache, len, reply)
            }
            ReserveStep::Store { id, total } => {
                let reply = state.tracker().set_bytes_written(id, total);
                return state.reserve_stored(&mut cache, total, reply);
            }
            ReserveStep::Done(result) => return result,
        };
    }
}

fn release(state: &QuotaState<Shared>, len: u64) {
    match state.release(len) {
        Start::Done => return,
        Start::Lock => {}
    }
    let mut cache = state.cache().try_lock().unwrap();
    let step = state.release_locked(&cache, len);
    let total = step.total;
    let reply = state.tracker().set_bytes_written(step.id, total);
    state.release_stored(&mut cache, total, reply);
}

/// A backend writer that takes chunks, or fails on demand.
#[derive(Default)]
struct Sink {
    written: Vec<u8>,
    fails: bool,
}

impl Sink {
    fn answer(&self) -> Result<(), Error> {
        if self.fails {
            Err(Error::new(ErrorKind::Unexpected, "backend failed"))
        } else {
            Ok(())
        }
    }
}

type Writer = QuotaWriter<Sink, Shared>;

fn write_chunk(writer: &mut Writer, chunk: &str) -> Result<(), Error> {
    let mut step = writer.write(chunk.len());
    loop {
        step = match step {
            WriteStep::Reserve { len } => {
                let reply = reserve(writer.state(), len);
                writer.write_reserved(len, reply)
            }
            WriteStep::Forward { len } => {
                let sink = writer.inner_mut();
                let reply = sink.answer();
                if reply.is_ok() {
                    sink.written.extend_from_slice(chunk.as_bytes());
                }
                writer.write_forwarded(len, reply)
            }
            WriteStep::Release { len, cause } => {
                release(writer.state(), len);
                return Err(cause);
            }
            WriteStep::Done(result) => return result,
        };
    }
}

fn close(writer: &mut Writer) -> Result<usize, Error> {
    let sink = writer.inner_mut();
    let size = sink.written.len();
    let reply = sink.answer().map(|_| size);
    writer.close(reply)
}

fn abort(writer: &mut Writer) -> Result<(), Error> {
    let reply = writer.inner_mut().answer();
    match writer.abort(reply) {
        AbortStep::Release { len } => {
            release(writer.state(), len);
            Ok(())
        }
        AbortStep::Done(result) => result,
    }
}

/// An operator whose paths all open fresh sinks.
struct Operator(QuotaAccessor<&'static str, Shared>);

impl Operator {
    fn writer(&self, path: &str) -> Result<Writer, Error> {
        let opened: Result<(String, Sink), Error> = Ok((path.to_string(), Sink::default()));
        let (details, writer) = self.0.write(opened)?;
        assert_eq!(details, path);
        Ok(writer)
    }

    fn write(&self, path: &str, data: &str) -> Result<usize, Error> {
        let mut writer = self.writer(path)?;
        write_chunk(&mut writer, data)?;
        close(&mut writer)
    }
}

fn build_op(id: &str, tracker: Shared, limit: u64) -> Operator {
    Operator(QuotaLayer::new(id.to_string(), tracker, limit).layer("memory"))
}

fn cached(op: &Operator) -> Option<u64> {
    *op.0.state().cache().try_lock().unwrap()
}

#[test]
fn writes_within_quota_succeed_and_are_tracked() {
    let tracker = Shared::default();
    let op = build_op("tenant-a", tracker.clone(), 1024);

    op.write("a.txt", "hello world").unwrap();
    assert_eq!(
        tracker.get_bytes_written("tenant-a").unwrap(),
        "hello world".len() as u64
    );

    op.write("b.txt", "more data here").unwrap();
    assert_eq!(
        tracker.get_bytes_written("tenant-a").unwrap(),
        ("hello world".len() + "more data here".len()) as u64
    );
}

#[test]
fn write_exceeding_quota_is_rejected() {
    let tracker = Shared::default();
    let op = build_op("tenant-b", tracker.clone(), 10);

    let err = op
        .write("too-big.txt", "this is way more than 10 bytes")
        .unwrap_err();
    assert_eq!(err.kind(), ErrorKind::RateLimited);

    // Nothing should have been charged for the rejected write.
    assert_eq!(tracker.get_bytes_written("tenant-b").unwrap(), 0);
}

#[test]
fn quota_persists_across_separate_operators_with_same_id() {
    let tracker = Shared::default();

    let op1 = build_op("tenant-c", tracker.clone(), 20);
    op1.write("a.txt", "0123456789").unwrap(); // 10 bytes

    // A brand new operator instance, same id, same backing tracker:
    // simulates a process restart that re-warms from the store.
    let op2 = build_op("tenant-c", tracker.clone(), 20);
    op2.write("b.txt", "0123456789").unwrap(); // another 10 bytes, at the limit

    let err = op2.write("c.txt", "x").unwrap_err();
    assert_eq!(err.kind(), ErrorKind::RateLimited);

    assert_eq!(tracker.get_bytes_written("tenant-c").unwrap(), 20);
}

#[test]
fn aborted_write_releases_its_reservation() {
    let tracker = Shared::default();
    let op = build_op("tenant-f", tracker.clone(), 10);

    let mut w = op.writer("a.txt").unwrap();
    write_chunk(&mut w, "12345").unwrap(); // 5/10 bytes reserved
    assert_eq!(tracker.get_bytes_written("tenant-f").unwrap(), 5);

    abort(&mut w).unwrap();
    // The reservation should have been given back since the data was never
    // actually finalized.
    assert_eq!(tracker.get_bytes_written("tenant-f").unwrap(), 0);

    // Confirm the full limit is usable again afterwards.
    op.write("b.txt", "0123456789").unwrap();
    assert_eq!(tracker.get_bytes_written("tenant-f").unwrap(), 10);
}

#[test]
fn different_ids_have_independent_quotas() {
    let tracker = Shared::default();
    let op_a = build_op("tenant-d", tracker.clone(), 5);
    let op_e = build_op("tenant-e", tracker.clone(), 5);

    op_a.write("a.txt", "12345").unwrap();
    assert!(op_a.write("a2.txt", "x").is_err());

    // tenant-e's quota is untouched by tenant-d's usage.
    op_e.write("e.txt", "12345").unwrap();
}

#[test]
fn new_layer_is_cold_and_keeps_its_settings() {
    let layer = QuotaLayer::new("tenant-a".to_string(), 7u8, 1024);
    let accessor = layer.clone().layer("inner");
    assert_eq!(*accessor.inner(), "inner");
    assert_eq!(accessor.state().id(), "tenant-a");
    assert_eq!(accessor.state().limit(), 1024);
    assert_eq!(*accessor.state().tracker(), 7);
    assert_eq!(*accessor.state().cache().try_lock().unwrap(), None);
}

#[test]
fn clones_and_accessors_share_one_cache() {
    let layer = QuotaLayer::new("shared".to_string(), Shared::default(), 10);
    let one = Operator(layer.layer("one"));
    let two = Operator(layer.clone().layer("two"));
    one.write("a", "123456").unwrap();
    assert_eq!(cached(&two), Some(6));
    assert!(two.write("b", "12345").is_err());
    two.write("b", "1234").unwrap();
    assert_eq!(cached(&one), Some(10));
}

#[test]
fn failure_to_open_a_writer_is_passed_on() {
    let op = build_op("tenant", Shared::default(), 10);
    let refused: Result<((), Sink), Error> =
        Err(Error::new(ErrorKind::PermissionDenied, "no entry"));
    let err = op.0.write(refused).err().unwrap();
    assert_eq!(err.kind(), ErrorKind::PermissionDenied);
    assert_eq!(err.message(), "no entry");
}

#[test]
fn empty_write_makes_no_tracker_calls() {
    let tracker = Shared::default();
    let op = build_op("tenant", tracker.clone(), 0);
    op.write("empty", "").unwrap();
    assert_eq!((tracker.gets.get(), tracker.sets.get()), (0, 0));
    assert_eq!(cached(&op), None);
}

#[test]
fn warm_cache_is_not_fetched_again() {
    let tracker = Shared::default();
    let op = build_op("tenant", tracker.clone(), 10);
    op.write("a", "123").unwrap();
    op.write("b", "456").unwrap();
    assert!(op.write("c", "78901").is_err());
    op.write("d", "7890").unwrap();
    assert_eq!(tracker.gets.get(), 1);
    assert_eq!(tracker.sets.get(), 3);
    assert_eq!(tracker.total("tenant"), 10);
}

#[test]
fn rejection_warms_a_cold_cache() {
    let tracker = Shared::default();
    tracker.set_bytes_written("tenant", 8).unwrap();
    let op = build_op("tenant", tracker.clone(), 10);
    assert!(op.write("a", "123").is_err());
    assert_eq!(cached(&op), Some(8));
    assert_eq!(tracker.total("tenant"), 8);
}

#[test]
fn failed_fetch_is_reported_and_leaves_the_cache_cold() {
    let tracker = Shared::default();
    tracker.get_fails.set(true);
    let op = build_op("tenant", tracker.clone(), 10);
    let err = op.write("a", "123").unwrap_err();
    assert_eq!(err.message(), "get failed");
    assert_eq!(cached(&op), None);

    tracker.get_fails.set(false);
    op.write("a", "123").unwrap();
    assert_eq!(cached(&op), Some(3));
}

#[test]
fn failed_store_is_reported_and_charges_nothing() {
    let tracker = Shared::default();
    tracker.set_bytes_written("tenant", 2).unwrap();
    let op = build_op("tenant", tracker.clone(), 10);
    tracker.set_fails.set(true);
    let err = op.write("a", "123").unwrap_err();
    assert_eq!(err.message(), "set failed");
    // The fetched total stays, and is not fetched again.
    assert_eq!(cached(&op), Some(2));
    assert_eq!(tracker.gets.get(), 1);

    tracker.set_fails.set(false);
    op.write("a", "123").unwrap();
    assert_eq!(tracker.gets.get(), 1);
    tracker.set_fails.set(true);
    assert!(op.write("b", "4").is_err());
    assert_eq!(cached(&op), Some(5));
    assert_eq!(tracker.total("tenant"), 5);
}

#[test]
fn largest_limit_is_a_limit_too() {
    let tracker = Shared::default();
    tracker.set_bytes_written("tenant", u64::MAX).unwrap();
    tracker.sets.set(0);
    let op = build_op("tenant", tracker.clone(), u64::MAX);
    let err = op.write("a", "x").unwrap_err();
    assert_eq!(err.kind(), ErrorKind::RateLimited);
    assert_eq!(tracker.sets.get(), 0);
    assert_eq!(cached(&op), Some(u64::MAX));
}

#[test]
fn totals_add_up_over_interleaved_writers() {
    let tracker = Shared::default();
    tracker.set_bytes_written("tenant", 3).unwrap();
    let op = build_op("tenant", tracker.clone(), 20);
    let mut one = op.writer("a").unwrap();
    let mut two = op.writer("b").unwrap();
    let mut granted = 0;
    for chunk in ["12345", "1234567", "", "123456789", "12", "1234"] {
        for writer in [&mut one, &mut two] {
            if write_chunk(writer, chunk).is_ok() {
                granted += chunk.len() as u64;
            }
        }
    }
    close(&mut one).unwrap();
    close(&mut two).unwrap();
    assert_eq!(granted, 17);
    assert_eq!(tracker.total("tenant"), 3 + granted);
    assert_eq!(cached(&op), Some(20));
}

#[test]
fn failed_backend_write_gives_the_quota_back() {
    let tracker = Shared::default();
    let op = build_op("tenant", tracker.clone(), 10);
    let mut w = op.writer("a").unwrap();
    write_chunk(&mut w, "1234").unwrap();
    w.inner_mut().fails = true;
    let err = write_chunk(&mut w, "567").unwrap_err();
    assert_eq!(err.message(), "backend failed");
    assert_eq!(w.reserved(), 4);
    assert_eq!(tracker.total("tenant"), 4);
    assert_eq!(cached(&op), Some(4));
}

#[test]
fn release_counts_even_if_the_tracker_fails() {
    let tracker = Shared::default();
    let op = build_op("tenant", tracker.clone(), 10);
    let mut w = op.writer("a").unwrap();
    write_chunk(&mut w, "1234").unwrap();
    tracker.set_fails.set(true);
    abort(&mut w).unwrap();
    assert_eq!(tracker.total("tenant"), 4);
    assert_eq!(cached(&op), Some(0));
    assert_eq!(w.reserved(), 0);
}

#[test]
fn closed_bytes_are_not_released() {
    let tracker = Shared::default();
    let op = build_op("tenant", tracker.clone(), 10);
    let mut w = op.writer("a").unwrap();
    write_chunk(&mut w, "1234").unwrap();
    assert_eq!(close(&mut w).unwrap(), 4);
    assert_eq!(w.reserved(), 0);
    abort(&mut w).unwrap();
    assert_eq!(tracker.total("tenant"), 4);
}

#[test]
fn failed_close_and_failed_abort_keep_the_reservation() {
    let tracker = Shared::default();
    let op = build_op("tenant", tracker.clone(), 10);
    let mut w = op.writer("a").unwrap();
    write_chunk(&mut w, "1234").unwrap();
    w.inner_mut().fails = true;
    assert_eq!(close(&mut w).unwrap_err().message(), "backend failed");
    assert_eq!(w.reserved(), 4);
    assert_eq!(abort(&mut w).unwrap_err().message(), "backend failed");
    assert_eq!(w.reserved(), 4);
    assert_eq!(tracker.total("tenant"), 4);

    w.inner_mut().fails = false;
    abort(&mut w).unwrap();
    assert_eq!(tracker.total("tenant"), 0);
}

#[test]
fn abort_gives_back_one_writers_share_only() {
    let tracker = Shared::default();
    let op = build_op("tenant", tracker.clone(), 10);
    let mut one = op.writer("a").unwrap();
    let mut two = op.writer("b").unwrap();
    write_chunk(&mut one, "12").unwrap();
    write_chunk(&mut two, "345").unwrap();
    write_chunk(&mut one, "6").unwrap();
    abort(&mut one).unwrap();
    assert_eq!(tracker.total("tenant"), 3);
    assert_eq!(close(&mut two).unwrap(), 3);
    assert_eq!(cached(&op), Some(3));
}

#[test]
fn interleaved_calls_with_a_failing_tracker_keep_the_total_right() {
    let tracker = Shared::default();
    let op = build_op("tenant", tracker.clone(), 10);
    let mut one = op.writer("a").unwrap();
    let mut two = op.writer("b").unwrap();
    write_chunk(&mut one, "123").unwrap();
    tracker.set_fails.set(true);
    assert!(write_chunk(&mut two, "45").is_err());
    abort(&mut one).unwrap();
    assert_eq!(cached(&op), Some(0));
    assert_eq!(tracker.total("tenant"), 3);

    tracker.set_fails.set(false);
    write_chunk(&mut two, "45").unwrap();
    assert_eq!(cached(&op), Some(2));
    assert_eq!(tracker.total("tenant"), 2);
    assert_eq!((one.reserved(), two.reserved()), (0, 2));
}

//! The diagnostics sink: a fixed-capacity ring of log records that keeps the
//! newest ones.
use vstd::prelude::*;
use heapless::spsc::Queue;

verus! {

/// One log record: a fixed-size value, so that logging never allocates.
#[derive(Clone, Copy, Debug)]
pub struct LogEntry {
    /// Milliseconds since boot.
    pub timestamp: u64,
    pub level: &'static str,
    pub message: &'static str,
}

impl LogEntry {
    pub fn new(t: u64, lvl: &'static str, msg: &'static str) -> (r: Self)
        ensures
            r.timestamp == t,
            r.level == lvl,
            r.message == msg,
    {
        LogEntry { timestamp: t, level: lvl, message: msg }
    }
}

/// The records held by a queue, oldest first.
pub uninterp spec fn log_queue_items(q: Queue<LogEntry, 256>) -> Seq<LogEntry>;

/// Number of records the ring holds at most.
pub const LOG_CAPACITY: usize = 255;

/// Relies on `heapless::spsc::Queue::new`: a new queue holds nothing.
#[verifier::external_body]
fn new_log_queue() -> (q: Queue<LogEntry, 256>)
    ensures
        log_queue_items(q) == Seq::<LogEntry>::empty(),
{
    Queue::new()
}

/// Relies on `heapless::spsc::Queue::enqueue`: the item goes to the back
/// unless `N - 1` items are held; then it is handed back and nothing changes.
/// It does not panic.
#[verifier::external_body]
fn enqueue_log(q: &mut Queue<LogEntry, 256>, e: LogEntry) -> (r: Result<(), LogEntry>)
    ensures
        r is Ok <==> log_queue_items(*old(q)).len() < 255,
        r is Ok ==> log_queue_items(*final(q)) == log_queue_items(*old(q)).push(e),
        r is Err ==> r->Err_0 == e && log_queue_items(*final(q)) == log_queue_items(*old(q)),
    no_unwind
{
    q.enqueue(e)
}

/// Relies on `heapless::spsc::Queue::dequeue`: takes the front item, or
/// returns `None` and changes nothing when the queue is empty; it does not
/// panic.
#[verifier::external_body]
fn dequeue_log(q: &mut Queue<LogEntry, 256>) -> (r: Option<LogEntry>)
    ensures
        log_queue_items(*old(q)).len() == 0 ==> r is None && log_queue_items(*final(q))
            == log_queue_items(*old(q)),
        log_queue_items(*old(q)).len() > 0 ==> r == Some(log_queue_items(*old(q))[0])
            && log_queue_items(*final(q)) == log_queue_items(*old(q)).drop_first(),
    no_unwind
{
    q.dequeue()
}

/// Relies on `heapless::spsc::Queue::len`: the number of items held.
#[verifier::external_body]
fn log_queue_len(q: &Queue<LogEntry, 256>) -> (r: usize)
    ensures
        r == log_queue_items(*q).len(),
{
    q.len()
}

/// A bounded log buffer; when full, a new record evicts the oldest one.
pub struct LogQueue {
    queue: Queue<LogEntry, 256>,
}

impl View for LogQueue {
    type V = Seq<LogEntry>;

    closed spec fn view(&self) -> Seq<LogEntry> {
        log_queue_items(self.queue)
    }
}

impl LogQueue {
    /// Never more than `LOG_CAPACITY` records.
    #[verifier::type_invariant]
    spec fn within_capacity(&self) -> bool {
        log_queue_items(self.queue).len() <= LOG_CAPACITY
    }

    /// An empty buffer.
    pub fn new() -> (r: Self)
        ensures
            r@ == Seq::<LogEntry>::empty(),
    {
        LogQueue { queue: new_log_queue() }
    }

    /// Appends `entry`, dropping the oldest record first when the buffer is
    /// full.
    pub fn push(&mut self, entry: LogEntry)
        ensures
            old(self)@.len() < LOG_CAPACITY ==> final(self)@ == old(self)@.push(entry),
            old(self)@.len() >= LOG_CAPACITY ==> final(self)@ == old(self)@.drop_first().push(
                entry,
            ),
    {
        proof {
            use_type_invariant(&*self);
        }
        if enqueue_log(&mut self.queue, entry).is_err() {
            dequeue_log(&mut self.queue);
            let _ = enqueue_log(&mut self.queue, entry);
        }
    }

    /// Takes the oldest record, or `None` when the buffer is empty.
    pub fn pop(&mut self) -> (r: Option<LogEntry>)
        ensures
            old(self)@.len() == 0 ==> r is None && final(self)@ == old(self)@,
            old(self)@.len() > 0 ==> r == Some(old(self)@[0]) && final(self)@ == old(
                self,
            )@.drop_first(),
    {
        proof {
            use_type_invariant(&*self);
        }
        dequeue_log(&mut self.queue)
    }

    /// The number of records held, at most `LOG_CAPACITY`.
    pub fn len(&self) -> (r: usize)
        ensures
            r == self@.len(),
            r <= LOG_CAPACITY,
    {
        proof {
            use_type_invariant(self);
        }
        log_queue_len(&self.queue)
    }
}

/// Records `entry` in `logs`; callable from interrupt context, as it neither
/// blocks nor allocates.
pub fn log_from_isr(logs: &mut LogQueue, entry: LogEntry)
    ensures
        old(logs)@.len() < LOG_CAPACITY ==> final(logs)@ == old(logs)@.push(entry),
        old(logs)@.len() >= LOG_CAPACITY ==> final(logs)@ == old(logs)@.drop_first().push(entry),
{
    logs.push(entry);
}

/// Records a message with its level, stamped with `timestamp`.
pub fn log(logs: &mut LogQueue, timestamp: u64, level: &'static str, msg: &'static str)
    ensures
        ({
            let e = LogEntry { timestamp, level, message: msg };
            &&& old(logs)@.len() < LOG_CAPACITY ==> final(logs)@ == old(logs)@.push(e)
            &&& old(logs)@.len() >= LOG_CAPACITY ==> final(logs)@ == old(logs)@.drop_first().push(
                e,
            )
        }),
{
    log_from_isr(logs, LogEntry::new(timestamp, level, msg));
}

/// Takes the oldest record, for the reader of the log.
pub fn pop_log(logs: &mut LogQueue) -> (r: Option<LogEntry>)
    ensures
        old(logs)@.len() == 0 ==> r is None && final(logs)@ == old(logs)@,
        old(logs)@.len() > 0 ==> r == Some(old(logs)@[0]) && final(logs)@ == old(logs)@.drop_first(),
{
    logs.pop()
}

} // verus!

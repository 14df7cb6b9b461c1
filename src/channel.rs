//! The bounded FIFO that carries events from producers (interrupt handlers,
//! the control surface) to the engine.
use vstd::prelude::*;
use heapless::spsc::Queue;
use crate::event::Event;

verus! {

/// `heapless::spsc::Queue`, held as an opaque value; what it holds is known
/// only through the names and wrappers below.
#[verifier::external_type_specification]
#[verifier::external_body]
#[verifier::reject_recursive_types(T)]
pub struct ExQueue<T, const N: usize>(Queue<T, N>);

/// The events held by a queue, front first.
pub uninterp spec fn event_queue_items(q: Queue<Event, 512>) -> Seq<Event>;

/// Number of events the channel holds at most (a `heapless` queue of `N`
/// slots holds `N - 1`).
pub const EVENT_CAPACITY: usize = 511;

/// Relies on `heapless::spsc::Queue::new`: a new queue holds nothing.
#[verifier::external_body]
fn new_event_queue() -> (q: Queue<Event, 512>)
    ensures
        event_queue_items(q) == Seq::<Event>::empty(),
{
    Queue::new()
}

/// Relies on `heapless::spsc::Queue::enqueue`: the item goes to the back
/// unless `N - 1` items are held; then it is handed back and nothing changes.
#[verifier::external_body]
fn enqueue_event(q: &mut Queue<Event, 512>, e: Event) -> (r: Result<(), Event>)
    ensures
        r is Ok <==> event_queue_items(*old(q)).len() < 511,
        r is Ok ==> event_queue_items(*final(q)) == event_queue_items(*old(q)).push(e),
        r is Err ==> r->Err_0 == e && event_queue_items(*final(q)) == event_queue_items(*old(q)),
{
    q.enqueue(e)
}

/// Relies on `heapless::spsc::Queue::dequeue`: takes the front item, or
/// returns `None` and changes nothing when the queue is empty.
#[verifier::external_body]
fn dequeue_event(q: &mut Queue<Event, 512>) -> (r: Option<Event>)
    ensures
        event_queue_items(*old(q)).len() == 0 ==> r is None && event_queue_items(*final(q))
            == event_queue_items(*old(q)),
        event_queue_items(*old(q)).len() > 0 ==> r == Some(event_queue_items(*old(q))[0])
            && event_queue_items(*final(q)) == event_queue_items(*old(q)).drop_first(),
{
    q.dequeue()
}

/// The event channel. Producers push without blocking; the single consumer
/// pops in push order.
pub struct EventBus {
    queue: Queue<Event, 512>,
}

impl View for EventBus {
    type V = Seq<Event>;

    closed spec fn view(&self) -> Seq<Event> {
        event_queue_items(self.queue)
    }
}

impl EventBus {
    /// An empty channel.
    pub fn new() -> (r: Self)
        ensures
            r@ == Seq::<Event>::empty(),
    {
        EventBus { queue: new_event_queue() }
    }
}

/// Appends `evt` unless the channel is full. A full channel drops `evt`,
/// keeps what it holds, and returns `false`; it never blocks.
pub fn push_event(bus: &mut EventBus, evt: Event) -> (ok: bool)
    ensures
        ok == (old(bus)@.len() < EVENT_CAPACITY),
        ok ==> final(bus)@ == old(bus)@.push(evt),
        !ok ==> final(bus)@ == old(bus)@,
{
    match enqueue_event(&mut bus.queue, evt) {
        Ok(()) => true,
        Err(_) => false,
    }
}

/// Takes the oldest event, or `None` when the channel is empty.
pub fn pop_event(bus: &mut EventBus) -> (r: Option<Event>)
    ensures
        old(bus)@.len() == 0 ==> r is None && final(bus)@ == old(bus)@,
        old(bus)@.len() > 0 ==> r == Some(old(bus)@[0]) && final(bus)@ == old(bus)@.drop_first(),
{
    dequeue_event(&mut bus.queue)
}

} // verus!

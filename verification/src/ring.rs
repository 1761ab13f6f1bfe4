//! The ring buffer between the decoder and the audio output. Samples are held as the bit patterns
//! of single-precision numbers.

use crate::player::OutputRequest;
use rtrb::{Consumer, Producer};
use vstd::prelude::*;

verus! {

/// `rtrb::Producer`: the end of a ring buffer that samples go into.
#[verifier::external_type_specification]
#[verifier::external_body]
#[verifier::reject_recursive_types(T)]
pub struct ExProducer<T>(rtrb::Producer<T>);

/// `rtrb::Consumer`: the end of a ring buffer that samples come out of.
#[verifier::external_type_specification]
#[verifier::external_body]
#[verifier::reject_recursive_types(T)]
pub struct ExConsumer<T>(rtrb::Consumer<T>);

/// All samples that have gone into a ring buffer, in order.
pub uninterp spec fn written(p: rtrb::Producer<u32>) -> Seq<u32>;

/// How many slots the producer knows to be free. There may be more: the consumer frees slots at
/// any time, and nobody but the producer fills them.
pub uninterp spec fn room(p: rtrb::Producer<u32>) -> nat;

/// `rtrb::RingBuffer::new`: a ring buffer of this many slots, all of them free. It panics where
/// the slots do not fit into an allocation.
#[verifier::external_body]
fn new_ring(capacity: usize) -> (r: (Producer<u32>, Consumer<u32>))
    requires
        capacity * 4 <= isize::MAX,
    ensures
        written(r.0) == Seq::<u32>::empty(),
        room(r.0) == capacity,
{
    rtrb::RingBuffer::new(capacity)
}

/// `rtrb::Producer::slots`: looks how far the consumer has come. Slots that were known to be free
/// still are; how many more there are depends on the consumer.
#[verifier::external_body]
fn look(p: &mut Producer<u32>) -> (r: usize)
    ensures
        room(*final(p)) == r,
        r >= room(*old(p)),
        written(*final(p)) == written(*old(p)),
{
    p.slots()
}

/// `rtrb::Producer::push`: the sample goes into the next free slot. That succeeds where a slot is
/// known to be free; where none is, it depends on the consumer.
#[verifier::external_body]
fn push(p: &mut Producer<u32>, sample: u32) -> (r: bool)
    ensures
        room(*old(p)) > 0 ==> r && room(*final(p)) == room(*old(p)) - 1,
        r ==> written(*final(p)) == written(*old(p)).push(sample),
        !r ==> written(*final(p)) == written(*old(p)),
{
    p.push(sample).is_ok()
}

/// The ring buffer for an output.
pub fn sample_ring(request: OutputRequest) -> (r: (Producer<u32>, Consumer<u32>))
    requires
        request.ring_capacity * 4 <= isize::MAX,
    ensures
        written(r.0) == Seq::<u32>::empty(),
        room(r.0) == request.ring_capacity,
{
    new_ring(request.ring_capacity)
}

/// How many slots are free.
pub fn free_slots(p: &mut Producer<u32>) -> (r: usize)
    ensures
        room(*final(p)) == r,
        r >= room(*old(p)),
        written(*final(p)) == written(*old(p)),
{
    look(p)
}

/// Puts samples into the ring buffer, all of them or as many as there is room for, and returns
/// how many: they are the first ones, in order, and what was written before stays.
pub fn deliver(p: &mut Producer<u32>, samples: &Vec<u32>) -> (n: usize)
    ensures
        n <= samples@.len(),
        n >= samples@.len() || n >= room(*old(p)),
        n == samples@.len() || room(*final(p)) == 0,
        written(*final(p)) == written(*old(p)) + samples@.take(n as int),
{
    let slots: usize = look(p);
    let n: usize = if samples.len() < slots {
        samples.len()
    } else {
        slots
    };
    let mut i: usize = 0;
    assert(samples@.take(0) =~= Seq::empty());
    assert(written(*p) =~= written(*old(p)) + samples@.take(0));
    while i < n
        invariant
            i <= n <= samples@.len(),
            n <= slots,
            room(*p) == slots - i,
            written(*p) == written(*old(p)) + samples@.take(i as int),
        decreases n - i,
    {
        let _ = push(p, samples[i]);
        i = i + 1;
        assert(samples@.take(i as int) =~= samples@.take(i - 1).push(samples@[i - 1]));
        assert(written(*p) =~= written(*old(p)) + samples@.take(i as int));
    }
    n
}

} // verus!

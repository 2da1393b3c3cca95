//! Sample ring buffer that sits between the emulator core (producer) and the
//! audio playback thread (consumer).
use vstd::prelude::*;

verus! {

/// Number of samples the ring buffer holds.
pub const RING_BUFFER_CAPACITY: usize = 65536;

/// Largest number of samples handed out by one `read`.
pub const READ_BATCH_SIZE: usize = 8192;

/// Physical index of the `j`-th queued sample when the queue starts at `start`
/// (both below the capacity, so at most one wrap-around happens).
pub open spec fn ring_slot(start: int, j: int) -> int {
    if start + j < RING_BUFFER_CAPACITY {
        start + j
    } else {
        start + j - RING_BUFFER_CAPACITY
    }
}

/// Advancing a position modulo the capacity wraps at most once.
proof fn lemma_wrap(x: int)
    requires
        0 <= x < 2 * RING_BUFFER_CAPACITY,
    ensures
        x % (RING_BUFFER_CAPACITY as int) == ring_slot(0, x),
{
    if x < RING_BUFFER_CAPACITY {
        vstd::arithmetic::div_mod::lemma_small_mod(x as nat, RING_BUFFER_CAPACITY as nat);
    } else {
        vstd::arithmetic::div_mod::lemma_small_mod(
            (x - RING_BUFFER_CAPACITY) as nat,
            RING_BUFFER_CAPACITY as nat,
        );
        vstd::arithmetic::div_mod::lemma_mod_sub_multiples_vanish(x, RING_BUFFER_CAPACITY as int);
    }
}

/// The queue left after writing `incoming` behind `queued`: when the two do not
/// fit together, the oldest samples (queued ones first, then the start of the
/// incoming batch) are dropped so that the newest `RING_BUFFER_CAPACITY` remain.
pub open spec fn queue_after_write(queued: Seq<i16>, incoming: Seq<i16>) -> Seq<i16> {
    let total = queued + incoming;
    if total.len() <= RING_BUFFER_CAPACITY {
        total
    } else {
        total.subrange(total.len() - RING_BUFFER_CAPACITY, total.len() as int)
    }
}

/// How many incoming samples a write stores.
pub open spec fn samples_stored(incoming_len: nat) -> nat {
    if incoming_len <= RING_BUFFER_CAPACITY {
        incoming_len
    } else {
        RING_BUFFER_CAPACITY as nat
    }
}

/// How many samples a read hands out: bounded by what is queued, by the
/// destination length and by the batch size.
pub open spec fn samples_read(queued_len: nat, buf_len: nat) -> nat {
    let a = if queued_len <= buf_len { queued_len } else { buf_len };
    if a <= READ_BATCH_SIZE { a } else { READ_BATCH_SIZE as nat }
}

/// Fixed-capacity FIFO of audio samples.
pub struct RingBuffer {
    data: Vec<i16>,
    capacity: usize,
    read_pos: usize,
    write_pos: usize,
    count: usize,
}

impl View for RingBuffer {
    type V = Seq<i16>;

    /// The queued samples, oldest first.
    closed spec fn view(&self) -> Seq<i16> {
        Seq::new(self.count as nat, |j: int| self.data@[ring_slot(self.read_pos as int, j)])
    }
}

impl RingBuffer {
    /// Internal consistency of the positions and the storage.
    pub closed spec fn wf(&self) -> bool {
        &&& self.capacity == RING_BUFFER_CAPACITY
        &&& self.data@.len() == RING_BUFFER_CAPACITY
        &&& self.read_pos < RING_BUFFER_CAPACITY
        &&& self.count <= RING_BUFFER_CAPACITY
        &&& self.write_pos as int == ring_slot(self.read_pos as int, self.count as int)
    }

    /// The number of samples the buffer can hold.
    pub closed spec fn spec_capacity(&self) -> nat {
        self.capacity as nat
    }

    /// Whether the positions and the storage are consistent (always true
    /// of a buffer made by `new` and changed by these methods).
    pub fn well_formed(&self) -> (b: bool)
        ensures
            b == self.wf(),
    {
        if self.capacity != RING_BUFFER_CAPACITY || self.data.len() != RING_BUFFER_CAPACITY
            || self.read_pos >= RING_BUFFER_CAPACITY || self.count > RING_BUFFER_CAPACITY {
            return false;
        }
        let end: usize = self.read_pos + self.count;
        let slot: usize = if end < RING_BUFFER_CAPACITY { end } else { end - RING_BUFFER_CAPACITY };
        self.write_pos == slot
    }

    /// An empty ring buffer of `RING_BUFFER_CAPACITY` samples.
    pub fn new() -> (rb: Self)
        ensures
            rb.wf(),
            rb@ == Seq::<i16>::empty(),
            rb.spec_capacity() == RING_BUFFER_CAPACITY,
    {
        let rb = RingBuffer {
            data: vec![0i16; RING_BUFFER_CAPACITY],
            capacity: RING_BUFFER_CAPACITY,
            read_pos: 0,
            write_pos: 0,
            count: 0,
        };
        assert(rb@ =~= Seq::<i16>::empty());
        rb
    }

    /// Write samples, dropping the oldest data (existing first, then the
    /// start of the incoming batch) when there is not enough room, so that
    /// playback never stalls permanently. Returns how many incoming samples
    /// were stored.
    pub fn write(&mut self, samples: &[i16]) -> (written: usize)
        requires
            old(self).wf(),
        ensures
            final(self).wf(),
            final(self)@ == queue_after_write(old(self)@, samples@),
            written == samples_stored(samples@.len()),
    {
        let ghost q0 = self@;
        let room: usize = self.capacity - self.count;
        let drop_total: usize = if samples.len() <= room { 0 } else { samples.len() - room };
        let drop_old: usize = if drop_total < self.count { drop_total } else { self.count };
        proof {
            lemma_wrap(self.read_pos + drop_old);
        }
        self.read_pos = (self.read_pos + drop_old) % self.capacity;
        self.count = self.count - drop_old;
        let skip: usize = drop_total - drop_old;
        let to_write: usize = samples.len() - skip;
        let ghost q1 = q0.skip(drop_old as int);
        assert(self@ =~= q1);
        let mut i: usize = 0;
        while i < to_write
            invariant
                self.capacity == RING_BUFFER_CAPACITY,
                self.data@.len() == RING_BUFFER_CAPACITY,
                self.read_pos < RING_BUFFER_CAPACITY,
                self.count + to_write <= RING_BUFFER_CAPACITY,
                self.count == q1.len(),
                skip + to_write == samples@.len(),
                samples@.len() <= usize::MAX,
                0 <= i <= to_write,
                self.write_pos as int == ring_slot(self.read_pos as int, self.count + i),
                forall|j: int|
                    0 <= j < self.count + i ==> #[trigger] self.data@[ring_slot(
                        self.read_pos as int,
                        j,
                    )] == (q1 + samples@.subrange(skip as int, skip + i))[j],
            decreases to_write - i,
        {
            let ghost old_data = self.data@;
            let ghost wp = self.write_pos as int;
            self.data.set(self.write_pos, samples[skip + i]);
            proof {
                lemma_wrap(self.write_pos + 1);
            }
            self.write_pos = (self.write_pos + 1) % self.capacity;
            i = i + 1;
            assert forall|j: int| 0 <= j < self.count + i implies #[trigger] self.data@[ring_slot(
                self.read_pos as int,
                j,
            )] == (q1 + samples@.subrange(skip as int, skip + i))[j] by {
                if j < self.count + i - 1 {
                    assert(ring_slot(self.read_pos as int, j) != wp);
                    assert(old_data[ring_slot(self.read_pos as int, j)] == (q1
                        + samples@.subrange(skip as int, skip + i - 1))[j]);
                }
            }
        }
        self.count = self.count + to_write;
        assert(self@ =~= queue_after_write(q0, samples@)) by {
            assert(self@ =~= q1 + samples@.subrange(skip as int, samples@.len() as int));
        }
        to_write
    }

    /// Copy up to `READ_BATCH_SIZE` of the oldest samples into the front of
    /// `buf` and remove them from the queue. Returns how many were copied.
    pub fn read(&mut self, buf: &mut [i16]) -> (n: usize)
        requires
            old(self).wf(),
        ensures
            final(self).wf(),
            n == samples_read(old(self)@.len(), old(buf)@.len()),
            final(buf)@.len() == old(buf)@.len(),
            final(buf)@.subrange(0, n as int) == old(self)@.subrange(0, n as int),
            final(buf)@.subrange(n as int, old(buf)@.len() as int) == old(buf)@.subrange(
                n as int,
                old(buf)@.len() as int,
            ),
            final(self)@ == old(self)@.skip(n as int),
    {
        let ghost q0 = self@;
        let ghost b0 = buf@;
        let a: usize = if self.count < buf.len() { self.count } else { buf.len() };
        let to_read: usize = if a < READ_BATCH_SIZE { a } else { READ_BATCH_SIZE };
        let start: usize = self.read_pos;
        let mut i: usize = 0;
        while i < to_read
            invariant
                self.capacity == RING_BUFFER_CAPACITY,
                self.data@.len() == RING_BUFFER_CAPACITY,
                self.count == q0.len(),
                q0.len() <= RING_BUFFER_CAPACITY,
                self.write_pos as int == ring_slot(start as int, q0.len() as int),
                start < RING_BUFFER_CAPACITY,
                to_read <= self.count,
                to_read <= buf@.len(),
                buf@.len() == b0.len(),
                0 <= i <= to_read,
                self.read_pos as int == ring_slot(start as int, i as int),
                forall|j: int| 0 <= j < q0.len() ==> #[trigger] self.data@[ring_slot(start as int, j)] == q0[j],
                forall|j: int| 0 <= j < i ==> #[trigger] buf@[j] == q0[j],
                forall|j: int| i <= j < b0.len() ==> #[trigger] buf@[j] == b0[j],
            decreases to_read - i,
        {
            buf[i] = self.data[self.read_pos];
            proof {
                lemma_wrap(self.read_pos + 1);
            }
            self.read_pos = (self.read_pos + 1) % self.capacity;
            i = i + 1;
        }
        self.count = self.count - to_read;
        assert(self@ =~= q0.skip(to_read as int)) by {
            assert forall|j: int| 0 <= j < self.count implies #[trigger] ring_slot(
                self.read_pos as int,
                j,
            ) == ring_slot(start as int, j + to_read) by {}
        }
        assert(buf@.subrange(0, to_read as int) =~= q0.subrange(0, to_read as int));
        assert(buf@.subrange(to_read as int, b0.len() as int) =~= b0.subrange(
            to_read as int,
            b0.len() as int,
        ));
        to_read
    }

    /// Number of queued samples.
    pub fn len(&self) -> (n: usize)
        requires
            self.wf(),
        ensures
            n == self@.len(),
    {
        self.count
    }

    /// Whether no samples are queued.
    pub fn is_empty(&self) -> (b: bool)
        requires
            self.wf(),
        ensures
            b == (self@.len() == 0),
    {
        self.count == 0
    }
}

/// While the queued and the incoming samples fit together, a write loses
/// nothing: the queue becomes the old one followed by every incoming
/// sample, and all of them count as stored.
pub proof fn write_within_capacity_keeps_all(queued: Seq<i16>, incoming: Seq<i16>)
    requires
        queued.len() + incoming.len() <= RING_BUFFER_CAPACITY,
    ensures
        queue_after_write(queued, incoming) == queued + incoming,
        samples_stored(incoming.len()) == incoming.len(),
{
}

/// A write always keeps the newest samples: the queue never exceeds the
/// capacity and is the tail of the old queue followed by the incoming
/// samples, as long as a tail as the capacity allows.
pub proof fn write_keeps_newest(queued: Seq<i16>, incoming: Seq<i16>)
    ensures
        ({
            let total = queued + incoming;
            let q = queue_after_write(queued, incoming);
            &&& q.len() == if total.len() <= RING_BUFFER_CAPACITY {
                total.len()
            } else {
                RING_BUFFER_CAPACITY as nat
            }
            &&& q == total.subrange(total.len() - q.len(), total.len() as int)
            &&& incoming.len() > 0 ==> q.last() == incoming.last()
        }),
{
    let total = queued + incoming;
    let q = queue_after_write(queued, incoming);
    if total.len() <= RING_BUFFER_CAPACITY {
        assert(total.subrange(0, total.len() as int) =~= total);
    }
}

/// Samples come out in the order they went in: after writing `samples`
/// into an empty buffer, a read into `buf_len` slots hands out the first
/// of them (as many as fit, at most a batch) and the rest stay queued.
pub proof fn read_returns_writes_in_order(samples: Seq<i16>, buf_len: nat)
    requires
        samples.len() <= RING_BUFFER_CAPACITY,
    ensures
        ({
            let q = queue_after_write(Seq::empty(), samples);
            let n = samples_read(q.len(), buf_len);
            &&& n == if samples.len() <= buf_len && samples.len() <= READ_BATCH_SIZE {
                samples.len()
            } else if buf_len <= READ_BATCH_SIZE && buf_len < samples.len() {
                buf_len
            } else {
                READ_BATCH_SIZE as nat
            }
            &&& q.subrange(0, n as int) == samples.subrange(0, n as int)
            &&& q.skip(n as int) == samples.skip(n as int)
        }),
{
    assert(Seq::<i16>::empty() + samples =~= samples);
}

/// The queue after a sequence of calls on a queue `q`: each entry is a
/// write of its samples (`true`) or a read into a buffer of its length
/// (`false`).
pub open spec fn queue_after_calls(q: Seq<i16>, calls: Seq<(bool, Seq<i16>, nat)>) -> Seq<i16>
    decreases calls.len(),
{
    if calls.len() == 0 {
        q
    } else {
        let p = queue_after_calls(q, calls.drop_last());
        let c = calls.last();
        if c.0 {
            queue_after_write(p, c.1)
        } else {
            p.skip(samples_read(p.len(), c.2) as int)
        }
    }
}

/// The queue length: a write makes it the old length plus the incoming
/// samples, at most `RING_BUFFER_CAPACITY`; a read handing out `n` samples
/// takes `n` off; so from an empty buffer, after any sequence of writes and
/// reads, at most `RING_BUFFER_CAPACITY` samples are queued.
pub proof fn queue_length_bounded(calls: Seq<(bool, Seq<i16>, nat)>)
    ensures
        queue_after_calls(Seq::empty(), calls).len() <= RING_BUFFER_CAPACITY,
        calls.len() > 0 ==> ({
            let p = queue_after_calls(Seq::empty(), calls.drop_last());
            let c = calls.last();
            queue_after_calls(Seq::empty(), calls).len() == if c.0 {
                if p.len() + c.1.len() <= RING_BUFFER_CAPACITY {
                    (p.len() + c.1.len()) as int
                } else {
                    RING_BUFFER_CAPACITY as int
                }
            } else {
                p.len() - samples_read(p.len(), c.2)
            }
        }),
    decreases calls.len(),
{
    if calls.len() > 0 {
        queue_length_bounded(calls.drop_last());
    }
}

} // verus!

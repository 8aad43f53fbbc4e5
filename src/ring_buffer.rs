//! Fixed-capacity single-producer, single-consumer byte ring.
use vstd::prelude::*;

verus! {

/// Position in storage of the `i`-th queued byte, counting from `start`,
/// in a ring of `cap` bytes.
pub open spec fn ring_index(start: int, i: int, cap: int) -> int {
    if start + i < cap {
        start + i
    } else {
        start + i - cap
    }
}

/// The queue after offering byte `b` to a buffer of capacity `cap`, and
/// whether it was taken: a full buffer refuses it and is left as it was.
pub open spec fn queue_push(q: Seq<u8>, cap: nat, b: u8) -> (Seq<u8>, bool) {
    if q.len() < cap {
        (q.push(b), true)
    } else {
        (q, false)
    }
}

/// The queue after taking one byte, and the byte: the oldest one, or
/// nothing from an empty buffer.
pub open spec fn queue_pop(q: Seq<u8>) -> (Seq<u8>, Option<u8>) {
    if q.len() > 0 {
        (q.drop_first(), Some(q[0]))
    } else {
        (q, None)
    }
}

/// A fixed-capacity circular byte buffer between one producer and one
/// consumer. Bytes come out in the order they went in.
pub struct RingBuffer {
    buf: Vec<u8>,
    start: usize,
    len: usize,
}

impl View for RingBuffer {
    type V = Seq<u8>;

    /// The queued bytes, oldest first.
    closed spec fn view(&self) -> Seq<u8> {
        Seq::new(
            self.len as nat,
            |i: int| self.buf@[ring_index(self.start as int, i, self.buf@.len() as int)],
        )
    }
}

impl RingBuffer {
    pub closed spec fn spec_capacity(&self) -> nat {
        self.buf@.len()
    }

    /// Where the oldest byte sits in storage.
    pub closed spec fn spec_start(&self) -> nat {
        self.start as nat
    }

    pub closed spec fn wf(&self) -> bool {
        &&& self.buf@.len() > 0
        &&& self.start < self.buf@.len()
        &&& self.len <= self.buf@.len()
    }

    /// How many queued bytes lie in one run of storage from the oldest on.
    pub open spec fn spec_readable_run(&self) -> nat {
        let cap = self.spec_capacity();
        let to_end = (cap - self.spec_start()) as nat;
        if self@.len() < to_end {
            self@.len()
        } else {
            to_end
        }
    }

    /// How many bytes can be added in one run of storage after the newest.
    pub open spec fn spec_writable_run(&self) -> nat {
        let cap = self.spec_capacity();
        let end = ring_index(self.spec_start() as int, self@.len() as int, cap as int);
        let free = (cap - self@.len()) as nat;
        let to_end = (cap - end) as nat;
        if free < to_end {
            free
        } else {
            to_end
        }
    }

    /// A well-formed buffer never holds more than its capacity.
    pub proof fn lemma_bounded(&self)
        requires
            self.wf(),
        ensures
            self@.len() <= self.spec_capacity(),
    {
    }

    /// An empty buffer holding up to `capacity` bytes.
    pub fn new(capacity: usize) -> (r: Self)
        requires
            capacity > 0,
        ensures
            r.wf(),
            r@ == Seq::<u8>::empty(),
            r.spec_capacity() == capacity,
            r.spec_start() == 0,
    {
        let buf: Vec<u8> = vec![0u8; capacity];
        let r = RingBuffer { buf, start: 0, len: 0 };
        assert(r@ =~= Seq::<u8>::empty());
        r
    }

    pub fn capacity(&self) -> (r: usize)
        ensures
            r == self.spec_capacity(),
    {
        self.buf.len()
    }

    pub fn len(&self) -> (r: usize)
        ensures
            r == self@.len(),
    {
        self.len
    }

    pub fn is_empty(&self) -> (r: bool)
        ensures
            r == (self@.len() == 0),
    {
        self.len == 0
    }

    pub fn is_full(&self) -> (r: bool)
        requires
            self.wf(),
        ensures
            r == (self@.len() == self.spec_capacity()),
    {
        self.len == self.buf.len()
    }

    /// How many bytes `push_slice` can take at most right now.
    pub fn writable_run(&self) -> (r: usize)
        requires
            self.wf(),
        ensures
            r == self.spec_writable_run(),
            r == 0 <==> self@.len() == self.spec_capacity(),
    {
        let cap = self.buf.len();
        let end = if self.len < cap - self.start {
            self.start + self.len
        } else {
            self.len - (cap - self.start)
        };
        let free = cap - self.len;
        let to_end = cap - end;
        if free < to_end {
            free
        } else {
            to_end
        }
    }

    /// How many bytes `pop_into` can give at most right now.
    pub fn readable_run(&self) -> (r: usize)
        requires
            self.wf(),
        ensures
            r == self.spec_readable_run(),
            r == 0 <==> self@.len() == 0,
    {
        let to_end = self.buf.len() - self.start;
        if self.len < to_end {
            self.len
        } else {
            to_end
        }
    }

    /// Adds one byte at the back. A full buffer refuses it (`false`) and
    /// keeps its content.
    pub fn push_one(&mut self, b: u8) -> (r: bool)
        requires
            old(self).wf(),
        ensures
            final(self).wf(),
            final(self).spec_capacity() == old(self).spec_capacity(),
            final(self).spec_start() == old(self).spec_start(),
            (final(self)@, r) == queue_push(old(self)@, old(self).spec_capacity(), b),
    {
        let cap = self.buf.len();
        if self.len == cap {
            return false;
        }
        let ghost old_view = self@;
        let end = if self.len < cap - self.start {
            self.start + self.len
        } else {
            self.len - (cap - self.start)
        };
        self.buf.set(end, b);
        self.len = self.len + 1;
        assert(self@ =~= old_view.push(b));
        true
    }

    /// Takes the oldest byte; an empty buffer gives nothing.
    pub fn pop_one(&mut self) -> (r: Option<u8>)
        requires
            old(self).wf(),
        ensures
            final(self).wf(),
            final(self).spec_capacity() == old(self).spec_capacity(),
            (final(self)@, r) == queue_pop(old(self)@),
    {
        if self.len == 0 {
            return None;
        }
        let ghost old_view = self@;
        let b = self.buf[self.start];
        self.start = if self.start < self.buf.len() - 1 {
            self.start + 1
        } else {
            0
        };
        self.len = self.len - 1;
        assert(self@ =~= old_view.drop_first());
        Some(b)
    }

    /// Copies as many bytes of `data` as fit in the free run of storage
    /// after the newest byte, and returns how many.
    pub fn push_slice(&mut self, data: &[u8]) -> (r: usize)
        requires
            old(self).wf(),
        ensures
            final(self).wf(),
            final(self).spec_capacity() == old(self).spec_capacity(),
            r == if data@.len() < old(self).spec_writable_run() {
                data@.len()
            } else {
                old(self).spec_writable_run()
            },
            final(self)@ == old(self)@ + data@.subrange(0, r as int),
    {
        let cap = self.buf.len();
        let end = if self.len < cap - self.start {
            self.start + self.len
        } else {
            self.len - (cap - self.start)
        };
        let free = cap - self.len;
        let to_end = cap - end;
        let run = if free < to_end {
            free
        } else {
            to_end
        };
        let n = if data.len() < run {
            data.len()
        } else {
            run
        };
        let ghost old_view = self@;
        let mut i: usize = 0;
        while i < n
            invariant
                self.wf(),
                self.spec_capacity() == cap,
                i <= n,
                n <= free,
                free == cap - old_view.len(),
                n <= data@.len(),
                self@ == old_view + data@.subrange(0, i as int),
            decreases n - i,
        {
            let ok = self.push_one(data[i]);
            assert(data@.subrange(0, i as int + 1) =~= data@.subrange(0, i as int).push(data@[i as int]));
            i = i + 1;
        }
        n
    }

    /// Copies as many of the oldest bytes as fit in `out` and lie in one
    /// run of storage, removes them, and returns how many. An empty buffer
    /// gives zero bytes.
    pub fn pop_into(&mut self, out: &mut [u8]) -> (r: usize)
        requires
            old(self).wf(),
        ensures
            final(self).wf(),
            final(self).spec_capacity() == old(self).spec_capacity(),
            r == if old(out)@.len() < old(self).spec_readable_run() {
                old(out)@.len()
            } else {
                old(self).spec_readable_run()
            },
            final(self)@ == old(self)@.subrange(r as int, old(self)@.len() as int),
            final(out)@.len() == old(out)@.len(),
            final(out)@.subrange(0, r as int) == old(self)@.subrange(0, r as int),
            final(out)@.subrange(r as int, old(out)@.len() as int) == old(out)@.subrange(
                r as int,
                old(out)@.len() as int,
            ),
    {
        let cap = self.buf.len();
        let to_end = cap - self.start;
        let run = if self.len < to_end {
            self.len
        } else {
            to_end
        };
        let n = if out.len() < run {
            out.len()
        } else {
            run
        };
        let ghost old_view = self@;
        let ghost old_out = out@;
        let mut i: usize = 0;
        while i < n
            invariant
                self.wf(),
                self.spec_capacity() == cap,
                i <= n,
                n <= old_view.len(),
                n <= old_out.len(),
                out@.len() == old_out.len(),
                self@ == old_view.subrange(i as int, old_view.len() as int),
                forall|j: int| 0 <= j < i ==> #[trigger] out@[j] == old_view[j],
                forall|j: int| i <= j < old_out.len() ==> #[trigger] out@[j] == old_out[j],
            decreases n - i,
        {
            let b = self.pop_one();
            match b {
                Some(v) => {
                    out[i] = v;
                },
                None => {},
            }
            assert(old_view.subrange(i as int, old_view.len() as int).drop_first() =~= old_view.subrange(
                i as int + 1,
                old_view.len() as int,
            ));
            i = i + 1;
        }
        assert(out@.subrange(0, n as int) =~= old_view.subrange(0, n as int));
        assert(out@.subrange(n as int, old_out.len() as int) =~= old_out.subrange(
            n as int,
            old_out.len() as int,
        ));
        n
    }
}

/// One operation on a ring buffer.
pub ghost enum QueueOp {
    Push(u8),
    Pop,
}

/// Runs `ops` from an empty buffer of capacity `cap`. Gives the queued
/// bytes, the bytes the buffer accepted, and the bytes taken out, in order.
pub open spec fn run_ops(cap: nat, ops: Seq<QueueOp>) -> (Seq<u8>, Seq<u8>, Seq<u8>)
    decreases ops.len(),
{
    if ops.len() == 0 {
        (Seq::empty(), Seq::empty(), Seq::empty())
    } else {
        let (q, accepted, popped) = run_ops(cap, ops.drop_last());
        match ops.last() {
            QueueOp::Push(b) => {
                let (q2, ok) = queue_push(q, cap, b);
                (q2, if ok { accepted.push(b) } else { accepted }, popped)
            },
            QueueOp::Pop => {
                let (q2, out) = queue_pop(q);
                (q2, accepted, if out is Some { popped.push(out->Some_0) } else { popped })
            },
        }
    }
}

/// First in, first out: for every sequence of pushes and pops, the bytes
/// taken out followed by those still queued are exactly the bytes the
/// buffer accepted, in the order pushed; and it never holds more than its
/// capacity.
pub proof fn lemma_fifo(cap: nat, ops: Seq<QueueOp>)
    ensures
        run_ops(cap, ops).2 + run_ops(cap, ops).0 == run_ops(cap, ops).1,
        cap > 0 ==> run_ops(cap, ops).0.len() <= cap,
    decreases ops.len(),
{
    if ops.len() > 0 {
        lemma_fifo(cap, ops.drop_last());
        let (q, accepted, popped) = run_ops(cap, ops.drop_last());
        match ops.last() {
            QueueOp::Push(b) => {
                if q.len() < cap {
                    assert(popped + q.push(b) =~= (popped + q).push(b));
                }
            },
            QueueOp::Pop => {
                if q.len() > 0 {
                    assert(popped.push(q[0]) + q.drop_first() =~= popped + q);
                }
            },
        }
    }
}

} // verus!

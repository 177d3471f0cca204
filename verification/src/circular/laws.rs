//! What holds of every circular buffer.
//!
//! The laws speak of views. Each operation of
//! [`CircularBuffer`](super::CircularBuffer) states in its contract which
//! view it leaves behind, so what is proved here of views holds of every run
//! of the operations.

use super::arith::lemma_steps_back;
use super::arith::lemma_wrap_once;
use super::arith::lemma_wrap_wrap;
use super::RingView;
use vstd::arithmetic::div_mod::lemma_add_mod_noop_right;
use vstd::arithmetic::div_mod::lemma_mod_bound;
use vstd::prelude::*;

verus! {

/// One step of a stream through a ring.
pub enum RingOp {
    /// The bytes are written.
    Write(Seq<u8>),
    /// A read into room for so many bytes.
    Read(nat),
}

impl RingView {
    /// Whether what a read delivers is all that is in use: the storage is
    /// allocated, or nothing is in use. This holds of every ring that is
    /// filled by writes.
    pub open spec fn settled(self) -> bool {
        self.allocated() || self.used == 0
    }

    /// The view after one step.
    pub open spec fn after(self, op: RingOp) -> RingView {
        match op {
            RingOp::Write(src) => self.wrote(src),
            RingOp::Read(room) => self.after_read(room),
        }
    }

    /// The view after the steps of `ops`, one after the other.
    pub open spec fn after_all(self, ops: Seq<RingOp>) -> RingView
        decreases ops.len(),
    {
        if ops.len() == 0 {
            self
        } else {
            self.after(ops[0]).after_all(ops.drop_first())
        }
    }

    /// Whether every write among `ops` finds the room it needs when its turn
    /// comes.
    pub open spec fn fits(self, ops: Seq<RingOp>) -> bool
        decreases ops.len(),
    {
        if ops.len() == 0 {
            true
        } else {
            &&& ops[0] matches RingOp::Write(src) ==> src.len() <= self.available()
            &&& self.after(ops[0]).fits(ops.drop_first())
        }
    }

    /// All bytes that the reads among `ops` deliver, in order.
    pub open spec fn delivered_by(self, ops: Seq<RingOp>) -> Seq<u8>
        decreases ops.len(),
    {
        if ops.len() == 0 {
            Seq::empty()
        } else {
            (match ops[0] {
                RingOp::Write(_) => Seq::empty(),
                RingOp::Read(room) => self.delivered(room),
            }) + self.after(ops[0]).delivered_by(ops.drop_first())
        }
    }

    /// A write appends: the bytes in use afterwards are those before,
    /// followed by the bytes written, however the ring wraps.
    pub proof fn lemma_write_appends(self, src: Seq<u8>)
        requires
            self.wf(),
            src.len() <= self.available(),
        ensures
            self.wrote(src).wf(),
            self.wrote(src).contents() == self.contents() + src,
            src.len() > 0 ==> self.wrote(src).allocated(),
    {
        if src.len() > 0 {
            let size = self.size as int;
            let w = self.wrote(src);
            lemma_wrap_wrap(self, self.read_pos, self.used, src.len());
            lemma_mod_bound((self.read_pos + self.used) as int, size);
            assert forall|i: int| 0 <= i < w.used implies w.contents()[i] == (self.contents()
                + src)[i] by {
                let j = (self.read_pos + i) % size;
                lemma_mod_bound((self.read_pos + i) as int, size);
                // the offset j lies k steps after write_pos
                let k = if i < self.used {
                    i - self.used + size
                } else {
                    i - self.used
                };
                lemma_add_mod_noop_right(k, (self.read_pos + self.used) as int, size);
                assert((k + self.write_pos) % size == (k + self.read_pos + self.used) % size);
                if i < self.used {
                    vstd::arithmetic::div_mod::lemma_mod_add_multiples_vanish(
                        (self.read_pos + i) as int,
                        size,
                    );
                }
                assert((self.write_pos + k) % size == j);
                lemma_steps_back(size, self.write_pos as int, k);
            }
            assert(w.contents() =~= self.contents() + src);
        } else {
            assert(self.contents() + src =~= self.contents());
        }
    }

    /// Giving up the oldest bytes leaves the others as they are, in order.
    pub proof fn lemma_consume_skips(self, n: nat)
        requires
            self.wf(),
            n <= self.used,
        ensures
            self.consumed(n).wf(),
            self.consumed(n).contents() == self.contents().skip(n as int),
            self.consumed(n).allocated() == self.allocated(),
    {
        let c = self.consumed(n);
        if self.size > 0 {
            let size = self.size as int;
            lemma_wrap_wrap(self, self.read_pos, n, (self.used - n) as nat);
            lemma_mod_bound((self.read_pos + n) as int, size);
            assert forall|i: int| 0 <= i < c.used implies c.contents()[i] == self.contents().skip(
                n as int,
            )[i] by {
                lemma_add_mod_noop_right(i, (self.read_pos + n) as int, size);
                assert((i + c.read_pos) % size == (i + self.read_pos + n) % size);
            }
        }
        assert(c.contents() =~= self.contents().skip(n as int));
    }

    /// Peek and read deliver the same bytes, and only the read gives them up:
    /// after a peek as many bytes are in use as before, after the read as many
    /// fewer as were delivered, and the bytes left are the ones that followed.
    pub proof fn lemma_peek_then_read(self, room: nat)
        requires
            self.wf(),
        ensures
            self.delivered(room).len() == self.deliverable(room) <= self.used,
            self.after_read(room).used == self.used - self.deliverable(room),
            self.after_read(room).wf(),
            self.settled() ==> self.delivered(room) + self.after_read(room).contents()
                == self.contents(),
    {
        self.lemma_consume_skips(self.deliverable(room));
        if self.settled() {
            assert(self.delivered(room) + self.after_read(room).contents() =~= self.contents());
        }
    }

    /// Every step keeps the invariant, and keeps a ring settled.
    pub proof fn lemma_step(self, op: RingOp)
        requires
            self.wf(),
            self.settled(),
            op matches RingOp::Write(src) ==> src.len() <= self.available(),
        ensures
            self.after(op).wf(),
            self.after(op).settled(),
            self.after(op).size == self.size,
    {
        match op {
            RingOp::Write(src) => {
                self.lemma_write_appends(src);
            },
            RingOp::Read(room) => {
                self.lemma_consume_skips(self.deliverable(room));
            },
        }
    }
}

/// All bytes that the writes among `ops` carry, in order.
pub open spec fn written_by(ops: Seq<RingOp>) -> Seq<u8>
    decreases ops.len(),
{
    if ops.len() == 0 {
        Seq::empty()
    } else {
        (match ops[0] {
            RingOp::Write(src) => src,
            RingOp::Read(_) => Seq::empty(),
        }) + written_by(ops.drop_first())
    }
}

/// Wraparound equivalence: for any interleaving of writes and reads in which
/// every write finds room, the bytes in use at the start followed by the
/// bytes written are the bytes that the reads delivered followed by the bytes
/// still in use. However often the ring wrapped, nothing is lost, doubled or
/// out of order.
pub proof fn lemma_stream_order(v: RingView, ops: Seq<RingOp>)
    requires
        v.wf(),
        v.settled(),
        v.fits(ops),
    ensures
        v.after_all(ops).wf(),
        v.contents() + written_by(ops) == v.delivered_by(ops) + v.after_all(ops).contents(),
    decreases ops.len(),
{
    if ops.len() == 0 {
        assert(v.contents() + written_by(ops) =~= v.delivered_by(ops) + v.contents());
    } else {
        let next = v.after(ops[0]);
        let rest = ops.drop_first();
        v.lemma_step(ops[0]);
        lemma_stream_order(next, rest);
        match ops[0] {
            RingOp::Write(src) => {
                v.lemma_write_appends(src);
                assert(v.contents() + written_by(ops) =~= (v.contents() + src) + written_by(rest));
                assert(v.delivered_by(ops) =~= next.delivered_by(rest));
            },
            RingOp::Read(room) => {
                v.lemma_peek_then_read(room);
                assert(written_by(ops) =~= written_by(rest));
                assert(v.contents() + written_by(ops) =~= v.delivered(room) + (next.contents()
                    + written_by(rest)));
                assert(v.delivered_by(ops) + v.after_all(ops).contents() =~= v.delivered(room) + (
                next.delivered_by(rest) + next.after_all(rest).contents()));
            },
        }
    }
}

/// A ring that starts empty delivers what was written, in order: the bytes
/// read are a prefix of the bytes written, and what is missing from them is
/// still in use.
pub proof fn lemma_reads_follow_writes(size: nat, ops: Seq<RingOp>)
    requires
        size <= super::MAX_CBUF_SIZE,
        RingView::unallocated(size).fits(ops),
    ensures
        written_by(ops) == RingView::unallocated(size).delivered_by(ops) + RingView::unallocated(
            size,
        ).after_all(ops).contents(),
{
    let v = RingView::unallocated(size);
    if size > 0 {
        lemma_wrap_once(0, size as int);
    }
    lemma_stream_order(v, ops);
    assert(v.contents() + written_by(ops) =~= written_by(ops));
}

} // verus!

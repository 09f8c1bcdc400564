//! The pipeline: one ordered conveyor from raw line to sink delivery.
//! Each line is parsed into exactly one record and filtered; accepted
//! records are delivered in order. The `head` policy stops the whole
//! pipeline after the Nth accepted record; the `tail` policy buffers
//! accepted records in a bounded ring and flushes only the final N once
//! the (finite) source ends.

use vstd::prelude::*;

use crate::filter::FilterConfig;
use crate::filter::accept_spec;
use crate::parser::parse;
use crate::parser::parse_rel;
use crate::record::Record;

verus! {

/// The most recent `cap` elements of a sequence, in original order.
pub open spec fn last_n<T>(s: Seq<T>, cap: nat) -> Seq<T> {
    if s.len() <= cap {
        s
    } else {
        s.subrange(s.len() - cap, s.len() as int)
    }
}

/// A bounded ring that keeps the most recent records pushed into it.
pub struct TailBuffer {
    capacity: usize,
    buf: Vec<Record>,
}

impl TailBuffer {
    /// The records currently held, oldest first.
    pub closed spec fn contents(self) -> Seq<Record> {
        self.buf@
    }

    /// The bound of the ring.
    pub closed spec fn cap(self) -> nat {
        self.capacity as nat
    }

    /// Never more records than the bound.
    pub open spec fn wf(self) -> bool {
        self.contents().len() <= self.cap()
    }

    /// An empty ring with the given bound.
    pub fn new(capacity: usize) -> (r: TailBuffer)
        ensures
            r.wf(),
            r.cap() == capacity,
            r.contents() == Seq::<Record>::empty(),
    {
        TailBuffer { capacity, buf: Vec::new() }
    }

    /// Pushes one record, evicting the oldest when the ring is full, so
    /// the contents are always the most recent pushes in original order.
    pub fn push(&mut self, rec: Record)
        requires
            old(self).wf(),
        ensures
            final(self).wf(),
            final(self).cap() == old(self).cap(),
            final(self).contents() == last_n(old(self).contents().push(rec), old(self).cap()),
    {
        if self.capacity == 0 {
            proof {
                assert(last_n(self.contents().push(rec), 0) =~= self.buf@);
            }
            return;
        }
        if self.buf.len() == self.capacity {
            self.buf.remove(0);
            self.buf.push(rec);
            proof {
                assert(self.buf@ =~= last_n(old(self).contents().push(rec), old(self).cap()));
            }
        } else {
            self.buf.push(rec);
            proof {
                assert(self.buf@ =~= last_n(old(self).contents().push(rec), old(self).cap()));
            }
        }
    }

    /// Hands out the held records, oldest first.
    pub fn into_records(self) -> (r: Vec<Record>)
        ensures
            r@ == self.contents(),
    {
        self.buf
    }
}

/// Pushing a whole history into a fresh ring leaves exactly the last
/// `cap` elements, in original order: `last_n` absorbs one push at a
/// time.
pub proof fn lemma_last_n_push<T>(s: Seq<T>, x: T, cap: nat)
    ensures
        last_n(s.push(x), cap) == last_n(last_n(s, cap).push(x), cap),
{
    if s.len() < cap {
        assert(last_n(s.push(x), cap) =~= last_n(last_n(s, cap).push(x), cap));
    } else {
        assert(last_n(s.push(x), cap) =~= last_n(last_n(s, cap).push(x), cap));
    }
}

/// The contents of a ring of bound `cap` after a whole history of pushes,
/// one [`TailBuffer::push`] at a time.
pub open spec fn ring_after<T>(s: Seq<T>, cap: nat) -> Seq<T>
    decreases s.len(),
{
    if s.len() == 0 {
        Seq::empty()
    } else {
        last_n(ring_after(s.drop_last(), cap).push(s.last()), cap)
    }
}

/// The tail law: pushing any finite history of records into an empty ring
/// of bound `cap` leaves exactly the last `cap` of them, in original
/// order.
pub proof fn lemma_ring_holds_last_n<T>(s: Seq<T>, cap: nat)
    ensures
        ring_after(s, cap) == last_n(s, cap),
    decreases s.len(),
{
    if s.len() > 0 {
        lemma_ring_holds_last_n(s.drop_last(), cap);
        lemma_last_n_push(s.drop_last(), s.last(), cap);
        assert(s.drop_last().push(s.last()) =~= s);
    }
}

/// What the pipeline decides for one raw line.
pub enum Step {
    /// The record was rejected by the filter; nothing is delivered.
    Rejected(Record),
    /// Deliver the record to every sink now.
    Deliver(Record),
    /// Deliver the record, then stop the whole pipeline: the `head`
    /// budget is spent.
    DeliverAndStop(Record),
    /// The record was accepted and buffered for the `tail` flush.
    Buffered,
}

/// The pipeline's per-line policy state: the immutable filter, the
/// remaining `head` budget, and the `tail` ring.
pub struct Pipeline {
    pub filter: FilterConfig,
    /// Accepted records still to deliver before the pipeline halts;
    /// `None` means no `head` bound.
    pub head_remaining: Option<u64>,
    /// The `tail` ring; `None` means records are delivered immediately.
    pub tail: Option<TailBuffer>,
}

impl Pipeline {
    /// The filter is usable, the ring (if any) within its bound, and the
    /// `head` budget (if any) not yet spent.
    pub open spec fn wf(self) -> bool {
        &&& self.filter.wf()
        &&& (self.tail matches Some(t) ==> t.wf())
        &&& (self.head_remaining matches Some(k) ==> k > 0)
    }

    /// A pipeline over a filter, with an optional `head` bound and an
    /// optional `tail` ring bound.
    pub fn new(filter: FilterConfig, head: Option<u64>, tail: Option<usize>) -> (r: Pipeline)
        requires
            filter.wf(),
            head matches Some(k) ==> k > 0,
        ensures
            r.wf(),
            r.filter == filter,
            r.head_remaining == head,
            r.tail matches Some(t) <==> tail is Some,
            tail matches Some(c) ==> (r.tail matches Some(t) && t.cap() == c && t.contents()
                == Seq::<Record>::empty()),
    {
        let tail_buf = match tail {
            Some(c) => Some(TailBuffer::new(c)),
            None => None,
        };
        Pipeline { filter, head_remaining: head, tail: tail_buf }
    }

    /// One raw line: parse it, filter the record, and decide. Rejection
    /// changes nothing; with a `tail` ring the record is buffered; with a
    /// `head` budget the budget shrinks and its last delivery halts the
    /// pipeline.
    pub fn process_line(&mut self, line: &str) -> (r: Step)
        requires
            old(self).wf(),
        ensures
            final(self).wf(),
            final(self).filter == old(self).filter,
            r matches Step::Rejected(rec) ==> {
                &&& parse_rel(line@, rec)
                &&& !accept_spec(old(self).filter@, rec)
                &&& final(self).head_remaining == old(self).head_remaining
                &&& final(self).tail == old(self).tail
            },
            r matches Step::Buffered ==> old(self).tail is Some,
            old(self).tail matches Some(t) ==> {
                &&& (r matches Step::Buffered || r matches Step::Rejected(_))
                &&& final(self).head_remaining == old(self).head_remaining
                &&& (r matches Step::Buffered ==> exists|rec: Record|
                    {
                        &&& #[trigger] parse_rel(line@, rec)
                        &&& accept_spec(old(self).filter@, rec)
                        &&& final(self).tail matches Some(t2) && t2.contents() == last_n(
                            t.contents().push(rec),
                            t.cap(),
                        ) && t2.cap() == t.cap()
                    })
            },
            old(self).tail is None ==> {
                &&& final(self).tail is None
                &&& (r matches Step::Deliver(rec) ==> {
                    &&& parse_rel(line@, rec)
                    &&& accept_spec(old(self).filter@, rec)
                    &&& (old(self).head_remaining matches Some(k) ==> k > 1 && final(
                        self).head_remaining == Some((k - 1) as u64))
                    &&& (old(self).head_remaining is None ==> final(self).head_remaining
                        is None)
                })
                &&& (r matches Step::DeliverAndStop(rec) ==> {
                    &&& parse_rel(line@, rec)
                    &&& accept_spec(old(self).filter@, rec)
                    &&& old(self).head_remaining == Some(1u64)
                })
                &&& !(r matches Step::Buffered)
            },
    {
        let rec = parse(line);
        if !self.filter.accept(&rec) {
            return Step::Rejected(rec);
        }
        match &mut self.tail {
            Some(t) => {
                t.push(rec);
                Step::Buffered
            },
            None => {
                match self.head_remaining {
                    Some(k) => {
                        if k == 1 {
                            Step::DeliverAndStop(rec)
                        } else {
                            self.head_remaining = Some(k - 1);
                            Step::Deliver(rec)
                        }
                    },
                    None => Step::Deliver(rec),
                }
            },
        }
    }

    /// End of a finite source: hands out the `tail` ring's records —
    /// the last accepted ones, oldest first — or nothing when no `tail`
    /// was configured.
    pub fn finish(self) -> (r: Vec<Record>)
        ensures
            self.tail matches Some(t) ==> r@ == t.contents(),
            self.tail is None ==> r@ == Seq::<Record>::empty(),
    {
        match self.tail {
            Some(t) => t.into_records(),
            None => Vec::new(),
        }
    }
}

} // verus!

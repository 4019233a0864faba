//! The intended semantics of the bridge's conduit, stated and proved.
//!
//! The live channel is shared between two threads, so its buffer cannot be
//! spoken of as a function of a handle (see `channel`). This module states
//! the first-in first-out semantics that the conduit is relied upon to have,
//! as a verified buffer with the same operations, and proves the drain laws
//! against it: a capped drain yields the oldest buffered records in arrival
//! order, leaves exactly the rest, and loses, duplicates and reorders
//! nothing.

use vstd::prelude::*;
use crate::channel::RecvOutcome;

verus! {

/// How many records a drain with budget `cap` removes from a buffer holding
/// `len` records: everything available, up to the cap.
pub open spec fn drain_count(len: nat, cap: nat) -> nat {
    if cap <= len {
        cap
    } else {
        len
    }
}

/// The records a drain with budget `cap` yields from the buffered sequence
/// `s`: the oldest ones, in arrival order.
pub open spec fn drained_part<T>(s: Seq<T>, cap: nat) -> Seq<T> {
    s.take(drain_count(s.len(), cap) as int)
}

/// The records a drain with budget `cap` leaves buffered.
pub open spec fn remaining_part<T>(s: Seq<T>, cap: nat) -> Seq<T> {
    s.skip(drain_count(s.len(), cap) as int)
}

/// One end-to-end state of the conduit: the records sent but not yet
/// received, oldest first, and whether the producer side is gone.
pub struct ChannelModel<T> {
    /// Sent but not yet received, in arrival order.
    pub buffered: Vec<T>,
    /// The producer side has been dropped or closed.
    pub closed: bool,
}

impl<T> ChannelModel<T> {
    /// A fresh conduit: nothing buffered, producer still live.
    pub fn empty() -> (m: Self)
        ensures
            m.buffered@ == Seq::<T>::empty(),
            !m.closed,
    {
        ChannelModel { buffered: Vec::new(), closed: false }
    }

    /// The producer delivers one record: appended at the young end, unless
    /// the conduit is closed, in which case the record is refused and
    /// nothing changes.
    pub fn push(&mut self, record: T) -> (accepted: bool)
        ensures
            accepted == !old(self).closed,
            final(self).closed == old(self).closed,
            accepted ==> final(self).buffered@ == old(self).buffered@.push(record),
            !accepted ==> final(self).buffered@ == old(self).buffered@,
    {
        if self.closed {
            false
        } else {
            self.buffered.push(record);
            true
        }
    }

    /// The producer side goes away; whatever is buffered stays receivable.
    pub fn close(&mut self)
        ensures
            final(self).closed,
            final(self).buffered@ == old(self).buffered@,
    {
        self.closed = true;
    }

    /// One non-blocking receive attempt: the oldest record if any is
    /// buffered, otherwise a report of why nothing came, with the state
    /// unchanged.
    pub fn try_next(&mut self) -> (r: RecvOutcome<T>)
        ensures
            final(self).closed == old(self).closed,
            old(self).buffered@.len() > 0 ==> (
                r == RecvOutcome::Item(old(self).buffered@[0])
                && final(self).buffered@ == old(self).buffered@.skip(1)
            ),
            old(self).buffered@.len() == 0 ==> (
                final(self).buffered@ == old(self).buffered@
                && r == (if old(self).closed {
                    RecvOutcome::<T>::Closed
                } else {
                    RecvOutcome::<T>::Empty
                })
            ),
    {
        if self.buffered.len() > 0 {
            let v = self.buffered.remove(0);
            proof {
                assert(self.buffered@ =~= old(self).buffered@.skip(1));
            }
            RecvOutcome::Item(v)
        } else if self.closed {
            RecvOutcome::Closed
        } else {
            RecvOutcome::Empty
        }
    }

    /// A capped, non-blocking drain: yields the oldest buffered records, in
    /// arrival order, up to `cap` of them, and leaves exactly the rest. On
    /// an empty buffer it yields nothing, closed or not: running dry is not
    /// an error.
    pub fn drain(&mut self, cap: usize) -> (out: Vec<T>)
        ensures
            out@ == drained_part(old(self).buffered@, cap as nat),
            final(self).buffered@ == remaining_part(old(self).buffered@, cap as nat),
            final(self).closed == old(self).closed,
    {
        let mut out: Vec<T> = Vec::new();
        let mut budget: usize = cap;
        while budget > 0 && self.buffered.len() > 0
            invariant
                budget <= cap,
                cap - budget <= old(self).buffered@.len(),
                out@ == old(self).buffered@.take(cap - budget),
                self.buffered@ == old(self).buffered@.skip(cap - budget),
                self.closed == old(self).closed,
            decreases budget,
        {
            let v = self.buffered.remove(0);
            out.push(v);
            budget = budget - 1;
            proof {
                assert(self.buffered@ =~= old(self).buffered@.skip(cap - budget));
                assert(out@ =~= old(self).buffered@.take(cap - budget));
            }
        }
        proof {
            assert(out@ =~= drained_part(old(self).buffered@, cap as nat));
            assert(self.buffered@ =~= remaining_part(old(self).buffered@, cap as nat));
        }
        out
    }
}

/// Drain law: with a budget covering every buffered record, one drain yields
/// exactly the buffered records, in order, and leaves nothing; a following
/// drain, with any budget, yields nothing.
pub proof fn lemma_drain_all<T>(s: Seq<T>, cap: nat, later_cap: nat)
    requires
        s.len() <= cap,
    ensures
        drained_part(s, cap) == s,
        remaining_part(s, cap) == Seq::<T>::empty(),
        drained_part(remaining_part(s, cap), later_cap) == Seq::<T>::empty(),
{
    assert(drained_part(s, cap) =~= s);
    assert(remaining_part(s, cap) =~= Seq::<T>::empty());
    assert(drained_part(remaining_part(s, cap), later_cap) =~= Seq::<T>::empty());
}

/// Drain law: with a budget k at most the buffered count, a single drain
/// yields exactly the k oldest records and leaves the other (count - k)
/// buffered for the next call; together they are the original buffer, so no
/// record is lost, duplicated or reordered.
pub proof fn lemma_drain_partial<T>(s: Seq<T>, k: nat)
    requires
        k <= s.len(),
    ensures
        drained_part(s, k).len() == k,
        remaining_part(s, k).len() == s.len() - k,
        drained_part(s, k) + remaining_part(s, k) == s,
{
    assert(drained_part(s, k) + remaining_part(s, k) =~= s);
}

/// Drain law: draining an empty buffer yields nothing and leaves it empty,
/// whatever the budget. Once a buffer is empty — in particular once a closed
/// conduit has been drained dry — every further drain therefore yields
/// nothing, indefinitely, and never errs.
pub proof fn lemma_drain_empty<T>(cap: nat)
    ensures
        drained_part(Seq::<T>::empty(), cap) == Seq::<T>::empty(),
        remaining_part(Seq::<T>::empty(), cap) == Seq::<T>::empty(),
{
    assert(drained_part(Seq::<T>::empty(), cap) =~= Seq::<T>::empty());
    assert(remaining_part(Seq::<T>::empty(), cap) =~= Seq::<T>::empty());
}

} // verus!


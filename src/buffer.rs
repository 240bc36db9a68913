//! Reports kept while the connection is down: a bounded queue that drops
//! the oldest report to make room for a new one.
use vstd::prelude::*;
use std::collections::VecDeque;

verus! {

/// Default number of reports kept.
pub const DEFAULT_CAPACITY: usize = 10;

/// The queue after `x` is added to `q` under capacity `cap`.
pub open spec fn push_spec<T>(cap: nat, q: Seq<T>, x: T) -> Seq<T> {
    if q.len() >= cap {
        q.drop_first().push(x)
    } else {
        q.push(x)
    }
}

/// The queue after each of `items` is added in turn to an empty one.
pub open spec fn fill_spec<T>(cap: nat, items: Seq<T>) -> Seq<T>
    decreases items.len(),
{
    if items.len() == 0 {
        Seq::empty()
    } else {
        push_spec(cap, fill_spec(cap, items.drop_last()), items.last())
    }
}

pub open spec fn newest<T>(cap: nat, items: Seq<T>) -> Seq<T> {
    if items.len() > cap {
        items.subrange(items.len() - cap, items.len() as int)
    } else {
        items
    }
}

/// Adding reports one by one to an empty queue leaves the `cap` most recent,
/// oldest first.
pub proof fn lemma_keeps_newest<T>(cap: nat, items: Seq<T>)
    requires
        cap > 0,
    ensures
        fill_spec(cap, items) == newest(cap, items),
    decreases items.len(),
{
    if items.len() > 0 {
        let pre = items.drop_last();
        lemma_keeps_newest(cap, pre);
        let q = fill_spec(cap, pre);
        if pre.len() >= cap {
            assert(q.drop_first().push(items.last()) =~= newest(cap, items));
        } else {
            assert(q.push(items.last()) =~= newest(cap, items));
        }
    }
}

/// A bounded queue of reports waiting to be sent.
pub struct ReportBuffer<T> {
    pub items: VecDeque<T>,
    pub capacity: usize,
}

impl<T> ReportBuffer<T> {
    pub open spec fn view(&self) -> Seq<T> {
        self.items@
    }

    pub open spec fn well_formed(&self) -> bool {
        self.capacity > 0 && self.items@.len() <= self.capacity
    }

    pub fn new(capacity: usize) -> (b: Self)
        requires
            capacity > 0,
        ensures
            b.well_formed(),
            b.view() == Seq::<T>::empty(),
            b.capacity == capacity,
    {
        ReportBuffer { items: VecDeque::new(), capacity }
    }

    pub fn len(&self) -> (n: usize)
        ensures
            n == self.view().len(),
    {
        self.items.len()
    }

    /// Adds a report; when full, the oldest one is dropped first and returned.
    pub fn push(&mut self, x: T) -> (dropped: Option<T>)
        requires
            old(self).well_formed(),
        ensures
            final(self).well_formed(),
            final(self).capacity == old(self).capacity,
            final(self).view() == push_spec(old(self).capacity as nat, old(self).view(), x),
            old(self).view().len() >= old(self).capacity ==> dropped == Some(old(self).view()[0]),
            old(self).view().len() < old(self).capacity ==> dropped is None,
    {
        let dropped = if self.items.len() >= self.capacity {
            self.items.pop_front()
        } else {
            None
        };
        self.items.push_back(x);
        dropped
    }

    /// Routes a new report: handed back to be sent at once where the
    /// connection is up and nothing older waits, else queued behind the
    /// waiting ones so that capture order is kept.
    pub fn enqueue_or_send(&mut self, connected: bool, x: T) -> (now: Option<T>)
        requires
            old(self).well_formed(),
        ensures
            final(self).well_formed(),
            final(self).capacity == old(self).capacity,
            connected && old(self).view().len() == 0 ==> now == Some(x) && final(self).view()
                == old(self).view(),
            !(connected && old(self).view().len() == 0) ==> now is None && final(self).view()
                == push_spec(old(self).capacity as nat, old(self).view(), x),
    {
        if connected && self.items.len() == 0 {
            Some(x)
        } else {
            self.push(x);
            None
        }
    }

    /// Takes every report out, oldest first.
    pub fn drain(&mut self) -> (out: Vec<T>)
        requires
            old(self).well_formed(),
        ensures
            final(self).well_formed(),
            final(self).capacity == old(self).capacity,
            out@ == old(self).view(),
            final(self).view() == Seq::<T>::empty(),
    {
        let mut out: Vec<T> = Vec::new();
        let ghost all = self.items@;
        while self.items.len() > 0
            invariant
                self.capacity == old(self).capacity,
                self.capacity > 0,
                self.items@.len() <= self.capacity,
                all == old(self).items@,
                out@ + self.items@ == all,
            decreases self.items@.len(),
        {
            match self.items.pop_front() {
                Some(x) => {
                    out.push(x);
                    assert(out@ + self.items@ =~= all);
                },
                None => {},
            }
        }
        assert(out@ =~= all);
        out
    }
}

} // verus!

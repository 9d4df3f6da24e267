//! The bounded history buffer: an insertion-ordered sequence of records,
//! capped at `HISTORY_CAPACITY`, evicting the oldest record when full.

use vstd::prelude::*;
use crate::record::LogEntry;
use crate::HISTORY_CAPACITY;

verus! {

/// What recording one entry does to the retained sequence: the entry is
/// appended, and if the history then exceeds its capacity the single oldest
/// record is dropped.
pub open spec fn spec_record(h: Seq<LogEntry>, e: LogEntry) -> Seq<LogEntry> {
    let grown = h.push(e);
    if grown.len() > HISTORY_CAPACITY {
        grown.skip(1)
    } else {
        grown
    }
}

/// The sequence retained after a whole sequence of calls, starting from an
/// empty history.
pub open spec fn spec_history_of(calls: Seq<LogEntry>) -> Seq<LogEntry>
    decreases calls.len(),
{
    if calls.len() == 0 {
        Seq::empty()
    } else {
        spec_record(spec_history_of(calls.drop_last()), calls.last())
    }
}

/// The bounded in-memory history of recent records, oldest first.
pub struct History {
    entries: Vec<LogEntry>,
}

impl View for History {
    type V = Seq<LogEntry>;

    closed spec fn view(&self) -> Seq<LogEntry> {
        self.entries@
    }
}

impl History {
    /// A history is well formed when it holds at most `HISTORY_CAPACITY`
    /// records. Every operation preserves this.
    pub open spec fn wf(&self) -> bool {
        self@.len() <= HISTORY_CAPACITY
    }

    /// An empty history.
    pub fn new() -> (r: Self)
        ensures
            r@ == Seq::<LogEntry>::empty(),
            r.wf(),
    {
        History { entries: Vec::new() }
    }

    /// Append `e`, evicting the oldest record if the history would otherwise
    /// exceed its capacity.
    pub fn record(&mut self, e: LogEntry)
        requires
            old(self).wf(),
        ensures
            final(self).wf(),
            final(self)@ == spec_record(old(self)@, e),
    {
        self.entries.push(e);
        if self.entries.len() > HISTORY_CAPACITY {
            self.entries.remove(0);
        }
        proof {
            assert(self@ =~= spec_record(old(self)@, e));
        }
    }

    /// An independent copy of the retained records, oldest first.
    pub fn snapshot(&self) -> (r: Vec<LogEntry>)
        ensures
            r@ == self@,
    {
        let mut out: Vec<LogEntry> = Vec::new();
        let mut i: usize = 0;
        while i < self.entries.len()
            invariant
                i <= self.entries@.len(),
                out@ == self.entries@.subrange(0, i as int),
            decreases self.entries@.len() - i,
        {
            out.push(self.entries[i].clone());
            proof {
                assert(out@ =~= self.entries@.subrange(0, i + 1 as int));
            }
            i = i + 1;
        }
        proof {
            assert(out@ =~= self@);
        }
        out
    }
}

/// Law: after any sequence of calls into an initially empty history, the
/// history retains exactly the most recent calls in call order: all of them
/// when there have been at most `HISTORY_CAPACITY`, and otherwise exactly
/// the last `HISTORY_CAPACITY` of them.
pub proof fn lemma_history_retains_recent_calls(calls: Seq<LogEntry>)
    ensures
        calls.len() <= HISTORY_CAPACITY ==> spec_history_of(calls) == calls,
        calls.len() > HISTORY_CAPACITY ==> spec_history_of(calls) == calls.skip(
            calls.len() - HISTORY_CAPACITY as int,
        ),
        spec_history_of(calls).len() == if calls.len() <= HISTORY_CAPACITY {
            calls.len()
        } else {
            HISTORY_CAPACITY as nat
        },
    decreases calls.len(),
{
    if calls.len() == 0 {
        assert(spec_history_of(calls) =~= calls);
    } else {
        let pre = calls.drop_last();
        lemma_history_retains_recent_calls(pre);
        if calls.len() <= HISTORY_CAPACITY {
            assert(spec_history_of(calls) =~= calls);
        } else if calls.len() == HISTORY_CAPACITY + 1 {
            assert(spec_history_of(calls) =~= calls.skip(1));
        } else {
            assert(spec_history_of(calls) =~= calls.skip(
                calls.len() - HISTORY_CAPACITY as int,
            ));
        }
    }
}

/// Law: recording never fabricates or corrupts data: every record retained
/// after a call either is the record just passed in or was already retained
/// before the call.
pub proof fn lemma_record_preserves_provenance(h: Seq<LogEntry>, e: LogEntry)
    ensures
        forall|i: int|
            0 <= i < spec_record(h, e).len() ==> spec_record(h, e)[i] == e || h.contains(
                spec_record(h, e)[i],
            ),
{
    assert forall|i: int| 0 <= i < spec_record(h, e).len() implies spec_record(h, e)[i] == e
        || h.contains(spec_record(h, e)[i]) by {
        if spec_record(h, e)[i] != e {
            let grown = h.push(e);
            if grown.len() > HISTORY_CAPACITY {
                assert(spec_record(h, e)[i] == h[i + 1]);
            } else {
                assert(spec_record(h, e)[i] == h[i]);
            }
        }
    }
}

/// Law: reading the history does not change it: any two snapshots taken of
/// one history state, with no recording in between, are the same sequence.
pub proof fn lemma_snapshot_idempotent(h: History, first: Seq<LogEntry>, second: Seq<LogEntry>)
    requires
        first == h@,
        second == h@,
    ensures
        first == second,
{
}

} // verus!

//! Note-gate state: a saturating counter of currently-held notes, driven by
//! the status byte of each delivered event. Status byte 144 (note on) raises
//! the counter, 128 (note off) lowers it but never below zero, and every
//! other byte leaves it unchanged.
use vstd::prelude::*;

verus! {

/// Status byte that marks a note-on event on channel zero.
pub const NOTE_ON: u8 = 144;

/// Status byte that marks a note-off event on channel zero.
pub const NOTE_OFF: u8 = 128;

/// How one status byte moves the note-gate counter: note on adds one, note off
/// subtracts one saturating at zero, anything else is ignored.
pub open spec fn gate_step(g: nat, status: u8) -> nat {
    if status == NOTE_ON {
        g + 1
    } else if status == NOTE_OFF {
        if g > 0 {
            (g - 1) as nat
        } else {
            0
        }
    } else {
        g
    }
}

/// The note-gate counter after delivering a whole sequence of status bytes, in
/// order, starting from `g`.
pub open spec fn gate_fold(g: nat, statuses: Seq<u8>) -> nat
    decreases statuses.len(),
{
    if statuses.len() == 0 {
        g
    } else {
        gate_step(gate_fold(g, statuses.drop_last()), statuses.last())
    }
}

/// Number of note-on bytes in a sequence.
pub open spec fn count_on(statuses: Seq<u8>) -> nat
    decreases statuses.len(),
{
    if statuses.len() == 0 {
        0
    } else {
        count_on(statuses.drop_last()) + if statuses.last() == NOTE_ON {
            1nat
        } else {
            0nat
        }
    }
}

/// Number of note-off bytes in a sequence.
pub open spec fn count_off(statuses: Seq<u8>) -> nat
    decreases statuses.len(),
{
    if statuses.len() == 0 {
        0
    } else {
        count_off(statuses.drop_last()) + if statuses.last() == NOTE_OFF {
            1nat
        } else {
            0nat
        }
    }
}

/// Every prefix of the sequence has at least as many note-on bytes as
/// note-off bytes, so the saturation at zero is never exercised.
pub open spec fn prefixes_balanced(statuses: Seq<u8>) -> bool {
    forall|i: int|
        0 <= i <= statuses.len() ==> count_off(#[trigger] statuses.subrange(0, i)) <= count_on(
            statuses.subrange(0, i),
        )
}

proof fn lemma_counts_drop_last(statuses: Seq<u8>)
    requires
        statuses.len() > 0,
        prefixes_balanced(statuses),
    ensures
        prefixes_balanced(statuses.drop_last()),
{
    assert forall|i: int|
        0 <= i <= statuses.drop_last().len() implies count_off(
        #[trigger] statuses.drop_last().subrange(0, i),
    ) <= count_on(statuses.drop_last().subrange(0, i)) by {
        assert(statuses.drop_last().subrange(0, i) =~= statuses.subrange(0, i));
        assert(count_off(statuses.subrange(0, i)) <= count_on(statuses.subrange(0, i)));
    }
}

/// The note-gate counter never drops below the running balance of note-on over
/// note-off bytes, and never exceeds the starting value plus the note-on
/// count. Starting from zero the counter is therefore always at least
/// max(0, #note-on - #note-off) and at most #note-on.
pub proof fn lemma_gate_fold_bounds(g: nat, statuses: Seq<u8>)
    ensures
        gate_fold(g, statuses) + count_off(statuses) >= g + count_on(statuses),
        gate_fold(g, statuses) <= g + count_on(statuses),
    decreases statuses.len(),
{
    if statuses.len() > 0 {
        lemma_gate_fold_bounds(g, statuses.drop_last());
    }
}

/// Law: for every sequence of events whose prefixes are all balanced (no
/// note-off arrives before its matching note-on), the note-gate counter after
/// processing the whole sequence from zero is exactly
/// #note-on - #note-off, which equals max(0, #note-on - #note-off).
/// An unbalanced sequence, such as a note-off followed by a note-on, ends
/// with a counter above that balance because of the saturation at zero.
pub proof fn lemma_gate_fold_exact(statuses: Seq<u8>)
    requires
        prefixes_balanced(statuses),
    ensures
        gate_fold(0, statuses) == count_on(statuses) - count_off(statuses),
    decreases statuses.len(),
{
    if statuses.len() > 0 {
        lemma_counts_drop_last(statuses);
        lemma_gate_fold_exact(statuses.drop_last());
        assert(statuses.subrange(0, statuses.len() as int) =~= statuses);
        if statuses.last() == NOTE_OFF {
            assert(statuses.drop_last() =~= statuses.subrange(0, statuses.len() - 1));
            assert(count_off(statuses.drop_last()) <= count_on(statuses.drop_last()));
            assert(count_off(statuses) <= count_on(statuses));
        }
    } else {
        assert(statuses.subrange(0, 0) =~= statuses);
    }
}

/// The count of currently-held notes. It saturates at zero on a note-off
/// that has no matching note-on, as a lost note-off must not crash the
/// real-time path.
pub struct NoteGate {
    /// The number of notes currently held.
    pub count: u64,
}

impl NoteGate {
    /// A gate with no held notes.
    pub fn new() -> (r: NoteGate)
        ensures
            r.count == 0,
    {
        NoteGate { count: 0 }
    }

    /// True when at least one note is held, so the generator must produce
    /// signal rather than silence.
    pub fn is_active(&self) -> (r: bool)
        ensures
            r == (self.count > 0),
    {
        self.count > 0
    }

    /// Deliver one event's status byte to the note gate.
    pub fn on_event(&mut self, status: u8)
        requires
            old(self).count < u64::MAX,
        ensures
            final(self).count == gate_step(old(self).count as nat, status),
    {
        if status == NOTE_ON {
            self.count = self.count + 1;
        } else if status == NOTE_OFF {
            if self.count > 0 {
                self.count = self.count - 1;
            }
        }
    }

    /// Deliver a batch of events, in arrival order. The bound on the batch
    /// size only rules out overflowing the machine counter.
    pub fn process_events(&mut self, statuses: &Vec<u8>)
        requires
            old(self).count + statuses@.len() <= u64::MAX,
        ensures
            final(self).count == gate_fold(old(self).count as nat, statuses@),
    {
        let ghost start: nat = self.count as nat;
        let mut i: usize = 0;
        while i < statuses.len()
            invariant
                0 <= i <= statuses@.len(),
                start + statuses@.len() <= u64::MAX,
                self.count as nat == gate_fold(start, statuses@.subrange(0, i as int)),
                self.count <= start + i,
            decreases statuses@.len() - i,
        {
            proof {
                lemma_gate_fold_bounds(start, statuses@.subrange(0, i as int));
                assert(statuses@.subrange(0, i + 1) =~= statuses@.subrange(0, i as int).push(
                    statuses@[i as int],
                ));
                assert(statuses@.subrange(0, i + 1).drop_last() =~= statuses@.subrange(
                    0,
                    i as int,
                ));
            }
            self.on_event(statuses[i]);
            i = i + 1;
        }
        proof {
            assert(statuses@.subrange(0, statuses@.len() as int) =~= statuses@);
        }
    }
}

} // verus!

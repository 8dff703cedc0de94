use vstd::prelude::*;

verus! {

/// Hands out task ids in increasing order.
///
/// The allocator remembers the last id it issued. A manager owns exactly one
/// allocator and reaches it only through `&mut`, so two callers can never be
/// given the same id.
pub struct IdentityAllocator {
    last: i32,
}

/// The counter an allocator starts from, given the largest id the basic
/// store holds: that id, or 0 for an empty store.
pub open spec fn seed_of(max: Option<i32>) -> int {
    match max {
        Some(m) => m as int,
        None => 0,
    }
}

/// The id issued after `last`: one more, unless `last` is the largest `i32`.
pub open spec fn issued_after(last: int) -> Option<i32> {
    if last < i32::MAX {
        Some((last + 1) as i32)
    } else {
        None
    }
}

/// The counter after an attempt to issue an id: it moves only when an id was
/// issued.
pub open spec fn counter_after(last: int) -> int {
    if last < i32::MAX {
        last + 1
    } else {
        last
    }
}

impl View for IdentityAllocator {
    type V = i32;

    /// The last id issued, or the seed if none was issued yet.
    closed spec fn view(&self) -> i32 {
        self.last
    }
}

impl IdentityAllocator {
    /// An allocator that continues after `max`, the largest id already
    /// stored; with `None`, for an empty store, it starts after 0.
    pub fn seeded(max: Option<i32>) -> (allocator: IdentityAllocator)
        ensures
            allocator@ == seed_of(max),
    {
        match max {
            Some(m) => IdentityAllocator { last: m },
            None => IdentityAllocator { last: 0 },
        }
    }

    /// The last id issued, or the seed if none was issued yet.
    pub fn last_issued(&self) -> (last: i32)
        ensures
            last == self@,
    {
        self.last
    }

    /// Issues the next id: one more than the last. When the last id was
    /// `i32::MAX` nothing is issued and the allocator stays as it was.
    pub fn next_id(&mut self) -> (issued: Option<i32>)
        ensures
            issued == issued_after(old(self)@ as int),
            final(self)@ == counter_after(old(self)@ as int),
        no_unwind
    {
        if self.last < i32::MAX {
            self.last = self.last + 1;
            Some(self.last)
        } else {
            None
        }
    }
}

/// Ids are strictly increasing without gaps: when two ids are issued one
/// after the other, the second is the first plus one.
pub proof fn lemma_ids_ascend(last: int)
    requires
        i32::MIN <= last <= i32::MAX,
        issued_after(last).is_some(),
        issued_after(counter_after(last)).is_some(),
    ensures
        issued_after(counter_after(last)).unwrap() == issued_after(last).unwrap() + 1,
{
}

/// An id that was issued is never issued again: every later id is larger.
pub proof fn lemma_ids_never_repeat(last: int, later: int)
    requires
        i32::MIN <= last <= i32::MAX,
        counter_after(last) <= later <= i32::MAX,
        issued_after(last).is_some(),
        issued_after(later).is_some(),
    ensures
        issued_after(later).unwrap() > issued_after(last).unwrap(),
{
}

/// An allocator seeded from a store whose largest id is `max` issues
/// `max + 1` first; seeded from an empty store it issues 1.
pub proof fn lemma_first_id_after_seed(max: Option<i32>)
    requires
        seed_of(max) < i32::MAX,
    ensures
        issued_after(seed_of(max)) == Some((seed_of(max) + 1) as i32),
        max.is_none() ==> issued_after(seed_of(max)) == Some(1i32),
{
}

/// The counter after `calls` attempts to issue an id, one after the other.
pub open spec fn counter_after_calls(last: int, calls: nat) -> int
    decreases calls,
{
    if calls == 0 {
        last
    } else {
        counter_after(counter_after_calls(last, (calls - 1) as nat))
    }
}

/// After any number of attempts the counter is the start plus that number,
/// or the largest `i32` where that would be passed.
pub proof fn lemma_counter_after_calls(last: int, calls: nat)
    requires
        last <= i32::MAX,
    ensures
        counter_after_calls(last, calls) == if last + calls <= i32::MAX {
            last + calls
        } else {
            i32::MAX as int
        },
    decreases calls,
{
    if calls > 0 {
        lemma_counter_after_calls(last, (calls - 1) as nat);
    }
}

/// Over any sequence of attempts on one allocator, the ids that are issued
/// are strictly increasing in the order of the attempts, and so no id is
/// issued twice. Nothing but an attempt moves the counter, so whatever
/// happens between two attempts does not matter.
pub proof fn lemma_ids_increase_over_calls(last: int, earlier: nat, later: nat)
    requires
        i32::MIN <= last <= i32::MAX,
        earlier < later,
        issued_after(counter_after_calls(last, earlier)).is_some(),
        issued_after(counter_after_calls(last, later)).is_some(),
    ensures
        issued_after(counter_after_calls(last, earlier)).unwrap() < issued_after(
            counter_after_calls(last, later),
        ).unwrap(),
{
    lemma_counter_after_calls(last, earlier);
    lemma_counter_after_calls(last, later);
}

} // verus!

//! The correlation store: a mapping from callback id to one pending
//! exchange, with insert and take-and-remove as its only operations.

use vstd::prelude::*;
use std::collections::HashMap;

verus! {

broadcast use vstd::std_specs::hash::group_hash_axioms;

/// A shared table of pending exchanges, keyed by the 32-bit callback id
/// of the invocation that created each one.
///
/// `insert` overwrites any prior entry under the same id (callback ids
/// are issued upstream; a collision is last-write-wins), and
/// `take_and_remove` atomically removes and returns an entry, reporting
/// a missing id as a plain `None` rather than a fault, so that a late
/// or duplicate completion can be dropped silently.
pub struct CorrelationStore<C> {
    table: HashMap<u32, C>,
}

impl<C> View for CorrelationStore<C> {
    type V = Map<u32, C>;

    closed spec fn view(&self) -> Map<u32, C> {
        self.table@
    }
}

impl<C> CorrelationStore<C> {
    /// A store with no pending exchange.
    pub fn new() -> (s: Self)
        ensures
            s@ == Map::<u32, C>::empty(),
    {
        CorrelationStore { table: HashMap::new() }
    }

    /// Stores `exchange` under `id`, overwriting any prior entry with
    /// that id.
    pub fn insert(&mut self, id: u32, exchange: C)
        ensures
            final(self)@ == old(self)@.insert(id, exchange),
    {
        self.table.insert(id, exchange);
    }

    /// Removes and returns the exchange stored under `id`, if any; a
    /// missing id leaves the store unchanged and yields `None`.
    pub fn take_and_remove(&mut self, id: u32) -> (r: Option<C>)
        ensures
            old(self)@.contains_key(id) ==> r == Some(old(self)@[id])
                && final(self)@ == old(self)@.remove(id),
            !old(self)@.contains_key(id) ==> r is None && final(self)@ == old(self)@,
    {
        self.table.remove(&id)
    }

    /// Whether an exchange is currently stored under `id`.
    pub fn contains(&self, id: u32) -> (r: bool)
        ensures
            r == self@.contains_key(id),
    {
        self.table.contains_key(&id)
    }
}

/// What one take-and-remove does to the mathematical table: the entry
/// under `id` leaves and is returned, or a missing id changes nothing
/// and yields `None`.
pub open spec fn spec_take<C>(m: Map<u32, C>, id: u32) -> (Map<u32, C>, Option<C>) {
    if m.contains_key(id) {
        (m.remove(id), Some(m[id]))
    } else {
        (m, None)
    }
}

/// The table and the sequence of returned exchanges after a sequence
/// of completions is delivered, one take-and-remove each, in the order
/// of `ids`. Completions are independent and keyed only by their id,
/// so any interleaving of concurrent completions is some such order.
pub open spec fn spec_run_completions<C>(m: Map<u32, C>, ids: Seq<u32>) -> (Map<u32, C>, Seq<
    Option<C>,
>)
    decreases ids.len(),
{
    if ids.len() == 0 {
        (m, Seq::empty())
    } else {
        let first = spec_take(m, ids[0]);
        let rest = spec_run_completions(first.0, ids.drop_first());
        (rest.0, seq![first.1] + rest.1)
    }
}

/// One exchange slot comes out per completion delivered.
proof fn lemma_run_len<C>(m: Map<u32, C>, ids: Seq<u32>)
    ensures
        spec_run_completions(m, ids).1.len() == ids.len(),
    decreases ids.len(),
{
    if ids.len() > 0 {
        lemma_run_len(spec_take(m, ids[0]).0, ids.drop_first());
    }
}

/// An id the table does not hold is never handed out by a later
/// completion, and never reappears in the table: completions only
/// remove entries.
proof fn lemma_absent_stays_absent<C>(m: Map<u32, C>, ids: Seq<u32>, k: u32)
    requires
        !m.contains_key(k),
    ensures
        !spec_run_completions(m, ids).0.contains_key(k),
        forall|j: int|
            0 <= j < ids.len() && ids[j] == k ==> spec_run_completions(m, ids).1[j] is None,
    decreases ids.len(),
{
    if ids.len() > 0 {
        let first = spec_take(m, ids[0]);
        assert(!first.0.contains_key(k));
        lemma_run_len(first.0, ids.drop_first());
        lemma_absent_stays_absent(first.0, ids.drop_first(), k);
        assert forall|j: int|
            0 <= j < ids.len() && ids[j] == k implies spec_run_completions(
            m,
            ids,
        ).1[j] is None by {
            if j > 0 {
                assert(ids.drop_first()[j - 1] == ids[j]);
                assert(spec_run_completions(m, ids).1[j] == spec_run_completions(
                    first.0,
                    ids.drop_first(),
                ).1[j - 1]);
            }
        }
    }
}

/// Law: delivering any number of completions with distinct callback
/// ids, each matching a stored exchange, hands every completion
/// exactly the exchange stored under its id, and leaves none of those
/// ids in the table.
pub proof fn lemma_completions_exclusive<C>(m: Map<u32, C>, ids: Seq<u32>)
    requires
        ids.no_duplicates(),
        forall|i: int| 0 <= i < ids.len() ==> m.contains_key(#[trigger] ids[i]),
    ensures
        spec_run_completions(m, ids).1.len() == ids.len(),
        forall|i: int|
            0 <= i < ids.len() ==> spec_run_completions(m, ids).1[i] == Some(m[#[trigger] ids[i]]),
        forall|i: int|
            0 <= i < ids.len() ==> !spec_run_completions(m, ids).0.contains_key(#[trigger] ids[i]),
    decreases ids.len(),
{
    if ids.len() > 0 {
        let first = spec_take(m, ids[0]);
        let rest_ids = ids.drop_first();
        lemma_run_len(first.0, rest_ids);
        lemma_run_len(m, ids);
        assert(first.1 == Some(m[ids[0]]));
        assert forall|i: int| 0 <= i < rest_ids.len() implies first.0.contains_key(
            #[trigger] rest_ids[i],
        ) by {
            assert(rest_ids[i] == ids[i + 1]);
            assert(ids[i + 1] != ids[0]);
        }
        lemma_completions_exclusive(first.0, rest_ids);
        lemma_absent_stays_absent(first.0, rest_ids, ids[0]);
        assert forall|i: int| 0 <= i < ids.len() implies spec_run_completions(m, ids).1[i] == Some(
            m[#[trigger] ids[i]],
        ) by {
            if i > 0 {
                assert(rest_ids[i - 1] == ids[i]);
                assert(first.0[ids[i]] == m[ids[i]]);
                assert(spec_run_completions(m, ids).1[i] == spec_run_completions(
                    first.0,
                    rest_ids,
                ).1[i - 1]);
            }
        }
        assert forall|i: int| 0 <= i < ids.len() implies !spec_run_completions(
            m,
            ids,
        ).0.contains_key(#[trigger] ids[i]) by {
            if i > 0 {
                assert(rest_ids[i - 1] == ids[i]);
            }
        }
    }
}

/// Law: no exchange is completed twice. Of two completions carrying
/// the same callback id, only the first can be handed an exchange: the
/// later one finds nothing, whatever else was delivered in between.
pub proof fn lemma_no_double_completion<C>(m: Map<u32, C>, ids: Seq<u32>, i: int, j: int)
    requires
        0 <= i < j < ids.len(),
        ids[i] == ids[j],
    ensures
        spec_run_completions(m, ids).1[j] is None,
    decreases i,
{
    let first = spec_take(m, ids[0]);
    let rest_ids = ids.drop_first();
    lemma_run_len(first.0, rest_ids);
    if i == 0 {
        assert(!first.0.contains_key(ids[0]));
        lemma_absent_stays_absent(first.0, rest_ids, ids[0]);
        assert(rest_ids[j - 1] == ids[j]);
        assert(spec_run_completions(m, ids).1[j] == spec_run_completions(
            first.0,
            rest_ids,
        ).1[j - 1]);
    } else {
        assert(rest_ids[i - 1] == ids[i]);
        assert(rest_ids[j - 1] == ids[j]);
        lemma_no_double_completion(first.0, rest_ids, i - 1, j - 1);
        assert(spec_run_completions(m, ids).1[j] == spec_run_completions(
            first.0,
            rest_ids,
        ).1[j - 1]);
    }
}

} // verus!

//! The ordered, duplicate-free list of reactions chosen for one message.

use crate::segment::{concat, extended_graphemes, joined, split_graphemes, views};
use vstd::prelude::*;

verus! {

/// What a batch of reaction tokens stands for: the batch itself, or, where
/// the tokens together form one user-perceived character, that character as
/// a single token.
pub open spec fn batch_units(reactions: Seq<Seq<char>>) -> Seq<Seq<char>> {
    if extended_graphemes(joined(reactions)).len() == 1 {
        seq![joined(reactions)]
    } else {
        reactions
    }
}

/// No token of `batch` is in `list`.
pub open spec fn disjoint(batch: Seq<Seq<char>>, list: Seq<Seq<char>>) -> bool {
    forall|i: int| 0 <= i < batch.len() ==> !list.contains(#[trigger] batch[i])
}

/// `list` followed by the tokens of `batch` that are not already there, each
/// once, in the order of their first occurrence.
pub open spec fn append_new(list: Seq<Seq<char>>, batch: Seq<Seq<char>>) -> Seq<Seq<char>>
    decreases batch.len(),
{
    if batch.len() == 0 {
        list
    } else {
        let front = append_new(list, batch.drop_last());
        if front.contains(batch.last()) {
            front
        } else {
            front.push(batch.last())
        }
    }
}

/// The list after offering it a batch: admitted as a whole when disjoint from
/// the list, ignored otherwise.
pub open spec fn offered(list: Seq<Seq<char>>, reactions: Seq<Seq<char>>) -> Seq<Seq<char>> {
    let units = batch_units(reactions);
    if disjoint(units, list) {
        append_new(list, units)
    } else {
        list
    }
}

/// Every token of `batch` ends up in `append_new(list, batch)`.
proof fn lemma_append_new_holds_batch(list: Seq<Seq<char>>, batch: Seq<Seq<char>>)
    ensures
        forall|i: int| 0 <= i < batch.len() ==> append_new(list, batch).contains(#[trigger] batch[i]),
    decreases batch.len(),
{
    if batch.len() > 0 {
        let front = batch.drop_last();
        lemma_append_new_holds_batch(list, front);
        let r = append_new(list, batch);
        assert forall|i: int| 0 <= i < batch.len() implies r.contains(#[trigger] batch[i]) by {
            if i < batch.len() - 1 {
                assert(front[i] == batch[i]);
                let prev = append_new(list, front);
                let k = choose|k: int| 0 <= k < prev.len() && prev[k] == front[i];
                if !prev.contains(batch.last()) {
                    assert(r[k] == batch[i]);
                }
            } else {
                if !append_new(list, front).contains(batch.last()) {
                    assert(r[r.len() - 1] == batch[i]);
                }
            }
        }
    }
}

/// `append_new` only adds at the end.
proof fn lemma_append_new_extends(list: Seq<Seq<char>>, batch: Seq<Seq<char>>)
    ensures
        list.len() <= append_new(list, batch).len(),
        append_new(list, batch).subrange(0, list.len() as int) == list,
    decreases batch.len(),
{
    if batch.len() > 0 {
        lemma_append_new_extends(list, batch.drop_last());
        let front = append_new(list, batch.drop_last());
        if !front.contains(batch.last()) {
            assert(front.push(batch.last()).subrange(0, list.len() as int) =~= front.subrange(0, list.len() as int));
        }
    }
}

/// Offering a batch never reorders what is listed: the earlier tokens stay at
/// the front, in their order, and anything new comes after them.
pub proof fn lemma_offer_keeps_order(list: Seq<Seq<char>>, reactions: Seq<Seq<char>>)
    ensures
        list.len() <= offered(list, reactions).len(),
        offered(list, reactions).subrange(0, list.len() as int) == list,
{
    lemma_append_new_extends(list, batch_units(reactions));
    assert(list.subrange(0, list.len() as int) =~= list);
}

/// Offering a batch again once it has been offered changes nothing: the
/// list stays as the first offer left it.
pub proof fn lemma_offer_idempotent(list: Seq<Seq<char>>, reactions: Seq<Seq<char>>)
    ensures
        offered(offered(list, reactions), reactions) == offered(list, reactions),
{
    let units = batch_units(reactions);
    if disjoint(units, list) && units.len() > 0 {
        lemma_append_new_holds_batch(list, units);
        let once = append_new(list, units);
        assert(once.contains(units[0]));
        assert(!disjoint(units, once));
    }
}

/// Reaction tokens in the order they were first admitted, each at most once.
pub struct ReactionSet {
    list: Vec<String>,
}

impl View for ReactionSet {
    type V = Seq<Seq<char>>;

    closed spec fn view(&self) -> Seq<Seq<char>> {
        views(self.list@)
    }
}

impl ReactionSet {
    /// Holds each token at most once.
    pub open spec fn wf(&self) -> bool {
        self@.no_duplicates()
    }

    pub fn new() -> (r: ReactionSet)
        ensures
            r.wf(),
            r@ == Seq::<Seq<char>>::empty(),
    {
        let r = ReactionSet { list: Vec::new() };
        assert(r@ =~= Seq::<Seq<char>>::empty());
        r
    }

    /// Whether `token` has been admitted.
    fn contains(&self, token: &String) -> (r: bool)
        ensures
            r == self@.contains(token@),
    {
        let mut i: usize = 0;
        while i < self.list.len()
            invariant
                i <= self.list@.len(),
                forall|k: int| 0 <= k < i ==> self@[k] != token@,
            decreases self.list@.len() - i,
        {
            if self.list[i] == *token {
                assert(self@[i as int] == token@);
                return true;
            }
            i += 1;
        }
        false
    }

    /// Admits the batch as a whole if none of its tokens is admitted yet.
    fn accept_units(&mut self, batch: &[String])
        requires
            old(self).wf(),
        ensures
            final(self).wf(),
            final(self)@ == (if disjoint(views(batch@), old(self)@) {
                append_new(old(self)@, views(batch@))
            } else {
                old(self)@
            }),
    {
        let ghost units = views(batch@);
        let mut i: usize = 0;
        while i < batch.len()
            invariant
                i <= batch@.len(),
                units == views(batch@),
                self@ == old(self)@,
                self.wf(),
                forall|k: int| 0 <= k < i ==> !self@.contains(#[trigger] units[k]),
            decreases batch@.len() - i,
        {
            if self.contains(&batch[i]) {
                assert(units[i as int] == batch@[i as int]@);
                return;
            }
            i += 1;
        }
        let ghost start = self@;
        let mut j: usize = 0;
        while j < batch.len()
            invariant
                j <= batch@.len(),
                units == views(batch@),
                self@ == append_new(start, units.subrange(0, j as int)),
                self.wf(),
            decreases batch@.len() - j,
        {
            assert(units.subrange(0, j + 1).drop_last() =~= units.subrange(0, j as int));
            if !self.contains(&batch[j]) {
                let ghost before = self@;
                self.list.push(batch[j].clone());
                assert(self@ =~= before.push(units[j as int]));
            }
            j += 1;
        }
        assert(units.subrange(0, batch@.len() as int) =~= units);
    }

    /// Offers a batch of reaction tokens. It is admitted as a whole only if
    /// none of its tokens is admitted yet; where the tokens together form a
    /// single user-perceived character, that character is tested and stored
    /// as one token.
    pub fn add_reactions(&mut self, reactions: &[String])
        requires
            old(self).wf(),
        ensures
            final(self).wf(),
            final(self)@ == offered(old(self)@, views(reactions@)),
    {
        let text = concat(reactions);
        let clusters = split_graphemes(text.as_str());
        if clusters.len() == 1 {
            let single = vec![text];
            assert(views(single@) =~= seq![joined(views(reactions@))]);
            self.accept_units(single.as_slice());
        } else {
            self.accept_units(reactions);
        }
    }

    /// The admitted tokens, in the order they were admitted.
    pub fn as_list(&self) -> (r: &[String])
        ensures
            views(r@) == self@,
    {
        self.list.as_slice()
    }
}

impl Default for ReactionSet {
    fn default() -> (r: ReactionSet)
        ensures
            r.wf(),
            r@ == Seq::<Seq<char>>::empty(),
    {
        ReactionSet::new()
    }
}

} // verus!

//! The collection side of the scheduler: a user owns an ordered sequence of
//! cards and asks which of them are due for review at a given instant.

use crate::card::Card;
use crate::card::DAY;
use vstd::prelude::*;

verus! {

/// A language a user speaks or learns.
#[derive(Debug, Clone, Copy, PartialEq, Eq, Structural)]
pub enum Lang {
    EN,
    FR,
}

/// A user owns a language pair (spoken, learned) and the cards under study.
#[derive(Debug)]
pub struct User {
    pub name: String,
    pub speak: Lang,
    pub learn: Lang,
    pub cards: Vec<Card>,
}

/// The predicate that holds of exactly the cards due for review at `now`.
pub open spec fn due_at(now: nat) -> spec_fn(Card) -> bool {
    |card: Card| card@.is_due(now)
}

impl User {
    /// A user with the given name and language pair, owning no cards yet.
    pub fn new(name: String, speak: Lang, learn: Lang) -> (user: User)
        ensures
            user.name == name,
            user.speak == speak,
            user.learn == learn,
            user.cards@ == Seq::<Card>::empty(),
    {
        User { name, speak, learn, cards: Vec::new() }
    }

    /// Append a card to the user's collection; everything else is unchanged.
    pub fn add_card(&mut self, card: Card)
        ensures
            final(self).cards@ == old(self).cards@.push(card),
            final(self).name == old(self).name,
            final(self).speak == old(self).speak,
            final(self).learn == old(self).learn,
    {
        self.cards.push(card);
    }

    /// The cards due for review at `now_ts`, in their original order: exactly
    /// the due ones, as a stable filter of the collection. No card is
    /// mutated.
    pub fn get_revisable_cards(&self, now_ts: u64) -> (revisable: Vec<&Card>)
        requires
            forall|i: int|
                0 <= i < self.cards@.len() ==> (#[trigger] self.cards@[i]).updated_at + 28 * DAY
                    <= u64::MAX,
        ensures
            revisable@.map_values(|card: &Card| *card) == self.cards@.filter(
                due_at(now_ts as nat),
            ),
    {
        let mut revisable: Vec<&Card> = Vec::new();
        let mut i: usize = 0;
        while i < self.cards.len()
            invariant
                i <= self.cards@.len(),
                forall|k: int|
                    0 <= k < self.cards@.len() ==> (#[trigger] self.cards@[k]).updated_at + 28
                        * DAY <= u64::MAX,
                revisable@.map_values(|card: &Card| *card) == self.cards@.subrange(
                    0,
                    i as int,
                ).filter(due_at(now_ts as nat)),
            decreases self.cards@.len() - i,
        {
            let ghost prefix = self.cards@.subrange(0, i as int);
            let ghost pred = due_at(now_ts as nat);
            let card = &self.cards[i];
            if now_ts >= card.get_scheduled_date_ts() {
                revisable.push(card);
            }
            proof {
                assert(self.cards@.subrange(0, i as int + 1) =~= prefix.push(self.cards@[i as int]));
                prefix.lemma_filter_push(self.cards@[i as int], pred);
                assert(revisable@.map_values(|card: &Card| *card) =~= self.cards@.subrange(
                    0,
                    i as int + 1,
                ).filter(pred));
            }
            i = i + 1;
        }
        proof {
            assert(self.cards@.subrange(0, self.cards@.len() as int) =~= self.cards@);
        }
        revisable
    }
}

/// Law: the due selection is exactly the due cards. Every selected card is
/// due and comes from the collection, every due card of the collection is
/// selected, and the selection is no longer than the collection; the
/// defining filter keeps the collection's first-to-last order.
pub proof fn lemma_selection_exact(cards: Seq<Card>, now: nat)
    ensures
        cards.filter(due_at(now)).len() <= cards.len(),
        forall|j: int|
            0 <= j < cards.filter(due_at(now)).len() ==> (#[trigger] cards.filter(due_at(now))[j])@.is_due(
                now,
            ) && cards.contains(cards.filter(due_at(now))[j]),
        forall|i: int|
            0 <= i < cards.len() && (#[trigger] cards[i])@.is_due(now) ==> cards.filter(
                due_at(now),
            ).contains(cards[i]),
{
    let pred = due_at(now);
    cards.lemma_filter_len(pred);
    assert forall|j: int|
        0 <= j < cards.filter(pred).len() implies (#[trigger] cards.filter(pred)[j])@.is_due(now)
        && cards.contains(cards.filter(pred)[j]) by {
        cards.lemma_filter_pred(pred, j);
        cards.lemma_filter_contains_rev(pred, cards.filter(pred)[j]);
        assert(cards.filter(pred).contains(cards.filter(pred)[j]));
    }
    assert forall|i: int|
        0 <= i < cards.len() && (#[trigger] cards[i])@.is_due(now) implies cards.filter(
        pred,
    ).contains(cards[i]) by {
        cards.lemma_filter_contains(pred, i);
    }
}

} // verus!

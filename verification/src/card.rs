//! The card entity: a vocabulary item under study, its mastery level, and the
//! leveling transition a review outcome applies to it.

use vstd::prelude::*;

verus! {

/// The number of seconds in one day: review intervals are whole days of
/// exactly 86,400 seconds, with no calendar or timezone adjustment.
pub const DAY: u64 = 86400;

/// The outcome of one review attempt: the learner either remembered the word
/// or forgot it.
#[derive(Debug, Clone, Copy, PartialEq, Eq, Structural)]
pub enum ReviewOutcome {
    Success,
    Failure,
}

/// A card is a word to learn, with its translation. Training sessions move
/// its mastery level up on success and back to zero on failure; the level
/// alone decides how long the card rests before it is due again.
///
/// Timestamps are whole seconds since the Unix epoch.
#[derive(Debug)]
pub struct Card {
    pub input_word: String,
    pub translation: String,
    pub level: usize,
    pub created_at: u64,
    pub updated_at: u64,
    pub repetition_count: u32,
}

/// The mathematical model of a card: the same fields, unbounded.
pub ghost struct CardView {
    pub input_word: Seq<char>,
    pub translation: Seq<char>,
    pub level: nat,
    pub created_at: nat,
    pub updated_at: nat,
    pub repetition_count: nat,
}

/// The day offset the leveling table assigns to a mastery level; every level
/// above the last tabulated one is clamped to the last entry.
pub open spec fn day_offset(level: nat) -> nat {
    if level == 0 {
        0
    } else if level == 1 {
        1
    } else if level == 2 {
        2
    } else if level == 3 {
        5
    } else if level == 4 {
        14
    } else {
        28
    }
}

impl CardView {
    /// A card is well formed when its last review is no earlier than its
    /// creation.
    pub open spec fn wf(self) -> bool {
        self.updated_at >= self.created_at
    }

    /// What one review outcome does to a card: success moves the level up by
    /// one, failure resets it to zero; either way the repetition count grows
    /// by one and the card carries the time of the review.
    pub open spec fn transition(self, outcome: ReviewOutcome, now: nat) -> CardView {
        CardView {
            level: if outcome is Success {
                self.level + 1
            } else {
                0
            },
            updated_at: now,
            repetition_count: self.repetition_count + 1,
            ..self
        }
    }

    /// The instant at which the card becomes eligible for review again.
    pub open spec fn due_ts(self) -> nat {
        self.updated_at + day_offset(self.level) * (DAY as nat)
    }

    /// A card is due once `now` has reached its due instant, boundary
    /// included.
    pub open spec fn is_due(self, now: nat) -> bool {
        now >= self.due_ts()
    }

    /// The card after a whole sequence of reviews, each an outcome with the
    /// instant it was recorded at.
    pub open spec fn apply_all(self, reviews: Seq<(ReviewOutcome, nat)>) -> CardView
        decreases reviews.len(),
    {
        if reviews.len() == 0 {
            self
        } else {
            self.transition(reviews[0].0, reviews[0].1).apply_all(reviews.drop_first())
        }
    }
}

impl View for Card {
    type V = CardView;

    open spec fn view(&self) -> CardView {
        CardView {
            input_word: self.input_word@,
            translation: self.translation@,
            level: self.level as nat,
            created_at: self.created_at as nat,
            updated_at: self.updated_at as nat,
            repetition_count: self.repetition_count as nat,
        }
    }
}

impl Card {
    /// A fresh card for a word and its translation, created at `now`: level
    /// zero, never reviewed.
    pub fn new(input_word: String, translation: String, now: u64) -> (card: Card)
        ensures
            card@ == (CardView {
                input_word: input_word@,
                translation: translation@,
                level: 0,
                created_at: now as nat,
                updated_at: now as nat,
                repetition_count: 0,
            }),
            card@.wf(),
    {
        Card {
            input_word,
            translation,
            level: 0,
            created_at: now,
            updated_at: now,
            repetition_count: 0,
        }
    }

    /// Record one review outcome at instant `now`: the card moves to exactly
    /// the state the transition model gives it.
    pub fn apply_review(&mut self, outcome: ReviewOutcome, now: u64)
        requires
            outcome is Success ==> old(self).level < usize::MAX,
            old(self).repetition_count < u32::MAX,
            now >= old(self).updated_at,
        ensures
            final(self)@ == old(self)@.transition(outcome, now as nat),
            final(self)@.updated_at >= old(self)@.updated_at,
            old(self)@.wf() ==> final(self)@.wf(),
    {
        self.updated_at = now;
        match outcome {
            ReviewOutcome::Success => {
                self.level = self.level + 1;
            },
            ReviewOutcome::Failure => {
                self.level = 0;
            },
        }
        self.repetition_count = self.repetition_count + 1;
    }

    /// Record a successful review at instant `now`: one level up, one more
    /// repetition, a fresh timestamp.
    pub fn upgrade(&mut self, now: u64)
        requires
            old(self).level < usize::MAX,
            old(self).repetition_count < u32::MAX,
            now >= old(self).updated_at,
        ensures
            final(self)@ == old(self)@.transition(ReviewOutcome::Success, now as nat),
            final(self).level == old(self).level + 1,
            final(self).repetition_count == old(self).repetition_count + 1,
            final(self).updated_at == now,
            final(self).created_at == old(self).created_at,
    {
        self.apply_review(ReviewOutcome::Success, now);
    }

    /// Record a failed review at instant `now`: the level falls back to zero,
    /// the repetition count still grows by one, the timestamp is fresh.
    pub fn downgrade(&mut self, now: u64)
        requires
            old(self).repetition_count < u32::MAX,
            now >= old(self).updated_at,
        ensures
            final(self)@ == old(self)@.transition(ReviewOutcome::Failure, now as nat),
            final(self).level == 0,
            final(self).repetition_count == old(self).repetition_count + 1,
            final(self).updated_at == now,
            final(self).created_at == old(self).created_at,
    {
        self.apply_review(ReviewOutcome::Failure, now);
    }

    /// The instant at which this card next becomes eligible for review:
    /// its last update plus the tabulated day offset for its level.
    pub fn get_scheduled_date_ts(&self) -> (ts: u64)
        requires
            self.updated_at + 28 * DAY <= u64::MAX,
        ensures
            ts as nat == self@.due_ts(),
    {
        let day_count: u64 = match self.level {
            0 => 0,
            1 => 1,
            2 => 2,
            3 => 5,
            4 => 14,
            _ => 28,
        };
        self.updated_at + day_count * DAY
    }
}

/// Law: a card's mastery level is never negative, whatever state it is in.
pub proof fn lemma_level_nonnegative(card: CardView)
    ensures
        card.level >= 0,
{
}

/// Law: after any sequence of reviews the repetition count has grown by
/// exactly the number of reviews, whatever mix of outcomes they carried.
pub proof fn lemma_repetition_count_counts_reviews(
    card: CardView,
    reviews: Seq<(ReviewOutcome, nat)>,
)
    ensures
        card.apply_all(reviews).repetition_count == card.repetition_count + reviews.len(),
    decreases reviews.len(),
{
    if reviews.len() > 0 {
        lemma_repetition_count_counts_reviews(
            card.transition(reviews[0].0, reviews[0].1),
            reviews.drop_first(),
        );
    }
}

/// Law: a successful review moves the level up by exactly one.
pub proof fn lemma_success_increments_level(card: CardView, now: nat)
    ensures
        card.transition(ReviewOutcome::Success, now).level == card.level + 1,
{
}

/// Law: a failed review resets the level to zero, whatever it was before.
pub proof fn lemma_failure_resets_level(card: CardView, now: nat)
    ensures
        card.transition(ReviewOutcome::Failure, now).level == 0,
{
}

/// Law: a review recorded no earlier than the last one never moves
/// `updated_at` backwards, and keeps a well-formed card well formed.
pub proof fn lemma_updated_at_nondecreasing(card: CardView, outcome: ReviewOutcome, now: nat)
    requires
        now >= card.updated_at,
    ensures
        card.transition(outcome, now).updated_at >= card.updated_at,
        card.wf() ==> card.transition(outcome, now).wf(),
{
}

/// Law: a card at level zero is due the instant it was last updated and at
/// every later instant; in particular a fresh card is due at creation.
pub proof fn lemma_fresh_card_due(card: CardView, now: nat)
    requires
        card.level == 0,
        now >= card.updated_at,
    ensures
        card.is_due(now),
        card.is_due(card.updated_at),
{
}

/// Law: the leveling table is monotone, never mapping a higher level to a
/// shorter rest, its tabulated entries are 0, 1, 2, 5, 14 and 28 days, and
/// every level past the table is clamped to the 28-day entry.
pub proof fn lemma_day_offset_table(lo: nat, hi: nat)
    requires
        lo <= hi,
    ensures
        day_offset(lo) <= day_offset(hi),
        day_offset(0) == 0,
        day_offset(1) == 1,
        day_offset(2) == 2,
        day_offset(3) == 5,
        day_offset(4) == 14,
        hi >= 5 ==> day_offset(hi) == 28,
{
}

} // verus!

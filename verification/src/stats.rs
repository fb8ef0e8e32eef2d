//! Statistics tracking for training sessions: overall accuracy counters and
//! per-bucket counters by hand category (hard, soft, pair) and by dealer
//! strength (weak, medium, strong).
//!
//! Accuracy queries are exposed as exact (correct, total) counter pairs; a
//! percentage is a presentation concern of the caller.

use vstd::prelude::*;

verus! {

/// A (correct, total) pair of counters for one bucket.
#[derive(Debug, Clone, Copy, PartialEq, Eq, Structural)]
pub struct CategoryData {
    pub correct: u32,
    pub total: u32,
}

/// One bucket after one more attempt was recorded into it.
pub open spec fn bumped(c: CategoryData, correct: bool) -> CategoryData {
    CategoryData {
        correct: (c.correct + if correct {
            1int
        } else {
            0int
        }) as u32,
        total: (c.total + 1) as u32,
    }
}

/// The dealer strength a card belongs to: 4-6 weak, 2-3 and 7-8 medium,
/// everything else (9, 10 and the Ace) strong.
pub open spec fn dealer_strength(card: u8) -> Seq<char> {
    if 4 <= card && card <= 6 {
        "weak"@
    } else if card == 2 || card == 3 || card == 7 || card == 8 {
        "medium"@
    } else {
        "strong"@
    }
}

/// Performance counters for a training run: total and correct attempts,
/// with sub-counters per hand category and per dealer strength.
#[derive(Debug, Clone)]
pub struct Statistics {
    pub total_attempts: u32,
    pub correct_answers: u32,
    pub by_hard: CategoryData,
    pub by_soft: CategoryData,
    pub by_pair: CategoryData,
    pub by_weak: CategoryData,
    pub by_medium: CategoryData,
    pub by_strong: CategoryData,
}

/// Every counter is zero.
pub open spec fn fresh_stats(s: Statistics) -> bool {
    &&& s.total_attempts == 0
    &&& s.correct_answers == 0
    &&& s.by_hard == (CategoryData { correct: 0u32, total: 0u32 })
    &&& s.by_soft == (CategoryData { correct: 0u32, total: 0u32 })
    &&& s.by_pair == (CategoryData { correct: 0u32, total: 0u32 })
    &&& s.by_weak == (CategoryData { correct: 0u32, total: 0u32 })
    &&& s.by_medium == (CategoryData { correct: 0u32, total: 0u32 })
    &&& s.by_strong == (CategoryData { correct: 0u32, total: 0u32 })
}

/// What recording one attempt does: the overall counters always advance;
/// a category or strength bucket advances exactly when its name was
/// recognized, and an unrecognized name leaves every bucket of its kind
/// unchanged.
pub open spec fn recorded_attempt(
    pre: Statistics,
    post: Statistics,
    category: Seq<char>,
    strength: Seq<char>,
    correct: bool,
) -> bool {
    &&& post.total_attempts == pre.total_attempts + 1
    &&& post.correct_answers == pre.correct_answers + (if correct {
        1int
    } else {
        0int
    })
    &&& post.by_hard == (if category == "hard"@ {
        bumped(pre.by_hard, correct)
    } else {
        pre.by_hard
    })
    &&& post.by_soft == (if category == "soft"@ {
        bumped(pre.by_soft, correct)
    } else {
        pre.by_soft
    })
    &&& post.by_pair == (if category == "pair"@ {
        bumped(pre.by_pair, correct)
    } else {
        pre.by_pair
    })
    &&& post.by_weak == (if strength == "weak"@ {
        bumped(pre.by_weak, correct)
    } else {
        pre.by_weak
    })
    &&& post.by_medium == (if strength == "medium"@ {
        bumped(pre.by_medium, correct)
    } else {
        pre.by_medium
    })
    &&& post.by_strong == (if strength == "strong"@ {
        bumped(pre.by_strong, correct)
    } else {
        pre.by_strong
    })
}

fn bump(c: CategoryData, correct: bool) -> (r: CategoryData)
    requires
        c.total < u32::MAX,
        c.correct <= c.total,
    ensures
        r == bumped(c, correct),
{
    CategoryData {
        correct: if correct {
            c.correct + 1
        } else {
            c.correct
        },
        total: c.total + 1,
    }
}

impl Statistics {
    /// Every bucket counts no more than its attempts, and no kind of bucket
    /// counts more attempts than were recorded overall. Construction
    /// establishes this and every method preserves it.
    pub open spec fn consistent(self) -> bool {
        &&& self.correct_answers <= self.total_attempts
        &&& self.by_hard.correct <= self.by_hard.total
        &&& self.by_soft.correct <= self.by_soft.total
        &&& self.by_pair.correct <= self.by_pair.total
        &&& self.by_weak.correct <= self.by_weak.total
        &&& self.by_medium.correct <= self.by_medium.total
        &&& self.by_strong.correct <= self.by_strong.total
        &&& self.by_hard.total + self.by_soft.total + self.by_pair.total <= self.total_attempts
        &&& self.by_weak.total + self.by_medium.total + self.by_strong.total
            <= self.total_attempts
    }

    /// Create a new statistics tracker with every counter at zero.
    pub fn new() -> (s: Self)
        ensures
            fresh_stats(s),
            s.consistent(),
    {
        Statistics {
            total_attempts: 0,
            correct_answers: 0,
            by_hard: CategoryData { correct: 0, total: 0 },
            by_soft: CategoryData { correct: 0, total: 0 },
            by_pair: CategoryData { correct: 0, total: 0 },
            by_weak: CategoryData { correct: 0, total: 0 },
            by_medium: CategoryData { correct: 0, total: 0 },
            by_strong: CategoryData { correct: 0, total: 0 },
        }
    }

    /// Record one attempt: the overall counters always advance, and the
    /// category and dealer-strength buckets advance when their names are
    /// recognized; an unrecognized name is silently ignored for its bucket.
    pub fn record_attempt(&mut self, hand_type: &str, dealer_strength: &str, correct: bool)
        requires
            old(self).consistent(),
            old(self).total_attempts < u32::MAX,
        ensures
            final(self).consistent(),
            recorded_attempt(*old(self), *final(self), hand_type@, dealer_strength@, correct),
    {
        proof {
            crate::strategy::lemma_categories_distinct();
            lemma_strengths_distinct();
        }
        self.total_attempts = self.total_attempts + 1;
        if correct {
            self.correct_answers = self.correct_answers + 1;
        }
        if hand_type.eq("hard") {
            self.by_hard = bump(self.by_hard, correct);
        } else if hand_type.eq("soft") {
            self.by_soft = bump(self.by_soft, correct);
        } else if hand_type.eq("pair") {
            self.by_pair = bump(self.by_pair, correct);
        }
        if dealer_strength.eq("weak") {
            self.by_weak = bump(self.by_weak, correct);
        } else if dealer_strength.eq("medium") {
            self.by_medium = bump(self.by_medium, correct);
        } else if dealer_strength.eq("strong") {
            self.by_strong = bump(self.by_strong, correct);
        }
    }

    /// The overall (correct, total) counters.
    pub fn get_session_counts(&self) -> (r: (u32, u32))
        ensures
            r == (self.correct_answers, self.total_attempts),
    {
        (self.correct_answers, self.total_attempts)
    }

    /// The (correct, total) counters of one hand-category bucket; an
    /// unrecognized category reads as (0, 0).
    pub fn get_category_counts(&self, category: &str) -> (r: (u32, u32))
        ensures
            r == category_counts(*self, category@),
    {
        if category.eq("hard") {
            (self.by_hard.correct, self.by_hard.total)
        } else if category.eq("soft") {
            (self.by_soft.correct, self.by_soft.total)
        } else if category.eq("pair") {
            (self.by_pair.correct, self.by_pair.total)
        } else {
            (0, 0)
        }
    }

    /// The (correct, total) counters of one dealer-strength bucket; an
    /// unrecognized strength reads as (0, 0).
    pub fn get_dealer_strength_counts(&self, strength: &str) -> (r: (u32, u32))
        ensures
            r == strength_counts(*self, strength@),
    {
        if strength.eq("weak") {
            (self.by_weak.correct, self.by_weak.total)
        } else if strength.eq("medium") {
            (self.by_medium.correct, self.by_medium.total)
        } else if strength.eq("strong") {
            (self.by_strong.correct, self.by_strong.total)
        } else {
            (0, 0)
        }
    }

    /// Reset all counters to zero without discarding bucket identities.
    pub fn reset_session(&mut self)
        ensures
            fresh_stats(*final(self)),
            final(self).consistent(),
    {
        self.total_attempts = 0;
        self.correct_answers = 0;
        self.by_hard = CategoryData { correct: 0, total: 0 };
        self.by_soft = CategoryData { correct: 0, total: 0 };
        self.by_pair = CategoryData { correct: 0, total: 0 };
        self.by_weak = CategoryData { correct: 0, total: 0 };
        self.by_medium = CategoryData { correct: 0, total: 0 };
        self.by_strong = CategoryData { correct: 0, total: 0 };
    }

    /// Determine dealer strength from the dealer's up-card.
    pub fn get_dealer_strength(&self, dealer_card: u8) -> (r: &'static str)
        ensures
            r@ == dealer_strength(dealer_card),
    {
        if 4 <= dealer_card && dealer_card <= 6 {
            "weak"
        } else if dealer_card == 2 || dealer_card == 3 || dealer_card == 7 || dealer_card == 8 {
            "medium"
        } else {
            "strong"
        }
    }
}

/// The (correct, total) counters of one hand-category bucket, (0, 0) for an
/// unrecognized category name.
pub open spec fn category_counts(s: Statistics, category: Seq<char>) -> (u32, u32) {
    if category == "hard"@ {
        (s.by_hard.correct, s.by_hard.total)
    } else if category == "soft"@ {
        (s.by_soft.correct, s.by_soft.total)
    } else if category == "pair"@ {
        (s.by_pair.correct, s.by_pair.total)
    } else {
        (0u32, 0u32)
    }
}

/// The (correct, total) counters of one dealer-strength bucket, (0, 0) for
/// an unrecognized strength name.
pub open spec fn strength_counts(s: Statistics, strength: Seq<char>) -> (u32, u32) {
    if strength == "weak"@ {
        (s.by_weak.correct, s.by_weak.total)
    } else if strength == "medium"@ {
        (s.by_medium.correct, s.by_medium.total)
    } else if strength == "strong"@ {
        (s.by_strong.correct, s.by_strong.total)
    } else {
        (0u32, 0u32)
    }
}

/// The three dealer-strength names are pairwise distinct strings.
pub proof fn lemma_strengths_distinct()
    ensures
        "weak"@ != "medium"@,
        "weak"@ != "strong"@,
        "medium"@ != "strong"@,
{
    reveal_strlit("weak");
    reveal_strlit("medium");
    reveal_strlit("strong");
    assert("weak"@.len() == 4 && "medium"@.len() == 6 && "strong"@.len() == 6);
    assert("medium"@[0] == 'm' && "strong"@[0] == 's');
}

/// Dealer-strength classification partitions the card domain 2 through 11:
/// exactly the cards 4 to 6 are weak, exactly 2, 3, 7 and 8 are medium, and
/// exactly 9, 10 and the Ace are strong, so every card lands in exactly one
/// group.
pub proof fn lemma_dealer_strength_partition(card: u8)
    requires
        2 <= card <= 11,
    ensures
        (dealer_strength(card) == "weak"@) <==> (4 <= card && card <= 6),
        (dealer_strength(card) == "medium"@) <==> (card == 2 || card == 3 || card == 7 || card
            == 8),
        (dealer_strength(card) == "strong"@) <==> (9 <= card && card <= 11),
{
    lemma_strengths_distinct();
}

impl Default for Statistics {
    fn default() -> (s: Self)
        ensures
            fresh_stats(s),
            s.consistent(),
    {
        Self::new()
    }
}

} // verus!

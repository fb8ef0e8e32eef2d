//! The basic-strategy chart: the canonical action for every hand category,
//! player total and dealer up-card, the explanation mnemonics, and the
//! always/never rule classification.
//!
//! Card values are integers 2 through 11, where 11 stands for an Ace.
//! Actions are single characters: 'H' hit, 'S' stand, 'D' double, 'Y' split.

use std::collections::HashMap;
use vstd::prelude::*;

verus! {

broadcast use vstd::std_specs::hash::group_hash_axioms;

/// The chart's action for a hard total, for totals 5..=21 and dealers 2..=11.
pub open spec fn hard_action(total: u8, dealer: u8) -> char {
    if 5 <= total && total <= 8 {
        'H'
    } else if total == 9 {
        if 3 <= dealer && dealer <= 6 {
            'D'
        } else {
            'H'
        }
    } else if total == 10 {
        if 2 <= dealer && dealer <= 9 {
            'D'
        } else {
            'H'
        }
    } else if total == 11 {
        if dealer <= 10 {
            'D'
        } else {
            'H'
        }
    } else if total == 12 {
        if 4 <= dealer && dealer <= 6 {
            'S'
        } else {
            'H'
        }
    } else if 13 <= total && total <= 16 {
        if 2 <= dealer && dealer <= 6 {
            'S'
        } else {
            'H'
        }
    } else {
        'S'
    }
}

/// The chart's action for a soft total, for totals 13..=21 and dealers 2..=11.
pub open spec fn soft_action(total: u8, dealer: u8) -> char {
    if total == 13 || total == 14 {
        if 5 <= dealer && dealer <= 6 {
            'D'
        } else {
            'H'
        }
    } else if total == 15 || total == 16 {
        if 4 <= dealer && dealer <= 6 {
            'D'
        } else {
            'H'
        }
    } else if total == 17 {
        if 3 <= dealer && dealer <= 6 {
            'D'
        } else {
            'H'
        }
    } else if total == 18 {
        if dealer == 2 || dealer == 7 || dealer == 8 {
            'S'
        } else if 3 <= dealer && dealer <= 6 {
            'D'
        } else {
            'H'
        }
    } else {
        'S'
    }
}

/// The chart's action for a pair, by rank 2..=11, for dealers 2..=11.
pub open spec fn pair_action(rank: u8, dealer: u8) -> char {
    if rank == 11 {
        'Y'
    } else if rank == 2 || rank == 3 {
        if 2 <= dealer && dealer <= 7 {
            'Y'
        } else {
            'H'
        }
    } else if rank == 4 {
        if 5 <= dealer && dealer <= 6 {
            'Y'
        } else {
            'H'
        }
    } else if rank == 5 {
        if 2 <= dealer && dealer <= 9 {
            'D'
        } else {
            'H'
        }
    } else if rank == 6 {
        if 2 <= dealer && dealer <= 6 {
            'Y'
        } else {
            'H'
        }
    } else if rank == 7 {
        if 2 <= dealer && dealer <= 7 {
            'Y'
        } else {
            'H'
        }
    } else if rank == 8 {
        'Y'
    } else if rank == 9 {
        if dealer == 7 || dealer == 10 || dealer == 11 {
            'S'
        } else {
            'Y'
        }
    } else {
        'S'
    }
}

/// The (total, dealer) pairs the hard table covers.
pub open spec fn in_hard_domain(total: u8, dealer: u8) -> bool {
    5 <= total && total <= 21 && 2 <= dealer && dealer <= 11
}

/// The (total, dealer) pairs the soft table covers.
pub open spec fn in_soft_domain(total: u8, dealer: u8) -> bool {
    13 <= total && total <= 21 && 2 <= dealer && dealer <= 11
}

/// The (rank, dealer) pairs the pair table covers.
pub open spec fn in_pair_domain(total: u8, dealer: u8) -> bool {
    2 <= total && total <= 11 && 2 <= dealer && dealer <= 11
}

/// What a chart lookup returns: the table entry where the pair is covered,
/// and the 'H' fallback on a miss or on an unrecognized category.
pub open spec fn chart_action(hand_type: Seq<char>, total: u8, dealer: u8) -> char {
    if hand_type == "pair"@ {
        if in_pair_domain(total, dealer) {
            pair_action(total, dealer)
        } else {
            'H'
        }
    } else if hand_type == "soft"@ {
        if in_soft_domain(total, dealer) {
            soft_action(total, dealer)
        } else {
            'H'
        }
    } else if hand_type == "hard"@ {
        if in_hard_domain(total, dealer) {
            hard_action(total, dealer)
        } else {
            'H'
        }
    } else {
        'H'
    }
}

/// A scenario whose correct action does not depend on the dealer card:
/// pairs of 5, 8, 10 or Ace, hard 17 and up, soft 19 and up.
pub open spec fn is_absolute(hand_type: Seq<char>, total: u8) -> bool {
    if hand_type == "pair"@ {
        total == 11 || total == 8 || total == 10 || total == 5
    } else if hand_type == "hard"@ {
        total >= 17
    } else if hand_type == "soft"@ {
        total >= 19
    } else {
        false
    }
}

/// The mnemonic a scenario is explained with, in priority order: the exact
/// special cases first, then the dealer-strength patterns, then the generic
/// fallback.
pub open spec fn explanation(hand_type: Seq<char>, total: u8, dealer: u8) -> Seq<char> {
    if hand_type == "pair"@ && (total == 11 || total == 8) {
        "Aces and eights, don't hesitate"@
    } else if hand_type == "pair"@ && (total == 10 || total == 5) {
        "Tens and fives, keep them alive"@
    } else if hand_type == "soft"@ && total == 18 {
        "A,7 is the tricky soft hand"@
    } else if hand_type == "hard"@ && total == 12 {
        "12 is the exception - only stand vs 4,5,6"@
    } else if 4 <= dealer && dealer <= 6 {
        "Dealer bust cards (4,5,6) = player gets greedy"@
    } else if 13 <= total && total <= 16 && 9 <= dealer && dealer <= 11 {
        "Teens stay vs weak, flee from strong"@
    } else {
        "Follow basic strategy patterns"@
    }
}

/// The hard-table entry, computed; mirrors the table bands.
fn hard_action_for(total: u8, dealer: u8) -> (r: char)
    requires
        in_hard_domain(total, dealer),
    ensures
        r == hard_action(total, dealer),
{
    if total <= 8 {
        'H'
    } else if total == 9 {
        if 3 <= dealer && dealer <= 6 {
            'D'
        } else {
            'H'
        }
    } else if total == 10 {
        if dealer <= 9 {
            'D'
        } else {
            'H'
        }
    } else if total == 11 {
        if dealer <= 10 {
            'D'
        } else {
            'H'
        }
    } else if total == 12 {
        if 4 <= dealer && dealer <= 6 {
            'S'
        } else {
            'H'
        }
    } else if total <= 16 {
        if dealer <= 6 {
            'S'
        } else {
            'H'
        }
    } else {
        'S'
    }
}

/// The soft-table entry, computed; mirrors the table bands.
fn soft_action_for(total: u8, dealer: u8) -> (r: char)
    requires
        in_soft_domain(total, dealer),
    ensures
        r == soft_action(total, dealer),
{
    if total <= 14 {
        if 5 <= dealer && dealer <= 6 {
            'D'
        } else {
            'H'
        }
    } else if total <= 16 {
        if 4 <= dealer && dealer <= 6 {
            'D'
        } else {
            'H'
        }
    } else if total == 17 {
        if 3 <= dealer && dealer <= 6 {
            'D'
        } else {
            'H'
        }
    } else if total == 18 {
        if dealer == 2 || dealer == 7 || dealer == 8 {
            'S'
        } else if dealer <= 6 {
            'D'
        } else {
            'H'
        }
    } else {
        'S'
    }
}

/// The pair-table entry, computed; mirrors the table bands.
fn pair_action_for(rank: u8, dealer: u8) -> (r: char)
    requires
        in_pair_domain(rank, dealer),
    ensures
        r == pair_action(rank, dealer),
{
    if rank == 11 {
        'Y'
    } else if rank == 2 || rank == 3 {
        if dealer <= 7 {
            'Y'
        } else {
            'H'
        }
    } else if rank == 4 {
        if 5 <= dealer && dealer <= 6 {
            'Y'
        } else {
            'H'
        }
    } else if rank == 5 {
        if dealer <= 9 {
            'D'
        } else {
            'H'
        }
    } else if rank == 6 {
        if dealer <= 6 {
            'Y'
        } else {
            'H'
        }
    } else if rank == 7 {
        if dealer <= 7 {
            'Y'
        } else {
            'H'
        }
    } else if rank == 8 {
        'Y'
    } else if rank == 9 {
        if dealer == 7 || dealer == 10 || dealer == 11 {
            'S'
        } else {
            'Y'
        }
    } else {
        'S'
    }
}

/// The three hand-category names are pairwise distinct strings.
pub proof fn lemma_categories_distinct()
    ensures
        "hard"@ != "soft"@,
        "hard"@ != "pair"@,
        "soft"@ != "pair"@,
{
    reveal_strlit("hard");
    reveal_strlit("soft");
    reveal_strlit("pair");
    assert("hard"@[0] == 'h' && "soft"@[0] == 's' && "pair"@[0] == 'p');
}

/// One table key for a (total, dealer) pair; the dealer occupies the low byte,
/// so the encoding is injective over all byte-sized inputs.
pub open spec fn table_key(total: u8, dealer: u8) -> u64 {
    (total * 256 + dealer) as u64
}

fn table_key_exec(total: u8, dealer: u8) -> (k: u64)
    ensures
        k == table_key(total, dealer),
{
    (total as u64) * 256 + (dealer as u64)
}

proof fn lemma_table_key_injective(t1: u8, d1: u8, t2: u8, d2: u8)
    requires
        table_key(t1, d1) == table_key(t2, d2),
    ensures
        t1 == t2 && d1 == d2,
{
}

/// The hard table holds exactly the keys of its domain, each mapped to the
/// chart's hard action.
pub open spec fn hard_table_wf(m: Map<u64, char>) -> bool {
    &&& forall|t: u8, d: u8|
        in_hard_domain(t, d) ==> m.contains_key(#[trigger] table_key(t, d)) && m[table_key(t, d)]
            == hard_action(t, d)
    &&& forall|k: u64| #[trigger]
        m.contains_key(k) ==> exists|t: u8, d: u8| in_hard_domain(t, d) && k == table_key(t, d)
}

/// The soft table holds exactly the keys of its domain, each mapped to the
/// chart's soft action.
pub open spec fn soft_table_wf(m: Map<u64, char>) -> bool {
    &&& forall|t: u8, d: u8|
        in_soft_domain(t, d) ==> m.contains_key(#[trigger] table_key(t, d)) && m[table_key(t, d)]
            == soft_action(t, d)
    &&& forall|k: u64| #[trigger]
        m.contains_key(k) ==> exists|t: u8, d: u8| in_soft_domain(t, d) && k == table_key(t, d)
}

/// The pair table holds exactly the keys of its domain, each mapped to the
/// chart's pair action.
pub open spec fn pair_table_wf(m: Map<u64, char>) -> bool {
    &&& forall|t: u8, d: u8|
        in_pair_domain(t, d) ==> m.contains_key(#[trigger] table_key(t, d)) && m[table_key(t, d)]
            == pair_action(t, d)
    &&& forall|k: u64| #[trigger]
        m.contains_key(k) ==> exists|t: u8, d: u8| in_pair_domain(t, d) && k == table_key(t, d)
}

proof fn lemma_hard_lookup(m: Map<u64, char>, total: u8, dealer: u8)
    requires
        hard_table_wf(m),
    ensures
        in_hard_domain(total, dealer) ==> m.contains_key(table_key(total, dealer)) && m[table_key(
            total,
            dealer,
        )] == hard_action(total, dealer),
        !in_hard_domain(total, dealer) ==> !m.contains_key(table_key(total, dealer)),
{
    if !in_hard_domain(total, dealer) && m.contains_key(table_key(total, dealer)) {
        let (t, d) = choose|t: u8, d: u8|
            in_hard_domain(t, d) && table_key(total, dealer) == table_key(t, d);
        lemma_table_key_injective(total, dealer, t, d);
    }
}

proof fn lemma_soft_lookup(m: Map<u64, char>, total: u8, dealer: u8)
    requires
        soft_table_wf(m),
    ensures
        in_soft_domain(total, dealer) ==> m.contains_key(table_key(total, dealer)) && m[table_key(
            total,
            dealer,
        )] == soft_action(total, dealer),
        !in_soft_domain(total, dealer) ==> !m.contains_key(table_key(total, dealer)),
{
    if !in_soft_domain(total, dealer) && m.contains_key(table_key(total, dealer)) {
        let (t, d) = choose|t: u8, d: u8|
            in_soft_domain(t, d) && table_key(total, dealer) == table_key(t, d);
        lemma_table_key_injective(total, dealer, t, d);
    }
}

proof fn lemma_pair_lookup(m: Map<u64, char>, total: u8, dealer: u8)
    requires
        pair_table_wf(m),
    ensures
        in_pair_domain(total, dealer) ==> m.contains_key(table_key(total, dealer)) && m[table_key(
            total,
            dealer,
        )] == pair_action(total, dealer),
        !in_pair_domain(total, dealer) ==> !m.contains_key(table_key(total, dealer)),
{
    if !in_pair_domain(total, dealer) && m.contains_key(table_key(total, dealer)) {
        let (t, d) = choose|t: u8, d: u8|
            in_pair_domain(t, d) && table_key(total, dealer) == table_key(t, d);
        lemma_table_key_injective(total, dealer, t, d);
    }
}

/// The dealer-strength groups table: exactly the keys "weak", "medium" and
/// "strong", each mapped to its member cards. Contents of a string-keyed
/// hash map are only known under vstd's key-model hypothesis for `String`,
/// so every claim about the table is conditional on it.
pub open spec fn dealer_groups_wf(m: Map<String, Vec<u8>>) -> bool {
    &&& forall|k: String| #[trigger]
        m.contains_key(k) ==> (k@ == "weak"@ || k@ == "medium"@ || k@ == "strong"@)
    &&& forall|k: String| #[trigger] m.contains_key(k) && k@ == "weak"@ ==> m[k]@ == seq![
        4u8,
        5u8,
        6u8,
    ]
    &&& forall|k: String| #[trigger] m.contains_key(k) && k@ == "medium"@ ==> m[k]@ == seq![
        2u8,
        3u8,
        7u8,
        8u8,
    ]
    &&& forall|k: String| #[trigger] m.contains_key(k) && k@ == "strong"@ ==> m[k]@ == seq![
        9u8,
        10u8,
        11u8,
    ]
    &&& exists|k: String| #[trigger] m.contains_key(k) && k@ == "weak"@
    &&& exists|k: String| #[trigger] m.contains_key(k) && k@ == "medium"@
    &&& exists|k: String| #[trigger] m.contains_key(k) && k@ == "strong"@
}

/// The complete strategy chart: one lookup table per hand category, built
/// once at construction and read-only afterwards, plus the dealer strength
/// groups used for targeted practice.
pub struct StrategyChart {
    hard_totals: HashMap<u64, char>,
    soft_totals: HashMap<u64, char>,
    pairs: HashMap<u64, char>,
    dealer_groups: HashMap<String, Vec<u8>>,
}

/// The dealer bust cards.
pub fn weak_dealer_cards() -> (v: Vec<u8>)
    ensures
        v@ == seq![4u8, 5u8, 6u8],
{
    let v = vec![4u8, 5u8, 6u8];
    proof {
        assert(v@ =~= seq![4u8, 5u8, 6u8]);
    }
    v
}

/// The moderate dealer cards.
pub fn medium_dealer_cards() -> (v: Vec<u8>)
    ensures
        v@ == seq![2u8, 3u8, 7u8, 8u8],
{
    let v = vec![2u8, 3u8, 7u8, 8u8];
    proof {
        assert(v@ =~= seq![2u8, 3u8, 7u8, 8u8]);
    }
    v
}

/// The strong dealer cards; 11 is the Ace.
pub fn strong_dealer_cards() -> (v: Vec<u8>)
    ensures
        v@ == seq![9u8, 10u8, 11u8],
{
    let v = vec![9u8, 10u8, 11u8];
    proof {
        assert(v@ =~= seq![9u8, 10u8, 11u8]);
    }
    v
}

impl StrategyChart {
    #[verifier::type_invariant]
    spec fn wf(self) -> bool {
        &&& hard_table_wf(self.hard_totals@)
        &&& soft_table_wf(self.soft_totals@)
        &&& pair_table_wf(self.pairs@)
        &&& (vstd::std_specs::hash::obeys_key_model::<String>() ==> dealer_groups_wf(
            self.dealer_groups@,
        ))
    }

    /// Create a new strategy chart with all tables initialized.
    pub fn new() -> (chart: Self) {
        let hard_totals = Self::build_hard_totals();
        let soft_totals = Self::build_soft_totals();
        let pairs = Self::build_pairs();
        let dealer_groups = Self::build_dealer_groups();
        StrategyChart { hard_totals, soft_totals, pairs, dealer_groups }
    }

    fn build_hard_totals() -> (m: HashMap<u64, char>)
        ensures
            hard_table_wf(m@),
    {
        let mut m: HashMap<u64, char> = HashMap::new();
        let mut total: u8 = 5;
        while total <= 21
            invariant
                5 <= total <= 22,
                forall|t: u8, d: u8|
                    5 <= t < total && 2 <= d <= 11 ==> m@.contains_key(#[trigger] table_key(t, d))
                        && m@[table_key(t, d)] == hard_action(t, d),
                forall|k: u64| #[trigger]
                    m@.contains_key(k) ==> exists|t: u8, d: u8|
                        5 <= t < total && 2 <= d <= 11 && k == table_key(t, d),
            decreases 22 - total,
        {
            let mut dealer: u8 = 2;
            while dealer <= 11
                invariant
                    5 <= total <= 21,
                    2 <= dealer <= 12,
                    forall|t: u8, d: u8|
                        (5 <= t < total && 2 <= d <= 11) || (t == total && 2 <= d < dealer)
                            ==> m@.contains_key(#[trigger] table_key(t, d)) && m@[table_key(t, d)]
                            == hard_action(t, d),
                    forall|k: u64| #[trigger]
                        m@.contains_key(k) ==> exists|t: u8, d: u8|
                            ((5 <= t < total && 2 <= d <= 11) || (t == total && 2 <= d < dealer))
                                && k == table_key(t, d),
                decreases 12 - dealer,
            {
                let action = hard_action_for(total, dealer);
                m.insert(table_key_exec(total, dealer), action);
                dealer = dealer + 1;
            }
            total = total + 1;
        }
        m
    }

    fn build_soft_totals() -> (m: HashMap<u64, char>)
        ensures
            soft_table_wf(m@),
    {
        let mut m: HashMap<u64, char> = HashMap::new();
        let mut total: u8 = 13;
        while total <= 21
            invariant
                13 <= total <= 22,
                forall|t: u8, d: u8|
                    13 <= t < total && 2 <= d <= 11 ==> m@.contains_key(#[trigger] table_key(t, d))
                        && m@[table_key(t, d)] == soft_action(t, d),
                forall|k: u64| #[trigger]
                    m@.contains_key(k) ==> exists|t: u8, d: u8|
                        13 <= t < total && 2 <= d <= 11 && k == table_key(t, d),
            decreases 22 - total,
        {
            let mut dealer: u8 = 2;
            while dealer <= 11
                invariant
                    13 <= total <= 21,
                    2 <= dealer <= 12,
                    forall|t: u8, d: u8|
                        (13 <= t < total && 2 <= d <= 11) || (t == total && 2 <= d < dealer)
                            ==> m@.contains_key(#[trigger] table_key(t, d)) && m@[table_key(t, d)]
                            == soft_action(t, d),
                    forall|k: u64| #[trigger]
                        m@.contains_key(k) ==> exists|t: u8, d: u8|
                            ((13 <= t < total && 2 <= d <= 11) || (t == total && 2 <= d < dealer))
                                && k == table_key(t, d),
                decreases 12 - dealer,
            {
                let action = soft_action_for(total, dealer);
                m.insert(table_key_exec(total, dealer), action);
                dealer = dealer + 1;
            }
            total = total + 1;
        }
        m
    }

    fn build_pairs() -> (m: HashMap<u64, char>)
        ensures
            pair_table_wf(m@),
    {
        let mut m: HashMap<u64, char> = HashMap::new();
        let mut rank: u8 = 2;
        while rank <= 11
            invariant
                2 <= rank <= 12,
                forall|t: u8, d: u8|
                    2 <= t < rank && 2 <= d <= 11 ==> m@.contains_key(#[trigger] table_key(t, d))
                        && m@[table_key(t, d)] == pair_action(t, d),
                forall|k: u64| #[trigger]
                    m@.contains_key(k) ==> exists|t: u8, d: u8|
                        2 <= t < rank && 2 <= d <= 11 && k == table_key(t, d),
            decreases 12 - rank,
        {
            let mut dealer: u8 = 2;
            while dealer <= 11
                invariant
                    2 <= rank <= 11,
                    2 <= dealer <= 12,
                    forall|t: u8, d: u8|
                        (2 <= t < rank && 2 <= d <= 11) || (t == rank && 2 <= d < dealer)
                            ==> m@.contains_key(#[trigger] table_key(t, d)) && m@[table_key(t, d)]
                            == pair_action(t, d),
                    forall|k: u64| #[trigger]
                        m@.contains_key(k) ==> exists|t: u8, d: u8|
                            ((2 <= t < rank && 2 <= d <= 11) || (t == rank && 2 <= d < dealer))
                                && k == table_key(t, d),
                decreases 12 - dealer,
            {
                let action = pair_action_for(rank, dealer);
                m.insert(table_key_exec(rank, dealer), action);
                dealer = dealer + 1;
            }
            rank = rank + 1;
        }
        m
    }

    fn build_dealer_groups() -> (m: HashMap<String, Vec<u8>>)
        ensures
            vstd::std_specs::hash::obeys_key_model::<String>() ==> dealer_groups_wf(m@),
    {
        let mut m: HashMap<String, Vec<u8>> = HashMap::new();
        let weak_key = "weak".to_owned();
        let medium_key = "medium".to_owned();
        let strong_key = "strong".to_owned();
        let ghost g_weak = weak_key;
        let ghost g_medium = medium_key;
        let ghost g_strong = strong_key;
        m.insert(weak_key, weak_dealer_cards());
        m.insert(medium_key, medium_dealer_cards());
        m.insert(strong_key, strong_dealer_cards());
        proof {
            crate::stats::lemma_strengths_distinct();
            if vstd::std_specs::hash::obeys_key_model::<String>() {
                assert(g_weak != g_medium && g_weak != g_strong && g_medium != g_strong);
                assert(m@.contains_key(g_weak) && m@.contains_key(g_medium) && m@.contains_key(
                    g_strong,
                ));
                assert forall|k: String| #[trigger] m@.contains_key(k) implies (k@ == "weak"@ || k@
                    == "medium"@ || k@ == "strong"@) && (k@ == "weak"@ ==> m@[k]@ == seq![
                    4u8,
                    5u8,
                    6u8,
                ]) && (k@ == "medium"@ ==> m@[k]@ == seq![2u8, 3u8, 7u8, 8u8]) && (k@ == "strong"@
                    ==> m@[k]@ == seq![9u8, 10u8, 11u8]) by {
                    assert(k == g_weak || k == g_medium || k == g_strong);
                }
            }
        }
        m
    }

    /// Get the correct action for a given scenario: the table entry for the
    /// category, or the 'H' fallback on a miss or an unknown category.
    pub fn get_correct_action(&self, hand_type: &str, player_total: u8, dealer_card: u8) -> (r:
        char)
        ensures
            r == chart_action(hand_type@, player_total, dealer_card),
    {
        proof {
            use_type_invariant(self);
        }
        let key = table_key_exec(player_total, dealer_card);
        if hand_type.eq("pair") {
            proof {
                lemma_pair_lookup(self.pairs@, player_total, dealer_card);
            }
            match self.pairs.get(&key) {
                Some(a) => *a,
                None => 'H',
            }
        } else if hand_type.eq("soft") {
            proof {
                lemma_soft_lookup(self.soft_totals@, player_total, dealer_card);
            }
            match self.soft_totals.get(&key) {
                Some(a) => *a,
                None => 'H',
            }
        } else if hand_type.eq("hard") {
            proof {
                lemma_hard_lookup(self.hard_totals@, player_total, dealer_card);
            }
            match self.hard_totals.get(&key) {
                Some(a) => *a,
                None => 'H',
            }
        } else {
            'H'
        }
    }

    /// Get the explanation mnemonic for a given scenario.
    pub fn get_explanation(&self, hand_type: &str, player_total: u8, dealer_card: u8) -> (r:
        String)
        ensures
            r@ == explanation(hand_type@, player_total, dealer_card),
    {
        if hand_type.eq("pair") && (player_total == 11 || player_total == 8) {
            "Aces and eights, don't hesitate".to_owned()
        } else if hand_type.eq("pair") && (player_total == 10 || player_total == 5) {
            "Tens and fives, keep them alive".to_owned()
        } else if hand_type.eq("soft") && player_total == 18 {
            "A,7 is the tricky soft hand".to_owned()
        } else if hand_type.eq("hard") && player_total == 12 {
            "12 is the exception - only stand vs 4,5,6".to_owned()
        } else if 4 <= dealer_card && dealer_card <= 6 {
            "Dealer bust cards (4,5,6) = player gets greedy".to_owned()
        } else if 13 <= player_total && player_total <= 16 && 9 <= dealer_card && dealer_card <= 11 {
            "Teens stay vs weak, flee from strong".to_owned()
        } else {
            "Follow basic strategy patterns".to_owned()
        }
    }

    /// Check if a scenario represents an absolute rule (always/never);
    /// the dealer card is irrelevant to the classification.
    pub fn is_absolute_rule(&self, hand_type: &str, player_total: u8, _dealer_card: u8) -> (r:
        bool)
        ensures
            r == is_absolute(hand_type@, player_total),
    {
        if hand_type.eq("pair") {
            player_total == 11 || player_total == 8 || player_total == 10 || player_total == 5
        } else if hand_type.eq("hard") {
            player_total >= 17
        } else if hand_type.eq("soft") {
            player_total >= 19
        } else {
            false
        }
    }

    /// Get the dealer strength groups, keyed "weak", "medium" and "strong".
    /// The groups' members are the `*_dealer_cards` values; the verified
    /// classification of a single card is `Statistics::get_dealer_strength`.
    pub fn get_dealer_groups(&self) -> (r: &HashMap<String, Vec<u8>>)
        ensures
            vstd::std_specs::hash::obeys_key_model::<String>() ==> dealer_groups_wf(r@),
    {
        proof {
            use_type_invariant(self);
        }
        &self.dealer_groups
    }
}

/// Hard totals 5 through 8 are always a hit and hard 17 through 21 always a
/// stand, and soft 19 through 21 are always a stand, whatever the dealer
/// shows.
pub proof fn lemma_flat_bands(total: u8, dealer: u8)
    requires
        2 <= dealer <= 11,
    ensures
        5 <= total <= 8 ==> chart_action("hard"@, total, dealer) == 'H',
        17 <= total <= 21 ==> chart_action("hard"@, total, dealer) == 'S',
        19 <= total <= 21 ==> chart_action("soft"@, total, dealer) == 'S',
{
    lemma_categories_distinct();
}

/// Hard 11 doubles against every dealer card except the Ace, against which
/// it hits.
pub proof fn lemma_hard_eleven(dealer: u8)
    requires
        2 <= dealer <= 11,
    ensures
        dealer <= 10 ==> chart_action("hard"@, 11, dealer) == 'D',
        dealer == 11 ==> chart_action("hard"@, 11, dealer) == 'H',
{
    lemma_categories_distinct();
}

/// Pairs of Aces and pairs of eights always split, pairs of tens always
/// stand, and pairs of fives never split, whatever the dealer shows.
pub proof fn lemma_pair_absolutes(dealer: u8)
    requires
        2 <= dealer <= 11,
    ensures
        chart_action("pair"@, 11, dealer) == 'Y',
        chart_action("pair"@, 8, dealer) == 'Y',
        chart_action("pair"@, 10, dealer) == 'S',
        chart_action("pair"@, 5, dealer) != 'Y',
{
}

/// The absolute-rule classification holds exactly for pairs of 5, 8, 10 or
/// Aces, for hard 17 and up, and for soft 19 and up; the dealer card never
/// enters into it.
pub proof fn lemma_absolute_rule_characterization(hand_type: Seq<char>, total: u8)
    ensures
        is_absolute(hand_type, total) <==> ((hand_type == "pair"@ && (total == 5 || total == 8
            || total == 10 || total == 11)) || (hand_type == "hard"@ && total >= 17) || (hand_type
            == "soft"@ && total >= 19)),
{
    lemma_categories_distinct();
}

impl Default for StrategyChart {
    fn default() -> Self {
        Self::new()
    }
}

} // verus!

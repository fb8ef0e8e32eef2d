//! Training sessions: the scenario generator, the four question-selection
//! policies, answer scoring, and the bookkeeping of one question/answer
//! cycle. Console input and output stay with the caller, which drives the
//! loop: draw a scenario, show it, collect an action, then grade and record
//! it through `answer_question`.

use crate::stats::{dealer_strength, recorded_attempt, Statistics};
use crate::strategy::{
    chart_action, explanation, hard_action, in_hard_domain, in_pair_domain, in_soft_domain,
    is_absolute, lemma_categories_distinct, medium_dealer_cards, pair_action, soft_action,
    strong_dealer_cards, weak_dealer_cards, StrategyChart,
};
use rand::Rng;
use vstd::prelude::*;

verus! {

/// rand's thread-local generator type, declared opaquely so sessions can
/// hold one and the wrappers below can take one.
#[verifier::external_type_specification]
#[verifier::external_body]
pub struct ExThreadRng(rand::rngs::ThreadRng);

/// Relies on rand::thread_rng: a handle to the thread-local generator.
#[verifier::external_body]
fn new_thread_rng() -> rand::rngs::ThreadRng {
    rand::thread_rng()
}

/// Relies on rand::Rng::gen_range on an inclusive byte range: the sample
/// lies within the bounds. The call panics on an empty range, hence the
/// requires.
#[verifier::external_body]
fn gen_range_inclusive(rng: &mut rand::rngs::ThreadRng, lo: u8, hi: u8) -> (r: u8)
    requires
        lo <= hi,
    ensures
        lo <= r && r <= hi,
{
    rng.gen_range(lo..=hi)
}

/// The sum of a hand's card values.
pub open spec fn card_sum(cards: Seq<u8>) -> int
    decreases cards.len(),
{
    if cards.len() == 0 {
        0
    } else {
        card_sum(cards.drop_last()) + cards.last()
    }
}

proof fn lemma_card_sum_push(s: Seq<u8>, x: u8)
    ensures
        card_sum(s.push(x)) == card_sum(s) + x,
{
    assert(s.push(x).drop_last() =~= s);
    assert(s.push(x).last() == x);
}

proof fn lemma_card_sum_singleton(x: u8)
    ensures
        card_sum(seq![x]) == x,
{
    assert(seq![x].drop_last() =~= Seq::<u8>::empty());
    assert(card_sum(Seq::<u8>::empty()) == 0);
}

/// A hard hand for a total: a single card for totals up to 11 (a lone 11
/// stands for a single Ace), and otherwise two or more cards from 2 to 10
/// summing exactly to the total.
pub open spec fn valid_hard_hand(cards: Seq<u8>, total: u8) -> bool {
    if total <= 11 {
        cards =~= seq![total]
    } else {
        &&& card_sum(cards) == total
        &&& cards.len() >= 2
        &&& forall|i: int| 0 <= i < cards.len() ==> 2 <= #[trigger] cards[i] <= 10
    }
}

/// A displayable scenario: a known category, a dealer card 2 to 11, and a
/// card sequence that realizes the player total under the category's rules.
pub open spec fn valid_scenario(hand_type: Seq<char>, cards: Seq<u8>, total: u8, dealer: u8) -> bool {
    &&& 2 <= dealer <= 11
    &&& (hand_type == "hard"@ || hand_type == "soft"@ || hand_type == "pair"@)
    &&& (hand_type == "pair"@ ==> 2 <= total <= 11 && cards =~= seq![total, total])
    &&& (hand_type == "soft"@ ==> 13 <= total <= 21 && cards =~= seq![11u8, (total - 11) as u8])
    &&& (hand_type == "hard"@ ==> 5 <= total <= 21 && valid_hard_hand(cards, total))
}

/// Generate the card representation for a hand: a pair is the rank twice, a
/// soft hand is an Ace plus the remainder, a hard total up to 11 is a single
/// card, and a larger hard total is drawn as two or more cards from 2 to 10
/// that sum to it. An unrecognized category falls back to a single card.
pub fn generate_hand_cards(hand_type: &str, player_total: u8, rng: &mut rand::rngs::ThreadRng) -> (cards: Vec<u8>)
    requires
        hand_type@ == "soft"@ ==> 13 <= player_total <= 21,
    ensures
        hand_type@ == "pair"@ ==> cards@ =~= seq![player_total, player_total],
        hand_type@ == "soft"@ ==> cards@ =~= seq![11u8, (player_total - 11) as u8],
        hand_type@ == "hard"@ ==> (5 <= player_total <= 21 ==> valid_hard_hand(
            cards@,
            player_total,
        )) && (player_total <= 11 ==> cards@ =~= seq![player_total]),
        hand_type@ != "pair"@ && hand_type@ != "soft"@ && hand_type@ != "hard"@ ==> cards@
            =~= seq![player_total],
{
    proof {
        lemma_categories_distinct();
    }
    if hand_type.eq("pair") {
        let cards = vec![player_total, player_total];
        proof {
            assert(cards@ =~= seq![player_total, player_total]);
        }
        cards
    } else if hand_type.eq("soft") {
        let other_card = player_total - 11;
        let cards = vec![11u8, other_card];
        proof {
            assert(cards@ =~= seq![11u8, (player_total - 11) as u8]);
        }
        cards
    } else if hand_type.eq("hard") {
        if player_total <= 11 {
            let cards = vec![player_total];
            proof {
                assert(cards@ =~= seq![player_total]);
            }
            cards
        } else {
            // Two cards from 2 to 10 when they suffice, more when the total
            // is too large for two.
            let limit = player_total - 2;
            let max_first = if limit < 10 {
                limit
            } else {
                10
            };
            let first_card = gen_range_inclusive(rng, 2, max_first);
            let second_card = player_total - first_card;
            if second_card > 10 {
                let mut cards = vec![first_card];
                let mut remaining = player_total - first_card;
                proof {
                    assert(cards@ =~= seq![first_card]);
                    lemma_card_sum_singleton(first_card);
                }
                while remaining > 10
                    invariant
                        card_sum(cards@) + remaining == player_total,
                        cards@.len() >= 1,
                        2 <= remaining,
                        forall|i: int| 0 <= i < cards@.len() ==> 2 <= #[trigger] cards@[i] <= 10,
                    decreases remaining,
                {
                    let cap = remaining - 2;
                    let max_card = if cap < 10 {
                        cap
                    } else {
                        10
                    };
                    let card = gen_range_inclusive(rng, 2, max_card);
                    let ghost prev = cards@;
                    cards.push(card);
                    proof {
                        assert(cards@ =~= prev.push(card));
                        lemma_card_sum_push(prev, card);
                    }
                    remaining = remaining - card;
                }
                if remaining >= 2 {
                    let ghost prev = cards@;
                    cards.push(remaining);
                    proof {
                        assert(cards@ =~= prev.push(remaining));
                        lemma_card_sum_push(prev, remaining);
                    }
                }
                cards
            } else if second_card < 2 {
                vec![player_total]
            } else {
                let cards = vec![first_card, second_card];
                proof {
                    assert(cards@ =~= seq![first_card].push(second_card));
                    lemma_card_sum_singleton(first_card);
                    lemma_card_sum_push(seq![first_card], second_card);
                }
                cards
            }
        }
    } else {
        let cards = vec![player_total];
        proof {
            assert(cards@ =~= seq![player_total]);
        }
        cards
    }
}

/// Every scenario a session can produce is covered by its category's table,
/// so the 'H' fallback of an uncovered lookup is unreachable from the
/// generator's domains: the chart answers with the table entry itself.
pub proof fn lemma_generated_scenarios_covered(
    hand_type: Seq<char>,
    cards: Seq<u8>,
    total: u8,
    dealer: u8,
)
    requires
        valid_scenario(hand_type, cards, total, dealer),
    ensures
        hand_type == "hard"@ ==> in_hard_domain(total, dealer) && chart_action(
            hand_type,
            total,
            dealer,
        ) == hard_action(total, dealer),
        hand_type == "soft"@ ==> in_soft_domain(total, dealer) && chart_action(
            hand_type,
            total,
            dealer,
        ) == soft_action(total, dealer),
        hand_type == "pair"@ ==> in_pair_domain(total, dealer) && chart_action(
            hand_type,
            total,
            dealer,
        ) == pair_action(total, dealer),
{
    lemma_categories_distinct();
}

/// An answer's split-intent token maps to the chart's split code before
/// comparison; every other token stands for itself.
pub open spec fn normalize_action(action: char) -> char {
    if action == 'P' {
        'Y'
    } else {
        action
    }
}

/// Check if the user's action matches the correct action, after
/// normalization of the split token.
pub fn check_answer(user_action: char, correct_action: char) -> (r: bool)
    ensures
        r == (normalize_action(user_action) == correct_action),
{
    let normalized_user = if user_action == 'P' {
        'Y'
    } else {
        user_action
    };
    normalized_user == correct_action
}

/// One training mode: a display name, a question cap, and a scenario
/// selection policy. The caller drives the question loop: generate a
/// scenario, show it, collect an action, and grade it with
/// `answer_question` until the cap is reached or the user quits.
pub trait TrainingSession: Sized {
    /// The mode name for display purposes.
    spec fn spec_mode_name(&self) -> Seq<char>;

    /// The question cap of this mode.
    spec fn spec_max_questions(&self) -> u32;

    /// The variant's scenario-selection policy, over the state the variant
    /// was in when the scenario was drawn.
    spec fn scenario_fits_policy(pre: Self, r: (String, Vec<u8>, u8, u8)) -> bool;

    /// Return the mode name for display purposes.
    fn get_mode_name(&self) -> (r: &'static str)
        ensures
            r@ == self.spec_mode_name(),
    ;

    /// Return the maximum number of questions for this session type.
    fn get_max_questions(&self) -> (r: u32)
        ensures
            r == self.spec_max_questions(),
            r >= 1,
    ;

    /// Generate a scenario for this training mode:
    /// (hand type, player cards, player total, dealer card).
    fn generate_scenario(&mut self) -> (r: (String, Vec<u8>, u8, u8))
        ensures
            valid_scenario(r.0@, r.1@, r.2, r.3),
            Self::scenario_fits_policy(*old(self), r),
    ;
}

/// Draw a category uniformly, then a total uniformly within the category's
/// sampling domain, and build the cards: the selection shared by the random,
/// dealer-group and hand-type modes.
fn random_hand(rng: &mut rand::rngs::ThreadRng) -> (r: (String, Vec<u8>, u8))
    ensures
        random_hand_ok(r),
{
    proof {
        lemma_categories_distinct();
    }
    let kind = gen_range_inclusive(rng, 0, 2);
    if kind == 0 {
        random_hard_hand(rng)
    } else if kind == 1 {
        random_soft_hand(rng)
    } else {
        random_pair_hand(rng)
    }
}

/// A hand drawn by the shared selection: a valid hand whose total lies in
/// the sampling domain of its category (hard 5-20, soft 13-20, pair 2-11).
pub open spec fn random_hand_ok(r: (String, Vec<u8>, u8)) -> bool {
    &&& (r.0@ == "hard"@ || r.0@ == "soft"@ || r.0@ == "pair"@)
    &&& (r.0@ == "hard"@ ==> 5 <= r.2 <= 20 && valid_hard_hand(r.1@, r.2))
    &&& (r.0@ == "soft"@ ==> 13 <= r.2 <= 20 && r.1@ =~= seq![11u8, (r.2 - 11) as u8])
    &&& (r.0@ == "pair"@ ==> 2 <= r.2 <= 11 && r.1@ =~= seq![r.2, r.2])
}

fn random_hard_hand(rng: &mut rand::rngs::ThreadRng) -> (r: (String, Vec<u8>, u8))
    ensures
        random_hand_ok(r),
        r.0@ == "hard"@,
{
    proof {
        lemma_categories_distinct();
    }
    let player_total = gen_range_inclusive(rng, 5, 20);
    let player_cards = generate_hand_cards("hard", player_total, rng);
    ("hard".to_owned(), player_cards, player_total)
}

fn random_soft_hand(rng: &mut rand::rngs::ThreadRng) -> (r: (String, Vec<u8>, u8))
    ensures
        random_hand_ok(r),
        r.0@ == "soft"@,
{
    proof {
        lemma_categories_distinct();
    }
    let other_card = gen_range_inclusive(rng, 2, 9);
    let player_total = 11 + other_card;
    let cards = vec![11u8, other_card];
    proof {
        assert(cards@ =~= seq![11u8, (player_total - 11) as u8]);
    }
    ("soft".to_owned(), cards, player_total)
}

fn random_pair_hand(rng: &mut rand::rngs::ThreadRng) -> (r: (String, Vec<u8>, u8))
    ensures
        random_hand_ok(r),
        r.0@ == "pair"@,
{
    proof {
        lemma_categories_distinct();
    }
    let pair_value = gen_range_inclusive(rng, 2, 11);
    let cards = vec![pair_value, pair_value];
    proof {
        assert(cards@ =~= seq![pair_value, pair_value]);
    }
    ("pair".to_owned(), cards, pair_value)
}

/// Random practice: every category, every dealer card.
pub struct RandomTrainingSession {
    pub rng: rand::rngs::ThreadRng,
}

impl RandomTrainingSession {
    pub fn new() -> Self {
        RandomTrainingSession { rng: new_thread_rng() }
    }
}

impl TrainingSession for RandomTrainingSession {
    open spec fn spec_mode_name(&self) -> Seq<char> {
        "random"@
    }

    open spec fn spec_max_questions(&self) -> u32 {
        50u32
    }

    open spec fn scenario_fits_policy(pre: Self, r: (String, Vec<u8>, u8, u8)) -> bool {
        random_hand_ok((r.0, r.1, r.2))
    }

    fn get_mode_name(&self) -> (r: &'static str) {
        "random"
    }

    fn get_max_questions(&self) -> (r: u32) {
        50
    }

    fn generate_scenario(&mut self) -> (r: (String, Vec<u8>, u8, u8)) {
        let dealer_card = gen_range_inclusive(&mut self.rng, 2, 11);
        let (hand_type, player_cards, player_total) = random_hand(&mut self.rng);
        (hand_type, player_cards, player_total, dealer_card)
    }
}

/// Training focused on one dealer strength group, chosen at setup:
/// 1 weak, 2 medium, anything else strong; an unset choice counts as weak.
pub struct DealerGroupTrainingSession {
    pub rng: rand::rngs::ThreadRng,
    pub dealer_group: Option<u8>,
}

impl DealerGroupTrainingSession {
    pub fn new() -> (r: Self)
        ensures
            r.dealer_group.is_none(),
    {
        DealerGroupTrainingSession { rng: new_thread_rng(), dealer_group: None }
    }

    /// Record the group chosen at setup; `None` stands for a cancelled
    /// setup, which the caller treats as an aborted session.
    pub fn set_dealer_group(&mut self, group: Option<u8>)
        ensures
            final(self).dealer_group == group,
    {
        self.dealer_group = group;
    }
}

/// The dealer cards the session's chosen group allows.
pub open spec fn group_allows_dealer(group: Option<u8>, dealer: u8) -> bool {
    match group {
        Some(2u8) => dealer == 2 || dealer == 3 || dealer == 7 || dealer == 8,
        Some(g) => if g == 1 {
            4 <= dealer <= 6
        } else {
            9 <= dealer <= 11
        },
        None => 4 <= dealer <= 6,
    }
}

impl TrainingSession for DealerGroupTrainingSession {
    open spec fn spec_mode_name(&self) -> Seq<char> {
        "dealer_groups"@
    }

    open spec fn spec_max_questions(&self) -> u32 {
        50u32
    }

    open spec fn scenario_fits_policy(pre: Self, r: (String, Vec<u8>, u8, u8)) -> bool {
        &&& random_hand_ok((r.0, r.1, r.2))
        &&& group_allows_dealer(pre.dealer_group, r.3)
    }

    fn get_mode_name(&self) -> (r: &'static str) {
        "dealer_groups"
    }

    fn get_max_questions(&self) -> (r: u32) {
        50
    }

    fn generate_scenario(&mut self) -> (r: (String, Vec<u8>, u8, u8)) {
        let group = match self.dealer_group {
            Some(g) => g,
            None => 1,
        };
        let dealer_card = if group == 1 {
            let cards = weak_dealer_cards();
            let i = gen_range_inclusive(&mut self.rng, 0, 2);
            cards[i as usize]
        } else if group == 2 {
            let cards = medium_dealer_cards();
            let i = gen_range_inclusive(&mut self.rng, 0, 3);
            cards[i as usize]
        } else {
            let cards = strong_dealer_cards();
            let i = gen_range_inclusive(&mut self.rng, 0, 2);
            cards[i as usize]
        };
        let (hand_type, player_cards, player_total) = random_hand(&mut self.rng);
        (hand_type, player_cards, player_total, dealer_card)
    }
}

/// Training focused on one hand category, chosen at setup:
/// 1 hard, 2 soft, anything else pairs; an unset choice counts as hard.
pub struct HandTypeTrainingSession {
    pub rng: rand::rngs::ThreadRng,
    pub hand_type_choice: Option<u8>,
}

impl HandTypeTrainingSession {
    pub fn new() -> (r: Self)
        ensures
            r.hand_type_choice.is_none(),
    {
        HandTypeTrainingSession { rng: new_thread_rng(), hand_type_choice: None }
    }

    /// Record the category chosen at setup; `None` stands for a cancelled
    /// setup, which the caller treats as an aborted session.
    pub fn set_hand_type_choice(&mut self, choice: Option<u8>)
        ensures
            final(self).hand_type_choice == choice,
    {
        self.hand_type_choice = choice;
    }
}

/// The category name the session's chosen focus selects.
pub open spec fn choice_category(choice: Option<u8>) -> Seq<char> {
    match choice {
        Some(2u8) => "soft"@,
        Some(c) => if c == 1 {
            "hard"@
        } else {
            "pair"@
        },
        None => "hard"@,
    }
}

impl TrainingSession for HandTypeTrainingSession {
    open spec fn spec_mode_name(&self) -> Seq<char> {
        "hand_types"@
    }

    open spec fn spec_max_questions(&self) -> u32 {
        50u32
    }

    open spec fn scenario_fits_policy(pre: Self, r: (String, Vec<u8>, u8, u8)) -> bool {
        &&& random_hand_ok((r.0, r.1, r.2))
        &&& r.0@ == choice_category(pre.hand_type_choice)
    }

    fn get_mode_name(&self) -> (r: &'static str) {
        "hand_types"
    }

    fn get_max_questions(&self) -> (r: u32) {
        50
    }

    fn generate_scenario(&mut self) -> (r: (String, Vec<u8>, u8, u8)) {
        let dealer_card = gen_range_inclusive(&mut self.rng, 2, 11);
        let choice = match self.hand_type_choice {
            Some(c) => c,
            None => 1,
        };
        let (hand_type, player_cards, player_total) = if choice == 1 {
            random_hard_hand(&mut self.rng)
        } else if choice == 2 {
            random_soft_hand(&mut self.rng)
        } else {
            random_pair_hand(&mut self.rng)
        };
        (hand_type, player_cards, player_total, dealer_card)
    }
}

/// The absolutes drill: every question comes from a fixed pool of ten
/// always/never scenarios, with the dealer card re-drawn each time.
pub struct AbsoluteTrainingSession {
    pub rng: rand::rngs::ThreadRng,
}

impl AbsoluteTrainingSession {
    pub fn new() -> Self {
        AbsoluteTrainingSession { rng: new_thread_rng() }
    }
}

impl TrainingSession for AbsoluteTrainingSession {
    open spec fn spec_mode_name(&self) -> Seq<char> {
        "absolutes"@
    }

    open spec fn spec_max_questions(&self) -> u32 {
        20u32
    }

    /// Every scenario this mode asks about is an absolute rule.
    open spec fn scenario_fits_policy(pre: Self, r: (String, Vec<u8>, u8, u8)) -> bool {
        is_absolute(r.0@, r.2)
    }

    fn get_mode_name(&self) -> (r: &'static str) {
        "absolutes"
    }

    fn get_max_questions(&self) -> (r: u32) {
        20
    }

    fn generate_scenario(&mut self) -> (r: (String, Vec<u8>, u8, u8)) {
        proof {
            lemma_categories_distinct();
        }
        let pick = gen_range_inclusive(&mut self.rng, 0, 9);
        let dealer_card = gen_range_inclusive(&mut self.rng, 2, 11);
        if pick <= 3 {
            let rank: u8 = if pick == 0 {
                11
            } else if pick == 1 {
                8
            } else if pick == 2 {
                10
            } else {
                5
            };
            let cards = vec![rank, rank];
            proof {
                assert(cards@ =~= seq![rank, rank]);
            }
            ("pair".to_owned(), cards, rank, dealer_card)
        } else if pick <= 7 {
            let player_total: u8 = 13 + pick;
            let player_cards = generate_hand_cards("hard", player_total, &mut self.rng);
            ("hard".to_owned(), player_cards, player_total, dealer_card)
        } else {
            let other_card: u8 = pick;
            let player_total: u8 = 11 + other_card;
            let cards = vec![11u8, other_card];
            proof {
                assert(cards@ =~= seq![11u8, (player_total - 11) as u8]);
            }
            ("soft".to_owned(), cards, player_total, dealer_card)
        }
    }
}

/// Progress of one running session: how many questions were answered, how
/// many of them correctly, and the mode's question cap.
pub struct SessionProgress {
    pub questions_asked: u32,
    pub correct_count: u32,
    pub max_questions: u32,
}

impl SessionProgress {
    /// Start counting a fresh session under the given question cap.
    pub fn new(max_questions: u32) -> (r: Self)
        ensures
            r.questions_asked == 0,
            r.correct_count == 0,
            r.max_questions == max_questions,
    {
        SessionProgress { questions_asked: 0, correct_count: 0, max_questions }
    }

    /// Whether the session may ask another question.
    pub fn should_continue(&self) -> (r: bool)
        ensures
            r == (self.questions_asked < self.max_questions),
    {
        self.questions_asked < self.max_questions
    }
}

/// Grade one answered question and record it: score the user's action
/// against the chart after split-token normalization, fetch the explanation,
/// update the statistics under the hand category and the dealer card's
/// strength, and advance the session progress. Returns the correctness
/// flag, the correct action, and the explanation.
pub fn answer_question(
    chart: &StrategyChart,
    stats: &mut Statistics,
    progress: &mut SessionProgress,
    hand_type: &str,
    player_total: u8,
    dealer_card: u8,
    user_action: char,
) -> (r: (bool, char, String))
    requires
        old(progress).questions_asked < old(progress).max_questions,
        old(progress).correct_count <= old(progress).questions_asked,
        old(stats).consistent(),
        old(stats).total_attempts < u32::MAX,
    ensures
        r.1 == chart_action(hand_type@, player_total, dealer_card),
        r.0 == (normalize_action(user_action) == r.1),
        r.2@ == explanation(hand_type@, player_total, dealer_card),
        final(stats).consistent(),
        recorded_attempt(
            *old(stats),
            *final(stats),
            hand_type@,
            dealer_strength(dealer_card),
            r.0,
        ),
        final(progress).questions_asked == old(progress).questions_asked + 1,
        final(progress).correct_count == old(progress).correct_count + (if r.0 {
            1int
        } else {
            0int
        }),
        final(progress).correct_count <= final(progress).questions_asked,
        final(progress).max_questions == old(progress).max_questions,
{
    let correct_action = chart.get_correct_action(hand_type, player_total, dealer_card);
    let correct = check_answer(user_action, correct_action);
    let explanation_text = chart.get_explanation(hand_type, player_total, dealer_card);
    let strength = stats.get_dealer_strength(dealer_card);
    stats.record_attempt(hand_type, strength, correct);
    progress.questions_asked = progress.questions_asked + 1;
    if correct {
        progress.correct_count = progress.correct_count + 1;
    }
    (correct, correct_action, explanation_text)
}

impl Default for RandomTrainingSession {
    fn default() -> Self {
        Self::new()
    }
}

impl Default for DealerGroupTrainingSession {
    fn default() -> (r: Self)
        ensures
            r.dealer_group.is_none(),
    {
        Self::new()
    }
}

impl Default for HandTypeTrainingSession {
    fn default() -> (r: Self)
        ensures
            r.hand_type_choice.is_none(),
    {
        Self::new()
    }
}

impl Default for AbsoluteTrainingSession {
    fn default() -> Self {
        Self::new()
    }
}

} // verus!

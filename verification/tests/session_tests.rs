use blackjack_trainer::stats::Statistics;
use blackjack_trainer::strategy::StrategyChart;
use blackjack_trainer::trainer::{
    answer_question, check_answer, AbsoluteTrainingSession, DealerGroupTrainingSession,
    HandTypeTrainingSession, RandomTrainingSession, SessionProgress, TrainingSession,
};

fn assert_valid_scenario(hand_type: &str, cards: &[u8], total: u8, dealer: u8) {
    assert!((2..=11).contains(&dealer), "dealer {} out of range", dealer);
    match hand_type {
        "pair" => {
            assert!((2..=11).contains(&total));
            assert_eq!(cards, [total, total]);
        }
        "soft" => {
            assert!((13..=21).contains(&total));
            assert_eq!(cards, [11, total - 11]);
        }
        "hard" => {
            assert!((5..=21).contains(&total));
            let sum: u8 = cards.iter().sum();
            assert_eq!(sum, total);
            if total <= 11 {
                assert_eq!(cards, [total]);
            } else {
                assert!(cards.len() >= 2);
                for &card in cards {
                    assert!((2..=10).contains(&card), "bad card {} in {:?}", card, cards);
                }
            }
        }
        other => panic!("unknown category {}", other),
    }
}

#[test]
fn test_random_session_scenarios() {
    let mut session = RandomTrainingSession::new();
    assert_eq!(session.get_mode_name(), "random");
    assert_eq!(session.get_max_questions(), 50);
    for _ in 0..200 {
        let (hand_type, cards, total, dealer) = session.generate_scenario();
        assert_valid_scenario(&hand_type, &cards, total, dealer);
    }
}

#[test]
fn test_dealer_group_session_scenarios() {
    let mut session = DealerGroupTrainingSession::new();
    assert_eq!(session.get_mode_name(), "dealer_groups");
    assert_eq!(session.get_max_questions(), 50);

    session.set_dealer_group(Some(1));
    for _ in 0..50 {
        let (hand_type, cards, total, dealer) = session.generate_scenario();
        assert_valid_scenario(&hand_type, &cards, total, dealer);
        assert!([4, 5, 6].contains(&dealer), "weak group gave {}", dealer);
    }

    session.set_dealer_group(Some(2));
    for _ in 0..50 {
        let (_, _, _, dealer) = session.generate_scenario();
        assert!([2, 3, 7, 8].contains(&dealer), "medium group gave {}", dealer);
    }

    session.set_dealer_group(Some(3));
    for _ in 0..50 {
        let (_, _, _, dealer) = session.generate_scenario();
        assert!([9, 10, 11].contains(&dealer), "strong group gave {}", dealer);
    }
}

#[test]
fn test_hand_type_session_scenarios() {
    let mut session = HandTypeTrainingSession::new();
    assert_eq!(session.get_mode_name(), "hand_types");
    assert_eq!(session.get_max_questions(), 50);

    session.set_hand_type_choice(Some(1));
    for _ in 0..50 {
        let (hand_type, cards, total, dealer) = session.generate_scenario();
        assert_valid_scenario(&hand_type, &cards, total, dealer);
        assert_eq!(hand_type, "hard");
    }

    session.set_hand_type_choice(Some(2));
    for _ in 0..50 {
        let (hand_type, _, _, _) = session.generate_scenario();
        assert_eq!(hand_type, "soft");
    }

    session.set_hand_type_choice(Some(3));
    for _ in 0..50 {
        let (hand_type, _, _, _) = session.generate_scenario();
        assert_eq!(hand_type, "pair");
    }
}

#[test]
fn test_absolute_session_scenarios() {
    let chart = StrategyChart::new();
    let mut session = AbsoluteTrainingSession::new();
    assert_eq!(session.get_mode_name(), "absolutes");
    assert_eq!(session.get_max_questions(), 20);
    for _ in 0..200 {
        let (hand_type, cards, total, dealer) = session.generate_scenario();
        assert_valid_scenario(&hand_type, &cards, total, dealer);
        assert!(
            chart.is_absolute_rule(&hand_type, total, dealer),
            "{} {} is not an absolute rule",
            hand_type,
            total
        );
    }
}

#[test]
fn test_check_answer_normalizes_split() {
    assert!(check_answer('P', 'Y'));
    assert!(check_answer('Y', 'Y'));
    assert!(check_answer('H', 'H'));
    assert!(check_answer('S', 'S'));
    assert!(!check_answer('S', 'H'));
    assert!(!check_answer('P', 'S'));
    assert!(!check_answer('H', 'Y'));
}

#[test]
fn test_explanation_special_cases() {
    let chart = StrategyChart::new();

    assert_eq!(
        chart.get_explanation("pair", 11, 9),
        "Aces and eights, don't hesitate"
    );
    assert_eq!(
        chart.get_explanation("pair", 8, 10),
        "Aces and eights, don't hesitate"
    );
    assert_eq!(
        chart.get_explanation("pair", 10, 5),
        "Tens and fives, keep them alive"
    );
    assert_eq!(
        chart.get_explanation("pair", 5, 3),
        "Tens and fives, keep them alive"
    );
    assert_eq!(
        chart.get_explanation("soft", 18, 5),
        "A,7 is the tricky soft hand"
    );
    assert_eq!(
        chart.get_explanation("hard", 12, 4),
        "12 is the exception - only stand vs 4,5,6"
    );
    // Dealer-strength patterns come after the special cases.
    assert_eq!(
        chart.get_explanation("hard", 9, 5),
        "Dealer bust cards (4,5,6) = player gets greedy"
    );
    assert_eq!(
        chart.get_explanation("hard", 15, 10),
        "Teens stay vs weak, flee from strong"
    );
    // Nothing else applies: the generic fallback.
    assert_eq!(
        chart.get_explanation("hard", 9, 7),
        "Follow basic strategy patterns"
    );
}

#[test]
fn test_answer_question_incorrect_hard_nine() {
    // Hard 9 against dealer 5: the correct action is Double; a Hit answer
    // is marked incorrect and recorded under Hard and Weak.
    let chart = StrategyChart::new();
    let mut stats = Statistics::new();
    let mut progress = SessionProgress::new(50);

    let (correct, correct_action, explanation) =
        answer_question(&chart, &mut stats, &mut progress, "hard", 9, 5, 'H');

    assert!(!correct);
    assert_eq!(correct_action, 'D');
    assert_eq!(explanation, "Dealer bust cards (4,5,6) = player gets greedy");
    assert_eq!(stats.get_session_counts(), (0, 1));
    assert_eq!(stats.get_category_counts("hard"), (0, 1));
    assert_eq!(stats.get_dealer_strength_counts("weak"), (0, 1));
    assert_eq!(stats.get_category_counts("soft"), (0, 0));
    assert_eq!(stats.get_dealer_strength_counts("medium"), (0, 0));
    assert_eq!(progress.questions_asked, 1);
    assert_eq!(progress.correct_count, 0);
    assert!(progress.should_continue());
}

#[test]
fn test_answer_question_correct_pair_eights() {
    // A pair of eights against dealer 10: Split, whatever the dealer shows,
    // and the always-split mnemonic explains it.
    let chart = StrategyChart::new();
    let mut stats = Statistics::new();
    let mut progress = SessionProgress::new(20);

    let (correct, correct_action, explanation) =
        answer_question(&chart, &mut stats, &mut progress, "pair", 8, 10, 'P');

    assert!(correct);
    assert_eq!(correct_action, 'Y');
    assert_eq!(explanation, "Aces and eights, don't hesitate");
    assert_eq!(stats.get_session_counts(), (1, 1));
    assert_eq!(stats.get_category_counts("pair"), (1, 1));
    assert_eq!(stats.get_dealer_strength_counts("strong"), (1, 1));
    assert_eq!(progress.questions_asked, 1);
    assert_eq!(progress.correct_count, 1);
}

#[test]
fn test_session_progress_cap() {
    let chart = StrategyChart::new();
    let mut stats = Statistics::new();
    let mut progress = SessionProgress::new(3);

    assert!(progress.should_continue());
    for _ in 0..3 {
        assert!(progress.should_continue());
        answer_question(&chart, &mut stats, &mut progress, "hard", 17, 7, 'S');
    }
    assert!(!progress.should_continue());
    assert_eq!(progress.questions_asked, 3);
    assert_eq!(progress.correct_count, 3);
    assert_eq!(stats.get_session_counts(), (3, 3));
}

#[test]
fn test_statistics_seventy_percent_and_reset() {
    // Seven correct and three incorrect attempts, all Hard against a weak
    // dealer: 70 percent everywhere they were recorded, and zero after a
    // reset.
    let mut stats = Statistics::new();
    for _ in 0..7 {
        stats.record_attempt("hard", "weak", true);
    }
    for _ in 0..3 {
        stats.record_attempt("hard", "weak", false);
    }

    let (correct, total) = stats.get_session_counts();
    assert_eq!((correct, total), (7, 10));
    assert_eq!((correct as f64 / total as f64) * 100.0, 70.0);
    assert_eq!(stats.get_category_counts("hard"), (7, 10));
    assert_eq!(stats.get_dealer_strength_counts("weak"), (7, 10));

    stats.reset_session();
    assert_eq!(stats.get_session_counts(), (0, 0));
    assert_eq!(stats.get_category_counts("hard"), (0, 0));
    assert_eq!(stats.get_dealer_strength_counts("weak"), (0, 0));
}

#[test]
fn test_chart_fallback_on_uncovered_lookup() {
    let chart = StrategyChart::new();
    // Outside every table's domain, and for an unknown category, the
    // defined fallback is Hit.
    assert_eq!(chart.get_correct_action("hard", 4, 5), 'H');
    assert_eq!(chart.get_correct_action("hard", 22, 5), 'H');
    assert_eq!(chart.get_correct_action("soft", 12, 5), 'H');
    assert_eq!(chart.get_correct_action("pair", 12, 5), 'H');
    assert_eq!(chart.get_correct_action("hard", 15, 12), 'H');
    assert_eq!(chart.get_correct_action("mystery", 15, 5), 'H');
}

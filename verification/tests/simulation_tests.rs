use neuronudge::content::DifficultyLevel;
use neuronudge::learner::{ASDTraits, Communicability, CommunicationLevel, MotorSkills};
use neuronudge::simulate::{
    base_correctness, correctness_factor, run_simulation_strategy_1, run_simulation_strategy_2,
    run_simulation_strategy_3, run_simulation_strategy_4, trait_adjusted_time,
};
use neuronudge::UNIT;

#[test]
fn alignment_of_identical_profiles_is_full() {
    let a = ASDTraits::new(
        "a".to_string(),
        10,
        vec![Communicability::Verbal, Communicability::NonVerbal],
        CommunicationLevel::High,
        MotorSkills::High,
    );
    let b = ASDTraits::new(
        "b".to_string(),
        10,
        vec![Communicability::Verbal, Communicability::NonVerbal],
        CommunicationLevel::High,
        MotorSkills::High,
    );
    assert_eq!(a.calculate_alignment(&b), UNIT);
}

#[test]
fn alignment_mixes_the_four_weighted_factors() {
    // Attention 5 of 10 (0.5), one of two modes shared scaled by a
    // mid-level communication alignment of 1.0, motor one step below
    // (0.5): 0.4*0.5 + 0.2*0.5 + 0.2*1.0 + 0.2*0.5 = 0.6.
    let learner = ASDTraits::new(
        "a".to_string(),
        5,
        vec![Communicability::NonVerbal],
        CommunicationLevel::Medium,
        MotorSkills::Medium,
    );
    let target = ASDTraits::new(
        "b".to_string(),
        10,
        vec![Communicability::Verbal, Communicability::NonVerbal],
        CommunicationLevel::Low,
        MotorSkills::High,
    );
    assert_eq!(learner.calculate_alignment(&target), 600000);
}

#[test]
fn trait_misalignment_crushes_the_correctness_factor() {
    // A learner with a one-minute attention span against a Grandmaster
    // target demanding twenty minutes: the aligned factor lands at the
    // five-percent floor, far below the 0.40 base.
    let learner = ASDTraits::new(
        "a".to_string(),
        1,
        vec![Communicability::NonVerbal],
        CommunicationLevel::Low,
        MotorSkills::Low,
    );
    let target = ASDTraits::new(
        "b".to_string(),
        20,
        vec![Communicability::NonVerbal, Communicability::Verbal],
        CommunicationLevel::High,
        MotorSkills::VeryHigh,
    );
    let alignment = learner.calculate_alignment(&target);
    let base = base_correctness(DifficultyLevel::Grandmaster);
    assert_eq!(base, 400000);
    let factor = correctness_factor(true, base, alignment, 0, 0);
    assert!(factor < base);
    assert_eq!(factor, 50000);
}

#[test]
fn practice_can_overcome_poor_trait_fit() {
    // With enough back-to-back attempts the practice boost saturates at
    // one whole unit, restoring the base factor even at zero alignment.
    let base = base_correctness(DifficultyLevel::Grandmaster);
    let factor = correctness_factor(true, base, 0, 5000, 0);
    assert_eq!(factor, base);
}

#[test]
fn time_stretches_past_the_attention_span() {
    // A 75-second sample against a one-minute span grows by 1.2 times
    // the 15-second excess.
    assert_eq!(trait_adjusted_time(75, 1), 93);
    // Within the span nothing changes.
    assert_eq!(trait_adjusted_time(40, 1), 40);
}

#[test]
fn positive_progress_raises_the_correctness_factor() {
    let base = base_correctness(DifficultyLevel::Medium);
    let plain = correctness_factor(false, base, UNIT, 0, 0);
    let boosted = correctness_factor(false, base, UNIT, 0, 500000);
    assert_eq!(plain, base);
    assert_eq!(boosted, base + 50000);
}

#[test]
fn every_strategy_produces_the_requested_number_of_iterations() {
    let seeds = 7u64;
    assert_eq!(run_simulation_strategy_1(Some(3), seeds).iterations.len(), 3);
    assert_eq!(run_simulation_strategy_2(Some(3), seeds).iterations.len(), 3);
    assert_eq!(run_simulation_strategy_3(Some(3), seeds).iterations.len(), 3);
    assert_eq!(run_simulation_strategy_4(Some(3), seeds).iterations.len(), 3);
}

#[test]
fn runs_are_reproducible_from_their_seed() {
    let a = run_simulation_strategy_3(Some(5), 42);
    let b = run_simulation_strategy_3(Some(5), 42);
    assert_eq!(a.to_json_bytes(), b.to_json_bytes());
}

#[test]
fn snapshots_number_iterations_from_one_in_learner_order() {
    let results = run_simulation_strategy_1(Some(4), 11);
    let expected_ids = [
        "Learner 1",
        "Learner 2",
        "Learner 3",
        "Learner 4",
        "Learner 5",
        "Learner 6",
    ];
    for (i, iteration) in results.iterations.iter().enumerate() {
        assert_eq!(iteration.iteration, (i + 1) as u32);
        assert_eq!(iteration.values.len(), 6);
        for (l, row) in iteration.values.iter().enumerate() {
            assert_eq!(row.values.len(), 8);
            assert_eq!(row.learner_id, expected_ids[l]);
        }
    }
    // Every run starts each learner at the lowest level.
    for row in &results.iterations[0].values {
        assert_eq!(row.difficulty_level, DifficultyLevel::VeryEasy);
    }
}

#[test]
fn simulated_learners_are_seeded_in_order_with_zeroed_tables() {
    let lessons = neuronudge::simulated_content_shapes::generate_shapes_lessons();
    let pairs = neuronudge::simulated_learners::generate_simulated_learners_with_q_tables(
        &lessons,
        neuronudge::engine::Strategy::MasteryThresholds,
    );
    assert_eq!(pairs.len(), 6);
    let expected_attention = [5, 6, 7, 9, 12, 15];
    for (l, (learner, q)) in pairs.iter().enumerate() {
        assert_eq!(learner.get_id().as_str(), format!("Learner {}", l + 1));
        assert_eq!(learner.get_name().as_str(), format!("Learner {}", l + 1));
        assert_eq!(*learner.get_age(), (7 + l) as u8);
        assert_eq!(
            *learner.get_asd_traits().get_attention_span(),
            expected_attention[l]
        );
        for (k, lesson) in lessons.iter().enumerate() {
            let state = (lesson.clone(), DifficultyLevel::from_index(k));
            assert_eq!(q.get(&state), Some(0));
        }
    }
}

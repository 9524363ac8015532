use neuronudge::content::{DifficultyLevel, Lesson, LessonResult, QuestionAttempt};
use neuronudge::engine::{classify_mastery, compute_reward, time_band, Mastery, QTableAlgorithm, Strategy};
use neuronudge::simulated_content_shapes::generate_shapes_lessons;
use neuronudge::simulated_learners::seeded_table;
use neuronudge::UNIT;

fn perfect_result(d: DifficultyLevel, questions: i32) -> LessonResult {
    let (lo, _) = time_band(d);
    let mut attempts = Vec::new();
    for k in 0..questions {
        attempts.push(QuestionAttempt::new(format!("q{}", k), lo as i32, 1, 0));
    }
    LessonResult::new(d, lo as i32, questions, attempts)
}

fn always_wrong_result(d: DifficultyLevel, questions: i32) -> LessonResult {
    let (_, hi) = time_band(d);
    let mut attempts = Vec::new();
    for k in 0..questions {
        attempts.push(QuestionAttempt::new(format!("q{}", k), hi as i32, 5, 4));
    }
    LessonResult::new(d, hi as i32, questions, attempts)
}

fn lesson_at(lessons: &Vec<Lesson>, k: usize) -> Lesson {
    lessons[k].clone()
}

#[test]
fn perfect_outcome_earns_the_full_reward() {
    let r = perfect_result(DifficultyLevel::VeryEasy, 6);
    assert_eq!(compute_reward(&r, DifficultyLevel::VeryEasy), UNIT);
    assert_eq!(classify_mastery(UNIT), Mastery::Full);
}

#[test]
fn time_at_band_upper_earns_half_the_time_reward() {
    // No incorrect attempts and no hints, but the time sits at the band's
    // upper edge: reward = (3 * 0.5 + 5 + 2) / 10 = 0.85.
    let d = DifficultyLevel::Medium;
    let (_, hi) = time_band(d);
    let attempts = vec![QuestionAttempt::new("q0".to_string(), hi as i32, 1, 0)];
    let r = LessonResult::new(d, hi as i32, 1, attempts);
    assert_eq!(compute_reward(&r, d), 850000);
}

#[test]
fn always_wrong_outcome_is_clamped_to_the_negative_unit() {
    // Four incorrect attempts on each of five questions: the incorrect
    // ratio sub-reward is 1 - 20/5 = -3, which drags the combined reward
    // below the clamp.
    let r = always_wrong_result(DifficultyLevel::Medium, 5);
    assert_eq!(compute_reward(&r, DifficultyLevel::Medium), -UNIT);
    assert_eq!(classify_mastery(-UNIT), Mastery::NoMastery);
}

#[test]
fn mastery_thresholds_sit_at_their_documented_edges() {
    assert_eq!(classify_mastery(800000), Mastery::Full);
    assert_eq!(classify_mastery(799999), Mastery::Competent);
    assert_eq!(classify_mastery(700000), Mastery::Competent);
    assert_eq!(classify_mastery(699999), Mastery::Basic);
    assert_eq!(classify_mastery(500000), Mastery::Basic);
    assert_eq!(classify_mastery(499999), Mastery::NoMastery);
}

#[test]
fn insert_then_get_returns_the_stored_value() {
    let lessons = generate_shapes_lessons();
    let mut q = seeded_table(&lessons, Strategy::BaseQLearning);
    let lesson = lesson_at(&lessons, 3);
    let state = (lesson.clone(), DifficultyLevel::Hard);
    q.insert((lesson.clone(), DifficultyLevel::Hard), 250000);
    assert_eq!(q.get(&state), Some(250000));
    assert!(q.has_lesson_difficulty_pair(&state));
}

#[test]
fn fresh_tables_start_at_zero_with_untouched_counters() {
    let lessons = generate_shapes_lessons();
    let q = seeded_table(&lessons, Strategy::DecayingQValues);
    assert_eq!(q.get_lesson_difficulty_pairs().len(), 8);
    for (_, _, v) in q.get_lesson_difficulty_pairs() {
        assert_eq!(v, 0);
    }
    for k in 0..8 {
        assert_eq!(q.decay_counters[k], (k as i64) + 2);
        assert_eq!(q.total_difficulty_non_attempts[k], 0);
        assert!(!q.has_attempted_difficulty[k]);
        assert_eq!(q.consecutive_attempts[k], 0);
    }
    assert_eq!(q.get_id().len(), 36);
}

#[test]
fn update_turns_over_the_consecutive_attempt_counters() {
    let lessons = generate_shapes_lessons();
    let mut q = seeded_table(&lessons, Strategy::MasteryThresholds);
    let lesson = lesson_at(&lessons, 2);
    let r = perfect_result(DifficultyLevel::Medium, 6);

    q.update_with_draw((lesson.clone(), DifficultyLevel::Medium), &r, 0);
    assert_eq!(
        q.get_consecutive_attempts_for_difficulty(&DifficultyLevel::Medium),
        1
    );
    q.update_with_draw((lesson.clone(), DifficultyLevel::Medium), &r, 0);
    assert_eq!(
        q.get_consecutive_attempts_for_difficulty(&DifficultyLevel::Medium),
        2
    );

    // Attempting another level resets every other counter.
    let hard = lesson_at(&lessons, 3);
    let rh = perfect_result(DifficultyLevel::Hard, 6);
    q.update_with_draw((hard, DifficultyLevel::Hard), &rh, 0);
    assert_eq!(
        q.get_consecutive_attempts_for_difficulty(&DifficultyLevel::Hard),
        1
    );
    for k in 0..8 {
        if k != 3 {
            assert_eq!(
                q.get_consecutive_attempts_for_difficulty(&DifficultyLevel::from_index(k)),
                0
            );
        }
    }
}

#[test]
fn decay_counters_never_grow_across_updates() {
    let lessons = generate_shapes_lessons();
    let mut q = seeded_table(&lessons, Strategy::DecayingQValues);
    let lesson = lesson_at(&lessons, 0);
    let before: Vec<i64> = q.decay_counters.clone();
    for _ in 0..50 {
        let r = perfect_result(DifficultyLevel::VeryEasy, 6);
        q.update_with_draw((lesson.clone(), DifficultyLevel::VeryEasy), &r, 0);
    }
    for k in 0..8 {
        assert!(q.decay_counters[k] <= before[k]);
    }
}

#[test]
fn base_q_learning_always_selects_the_next_level_up() {
    let lessons = generate_shapes_lessons();
    let q = seeded_table(&lessons, Strategy::BaseQLearning);
    for k in 0..8 {
        let lesson = lesson_at(&lessons, k);
        let d = DifficultyLevel::from_index(k);
        let next = q.choose_next_difficulty(&(lesson, d), None, 0);
        let expected = if k >= 7 { 7 } else { k + 1 };
        assert_eq!(next.1.index(), expected);
    }
}

#[test]
fn full_mastery_at_the_top_saturates() {
    let lessons = generate_shapes_lessons();
    let q = seeded_table(&lessons, Strategy::MasteryThresholds);
    let lesson = lesson_at(&lessons, 7);
    let next = q.choose_next_difficulty(
        &(lesson, DifficultyLevel::Grandmaster),
        Some(Mastery::Full),
        0,
    );
    assert_eq!(next.1, DifficultyLevel::Grandmaster);
}

#[test]
fn no_mastery_at_the_bottom_saturates() {
    let lessons = generate_shapes_lessons();
    let q = seeded_table(&lessons, Strategy::MasteryThresholds);
    let lesson = lesson_at(&lessons, 0);
    let next = q.choose_next_difficulty(
        &(lesson, DifficultyLevel::VeryEasy),
        Some(Mastery::NoMastery),
        0,
    );
    assert_eq!(next.1, DifficultyLevel::VeryEasy);
}

#[test]
fn selection_always_answers_a_pair_the_table_holds() {
    let lessons = generate_shapes_lessons();
    let q = seeded_table(&lessons, Strategy::MasteryThresholds);
    for k in 0..8 {
        let lesson = lesson_at(&lessons, k);
        let d = DifficultyLevel::from_index(k);
        for draws in [(0i64, 0i64), (0, 999999), (999999, 0), (999999, 999999)] {
            let pair = q.epsilon_greedy_action(
                &(lesson.clone(), d),
                Some(Mastery::Basic),
                draws.0,
                draws.1,
            );
            assert!(pair.1.index() <= 7);
            assert!(q.has_lesson_difficulty_pair(&pair));
        }
    }
}

#[test]
fn zero_epsilon_exploits_and_full_epsilon_explores() {
    let lessons = generate_shapes_lessons();
    let base = seeded_table(&lessons, Strategy::BaseQLearning);

    // A zero exploration rate always exploits: the selection stays at the
    // current difficulty, where the best-known entry lives.
    let mut entries = Vec::new();
    for (l, d, v) in base.get_lesson_difficulty_pairs() {
        let _ = v;
        entries.push(neuronudge::engine::QEntry {
            lesson: l,
            difficulty: d,
            value: 0,
        });
    }
    let greedy = QTableAlgorithm::new(Some(entries), 0, Strategy::BaseQLearning);
    let lesson = lesson_at(&lessons, 2);
    for draw in [0i64, 500000, 999999] {
        let pair = greedy.epsilon_greedy_action(
            &(lesson.clone(), DifficultyLevel::Medium),
            None,
            draw,
            0,
        );
        assert_eq!(pair.1, DifficultyLevel::Medium);
    }

    // A full exploration rate always explores: plain Q-learning then
    // advances one level whatever the draw.
    let mut entries = Vec::new();
    for (l, d, v) in greedy.get_lesson_difficulty_pairs() {
        let _ = v;
        entries.push(neuronudge::engine::QEntry {
            lesson: l,
            difficulty: d,
            value: 0,
        });
    }
    let explorer = QTableAlgorithm::new(Some(entries), 1000000, Strategy::BaseQLearning);
    for draw in [0i64, 500000, 999999] {
        let pair = explorer.epsilon_greedy_action(
            &(lesson.clone(), DifficultyLevel::Medium),
            None,
            draw,
            999999,
        );
        assert_eq!(pair.1, DifficultyLevel::Hard);
    }
}

#[test]
fn perfect_run_under_base_q_learning_reaches_grandmaster() {
    // Eight iterations of flawless outcomes, exploring each time: the
    // learner climbs one level per iteration and saturates at the top,
    // and the very-easy entry ends strictly above its initial zero.
    let lessons = generate_shapes_lessons();
    let mut q = seeded_table(&lessons, Strategy::BaseQLearning);
    let mut current = lesson_at(&lessons, 0);
    for _ in 0..8 {
        let d = current.get_difficulty_level();
        let r = perfect_result(d, current.get_questions().len() as i32);
        let mastery = q.update_with_draw((current.clone(), d), &r, 0);
        assert_eq!(mastery, None);
        let next = q.epsilon_greedy_action(&(current.clone(), d), mastery, 0, 0);
        current = next.0;
    }
    assert_eq!(current.get_difficulty_level(), DifficultyLevel::Grandmaster);
    let very_easy = lesson_at(&lessons, 0);
    let v = q
        .get(&(very_easy, DifficultyLevel::VeryEasy))
        .expect("seeded entry");
    assert!(v > 0);
}

#[test]
fn always_wrong_run_under_mastery_thresholds_sinks_to_very_easy() {
    let lessons = generate_shapes_lessons();
    let mut q = seeded_table(&lessons, Strategy::MasteryThresholds);
    let mut current = lesson_at(&lessons, 2);
    for _ in 0..10 {
        let d = current.get_difficulty_level();
        let r = always_wrong_result(d, current.get_questions().len() as i32);
        let mastery = q.update_with_draw((current.clone(), d), &r, 0);
        assert_eq!(mastery, Some(Mastery::NoMastery));
        let next = q.epsilon_greedy_action(&(current.clone(), d), mastery, 0, 0);
        current = next.0;
    }
    assert_eq!(current.get_difficulty_level(), DifficultyLevel::VeryEasy);
}

#[test]
fn exploration_reinforces_the_weakest_attempted_level() {
    // Hard sits at 0.2 and Medium at 0.9; only Hard has been attempted.
    // An exploring draw under the decaying strategy picks Hard, not the
    // level above Medium.
    let lessons = generate_shapes_lessons();
    let mut q = seeded_table(&lessons, Strategy::DecayingQValues);
    q.insert(
        (lesson_at(&lessons, 3), DifficultyLevel::Hard),
        200000,
    );
    q.insert(
        (lesson_at(&lessons, 2), DifficultyLevel::Medium),
        900000,
    );
    q.mark_attempted(&DifficultyLevel::Hard);
    let pair = q.epsilon_greedy_action(
        &(lesson_at(&lessons, 2), DifficultyLevel::Medium),
        Some(Mastery::Basic),
        0,
        0,
    );
    assert_eq!(pair.1, DifficultyLevel::Hard);
}

#[test]
fn decay_fires_after_the_threshold_of_neglect() {
    // VeryEasy starts at 0.8 and has been attempted; 2001 updates that
    // never touch it push its non-attempt count past the threshold of
    // 2000, so one decay event halves it (the initial counter is 2) and
    // uses that event up.
    let lessons = generate_shapes_lessons();
    let mut q = seeded_table(&lessons, Strategy::DecayingQValues);
    q.insert(
        (lesson_at(&lessons, 0), DifficultyLevel::VeryEasy),
        800000,
    );
    q.mark_attempted(&DifficultyLevel::VeryEasy);
    let medium = lesson_at(&lessons, 2);
    for _ in 0..2001 {
        let r = perfect_result(DifficultyLevel::Medium, 6);
        q.update_with_draw((medium.clone(), DifficultyLevel::Medium), &r, 0);
    }
    let v = q
        .get(&(lesson_at(&lessons, 0), DifficultyLevel::VeryEasy))
        .expect("seeded entry");
    assert_eq!(v, 400000);
    assert_eq!(q.decay_counters[0], 1);
}

#[test]
fn decay_never_touches_an_unattempted_level() {
    let lessons = generate_shapes_lessons();
    let mut q = seeded_table(&lessons, Strategy::DecayingQValues);
    q.insert(
        (lesson_at(&lessons, 0), DifficultyLevel::VeryEasy),
        800000,
    );
    let medium = lesson_at(&lessons, 2);
    for _ in 0..2001 {
        let r = perfect_result(DifficultyLevel::Medium, 6);
        q.update_with_draw((medium.clone(), DifficultyLevel::Medium), &r, 0);
    }
    let v = q
        .get(&(lesson_at(&lessons, 0), DifficultyLevel::VeryEasy))
        .expect("seeded entry");
    assert_eq!(v, 800000);
    assert_eq!(q.decay_counters[0], 2);
}

#[test]
fn q_values_stay_within_the_unit_range_on_ordinary_runs() {
    let lessons = generate_shapes_lessons();
    let mut q = seeded_table(&lessons, Strategy::MasteryThresholds);
    for k in 0..8 {
        let lesson = lesson_at(&lessons, k);
        let d = DifficultyLevel::from_index(k);
        for _ in 0..5 {
            let r = perfect_result(d, 4);
            q.update_with_draw((lesson.clone(), d), &r, 0);
        }
    }
    for (_, _, v) in q.get_lesson_difficulty_pairs() {
        assert!(-UNIT <= v && v <= UNIT);
    }
}

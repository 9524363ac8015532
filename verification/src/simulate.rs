//! The simulation harness: a stochastic lesson-attempt simulator in place
//! of a real learner, and the driver that runs learners through many
//! iterations, feeding each outcome into the Q-table and recording
//! per-iteration snapshots.

use vstd::prelude::*;
use vstd::string::StringExecFns;

use crate::content::{DifficultyLevel, Lesson, LessonPlan, LessonResult, QuestionAttempt};
use crate::engine::{
    band_lower_spec, decay_entries_spec, entry_matches, has_at, has_key, lemma_has_at_iff, lookup,
    mastery_spec, table_after_insert, time_band, update_relation, Mastery, QTableAlgorithm,
    Strategy,
};
use crate::fixed::{tdiv, tdiv_i64, lemma_tdiv_bounds, UNIT};
use crate::learner::{ASDTraits, Learner};
use crate::rng::next_unit;
use crate::simulated_content_shapes::lesson_catalog_wf;
use crate::simulated_learners::{
    generate_simulated_learners_with_q_tables, lesson_ok, table_lessons_ok,
};
use crate::snapshot::{IterationSnapshot, LearnerSnapshot, SimulationResults};

verus! {

/// The base probability, in micro-units, of answering a question at each
/// difficulty correctly on one try.
pub open spec fn base_correctness_spec(d: DifficultyLevel) -> int {
    match d {
        DifficultyLevel::VeryEasy => 950000,
        DifficultyLevel::Easy => 850000,
        DifficultyLevel::Medium => 700000,
        DifficultyLevel::Hard => 600000,
        DifficultyLevel::VeryHard => 550000,
        DifficultyLevel::Expert => 500000,
        DifficultyLevel::Master => 450000,
        DifficultyLevel::Grandmaster => 400000,
    }
}

/// The base probability of answering a question at each difficulty
/// correctly on one try, in micro-units.
pub fn base_correctness(d: DifficultyLevel) -> (r: i64)
    ensures
        r == base_correctness_spec(d),
        400000 <= r <= 950000,
{
    match d {
        DifficultyLevel::VeryEasy => 950000,
        DifficultyLevel::Easy => 850000,
        DifficultyLevel::Medium => 700000,
        DifficultyLevel::Hard => 600000,
        DifficultyLevel::VeryHard => 550000,
        DifficultyLevel::Expert => 500000,
        DifficultyLevel::Master => 450000,
        DifficultyLevel::Grandmaster => 400000,
    }
}

/// The per-question correctness probability, in micro-units. Under the
/// trait-sensitive strategy the base is scaled by the trait alignment
/// plus a practice boost of `min(consecutive / 5000 * 20, 1)`, so
/// persistent practice can partly overcome poor trait fit. Prior progress
/// at the state (a positive Q-value) adds a tenth of itself, and the
/// result never falls under five percent.
pub open spec fn correctness_factor_spec(
    trait_sensitive: bool,
    base: int,
    alignment: int,
    consecutive: int,
    current_q: int,
) -> int {
    let boost = if consecutive >= 250 {
        UNIT as int
    } else {
        consecutive * 4000
    };
    let aligned = if trait_sensitive {
        tdiv(base * (alignment + boost), UNIT as int)
    } else {
        base
    };
    let with_q = if current_q > 0 {
        aligned + tdiv(current_q, 10)
    } else {
        aligned
    };
    if with_q < 50000 {
        50000
    } else {
        with_q
    }
}

/// The per-question correctness probability, in micro-units.
pub fn correctness_factor(
    trait_sensitive: bool,
    base: i64,
    alignment: i64,
    consecutive: i64,
    current_q: i64,
) -> (r: i64)
    requires
        0 <= base <= UNIT,
        0 <= alignment <= UNIT,
        0 <= consecutive,
        -2 * UNIT <= current_q <= UNIT,
    ensures
        r == correctness_factor_spec(
            trait_sensitive,
            base as int,
            alignment as int,
            consecutive as int,
            current_q as int,
        ),
        50000 <= r <= 3 * UNIT,
{
    let boost: i64 = if consecutive >= 250 {
        UNIT
    } else {
        consecutive * 4000
    };
    let aligned: i64 = if trait_sensitive {
        proof {
            vstd::arithmetic::mul::lemma_mul_nonnegative(
                base as int,
                alignment as int + boost as int,
            );
            vstd::arithmetic::mul::lemma_mul_upper_bound(
                base as int,
                UNIT as int,
                alignment as int + boost as int,
                2 * UNIT as int,
            );
        }
        tdiv_i64(base * (alignment + boost), UNIT)
    } else {
        base
    };
    proof {
        if trait_sensitive {
            lemma_tdiv_bounds(base as int * (alignment as int + boost as int), UNIT as int);
            vstd::arithmetic::div_mod::lemma_div_is_ordered(
                base as int * (alignment as int + boost as int),
                UNIT as int * (2 * UNIT as int),
                UNIT as int,
            );
            vstd::arithmetic::div_mod::lemma_div_multiples_vanish(2 * UNIT as int, UNIT as int);
        }
    }
    let with_q: i64 = if current_q > 0 {
        aligned + tdiv_i64(current_q, 10)
    } else {
        aligned
    };
    if with_q < 50000 {
        50000
    } else {
        with_q
    }
}

/// The effective attempt time for a trait-sensitive run: a lesson that
/// outlasts the learner's attention span (minutes, compared in seconds)
/// grows by 1.2 times the excess.
pub open spec fn trait_adjusted_time_spec(generated: int, attention_minutes: int) -> int {
    let att_secs = attention_minutes * 60;
    if generated > att_secs {
        generated + tdiv(12 * (generated - att_secs), 10)
    } else {
        generated
    }
}

/// The effective attempt time for a trait-sensitive run, in seconds.
pub fn trait_adjusted_time(generated: i64, attention_minutes: i32) -> (r: i64)
    requires
        0 <= generated <= 1000,
        0 <= attention_minutes,
    ensures
        r == trait_adjusted_time_spec(generated as int, attention_minutes as int),
        generated <= r <= 3 * generated,
{
    let att_secs: i64 = (attention_minutes as i64) * 60;
    if generated > att_secs {
        proof {
            lemma_tdiv_bounds(12 * (generated as int - att_secs as int), 10);
        }
        let extra = tdiv_i64(12 * (generated - att_secs), 10);
        proof {
            vstd::arithmetic::div_mod::lemma_div_is_ordered(
                12 * (generated as int - att_secs as int),
                20 * generated as int,
                10,
            );
            vstd::arithmetic::div_mod::lemma_div_multiples_vanish(2 * generated as int, 10);
        }
        generated + extra
    } else {
        generated
    }
}

/// Simulate one learner's attempt at a lesson: a per-question geometric
/// draw under the correctness probability, and a time sample from the
/// difficulty's band (stretched past the learner's attention span under
/// the trait-sensitive strategy). Each question records how many tries it
/// took — the draw loop is capped at a million tries so the recorded
/// counters stay exact. A question without a usable target trait profile
/// counts as fully aligned, so under the trait-sensitive strategy only
/// the practice boost then scales the base probability.
pub fn simulate_lesson_attempt(
    current_lesson: &Lesson,
    current_learner_q_table: &QTableAlgorithm,
    learner_asd_traits: &ASDTraits,
    rng: &mut rand::rngs::StdRng,
) -> (r: LessonResult)
    requires
        current_learner_q_table.wf(),
        lesson_ok(*current_lesson),
        learner_asd_traits.wf(),
    ensures
        r.wf(),
        r.difficulty_level == current_lesson.difficulty_level,
        r.total_questions as int == current_lesson.questions@.len() as int,
        r.attempted_questions@.len() == current_lesson.questions@.len(),
        r.time_taken >= band_lower_spec(current_lesson.difficulty_level),
        forall|j: int|
            0 <= j < r.attempted_questions@.len() ==> {
                &&& (#[trigger] r.attempted_questions@[j]).total_attempts >= 1
                &&& r.attempted_questions@[j].incorrect_attempts
                    == r.attempted_questions@[j].total_attempts - 1
                &&& r.attempted_questions@[j].hints_requested is None
            },
{
    let difficulty = current_lesson.get_difficulty_level();
    let (lo, hi) = time_band(difficulty);

    // A time sample from the difficulty's band.
    let draw = next_unit(rng);
    proof {
        vstd::arithmetic::mul::lemma_mul_nonnegative(draw as int, hi as int - lo as int);
        vstd::arithmetic::mul::lemma_mul_upper_bound(
            draw as int,
            UNIT as int,
            hi as int - lo as int,
            hi as int - lo as int,
        );
        vstd::arithmetic::div_mod::lemma_div_pos_is_pos(
            draw as int * (hi as int - lo as int),
            UNIT as int,
        );
        vstd::arithmetic::div_mod::lemma_div_is_ordered(
            draw as int * (hi as int - lo as int),
            UNIT as int * (hi as int - lo as int),
            UNIT as int,
        );
        vstd::arithmetic::div_mod::lemma_div_multiples_vanish(hi as int - lo as int, UNIT as int);
    }
    let generated: i64 = lo + draw * (hi - lo) / UNIT;

    let trait_sensitive = match current_learner_q_table.get_strategy() {
        Strategy::TraitSensitivity => true,
        _ => false,
    };

    // Attention-span stretch, under the trait-sensitive strategy.
    let attention = *learner_asd_traits.get_attention_span();
    let total_time: i64 = if trait_sensitive {
        trait_adjusted_time(generated, attention)
    } else {
        generated
    };

    // The per-question correctness probability.
    let base = base_correctness(difficulty);
    let mut alignment: i64 = UNIT;
    let mut consecutive: i64 = 0;
    if trait_sensitive {
        let q0 = &current_lesson.get_questions()[0];
        match q0.get_asd_traits_parameters() {
            Some(target) => {
                let usable = *target.get_attention_span() > 0
                    && target.get_communicability().len() >= 1
                    && target.get_communicability().len() <= 2 && (
                target.get_communicability().len() < 2 || target.get_communicability()[0]
                    != target.get_communicability()[1]);
                if usable {
                    alignment = learner_asd_traits.calculate_alignment(target);
                }
            },
            None => {},
        }
        consecutive = current_learner_q_table.get_consecutive_attempts_for_difficulty(&difficulty);
    }
    let current_q: i64 = match current_learner_q_table.get(
        &(current_lesson.clone(), difficulty),
    ) {
        Some(v) => v,
        None => 0,
    };
    proof {
        if has_key(current_learner_q_table.entries@, current_lesson.id@, difficulty) {
            let w = choose|i: int|
                0 <= i < current_learner_q_table.entries@.len() && entry_matches(
                    current_learner_q_table.entries@[i],
                    current_lesson.id@,
                    difficulty,
                );
            assert(-2 * UNIT <= current_learner_q_table.entries@[w].value <= UNIT);
        }
    }
    let factor = correctness_factor(trait_sensitive, base, alignment, consecutive, current_q);

    // Per-question attempts: draw until a try lands under the probability.
    let nq = current_lesson.get_questions().len();
    let per_question_time: i64 = total_time / (nq as i64);
    proof {
        vstd::arithmetic::div_mod::lemma_div_pos_is_pos(total_time as int, nq as int);
        vstd::arithmetic::div_mod::lemma_div_nonincreasing(total_time as int, nq as int);
    }

    let mut question_attempts: Vec<QuestionAttempt> = Vec::new();
    let mut qi: usize = 0;
    while qi < nq
        invariant
            nq == current_lesson.questions@.len(),
            1 <= nq <= 100000,
            qi <= nq,
            question_attempts@.len() == qi,
            0 <= per_question_time <= 3000,
            forall|j: int|
                0 <= j < qi ==> {
                    &&& (#[trigger] question_attempts@[j]).wf()
                    &&& question_attempts@[j].total_attempts >= 1
                    &&& question_attempts@[j].incorrect_attempts == question_attempts@[
                        j
                    ].total_attempts - 1
                    &&& question_attempts@[j].hints_requested is None
                },
        decreases nq - qi,
    {
        let mut attempts: i64 = 0;
        let mut is_correct = false;
        while !is_correct && attempts < 1000000
            invariant
                0 <= attempts <= 1000000,
                is_correct ==> attempts >= 1,
            decreases 1000000 - attempts,
        {
            let rand_value = next_unit(rng);
            if rand_value < factor {
                is_correct = true;
            }
            attempts = attempts + 1;
        }
        let question = &current_lesson.get_questions()[qi];
        let qa = QuestionAttempt::new(
            String::from_str(question.get_id().as_str()),
            per_question_time as i32,
            attempts as i32,
            (attempts - 1) as i32,
        );
        question_attempts.push(qa);
        qi += 1;
    }

    LessonResult::new(difficulty, total_time as i32, nq as i32, question_attempts)
}

/// An update keeps the driver's working facts: a complete table stays
/// complete, and a table whose lessons the simulator can attempt keeps
/// only such lessons, as long as the lesson fed in can be attempted too.
pub proof fn lemma_update_keeps_catalog(
    og: QTableAlgorithm,
    fin: QTableAlgorithm,
    lesson: Lesson,
    d: DifficultyLevel,
    result: LessonResult,
    r: Option<Mastery>,
    draw: int,
)
    requires
        update_relation(og, fin, lesson, d, result, r, draw),
        og.complete(),
        table_lessons_ok(og),
        lesson_ok(lesson),
    ensures
        fin.complete(),
        table_lessons_ok(fin),
{
    let di = d.spec_index();
    let reward = crate::engine::clamped_reward_spec(result, d);
    let mastery = mastery_spec(og.strategy, reward);
    let r_adj = crate::engine::adjusted_reward_spec(og.strategy, reward);
    let nk = og.next_index_spec(d, mastery, draw);
    let nm = crate::engine::max_q_at(og.entries@, DifficultyLevel::spec_from_index(nk));
    let old_v = if has_key(og.entries@, lesson.id@, d) {
        lookup(og.entries@, lesson.id@, d)
    } else {
        0
    };
    let new_v = crate::engine::q_update_spec(old_v, r_adj, nm);
    let has2 = og.has_attempted_difficulty@.update(di, true);
    let na2 = crate::engine::non_attempts_after_update(
        og.total_difficulty_non_attempts@,
        has2,
        di,
    );
    let entries2 = table_after_insert(og.entries@, lesson, d, new_v);

    assert forall|i: int| 0 <= i < entries2.len() implies lesson_ok((#[trigger] entries2[i]).lesson)
        && (i < og.entries@.len() ==> entries2[i].difficulty == og.entries@[i].difficulty) by {
        if has_key(og.entries@, lesson.id@, d) {
        } else {
            if i < og.entries@.len() {
                assert(entries2[i] == og.entries@[i]);
            } else {
                assert(entries2[i].lesson == lesson);
            }
        }
    }

    assert forall|i: int| 0 <= i < fin.entries@.len() implies lesson_ok(
        (#[trigger] fin.entries@[i]).lesson,
    ) && fin.entries@[i].difficulty == entries2[i].difficulty by {
        if og.strategy == Strategy::DecayingQValues || og.strategy == Strategy::TraitSensitivity {
            assert(fin.entries@ == decay_entries_spec(entries2, na2, og.decay_counters@));
            assert(fin.entries@[i].lesson == entries2[i].lesson);
        } else {
            assert(fin.entries@[i] == entries2[i]);
        }
    }

    assert forall|dd: DifficultyLevel| has_at(fin.entries@, dd) by {
        assert(has_at(og.entries@, dd));
        lemma_has_at_iff(og.entries@, dd, og.entries@.len() as int);
        let k = choose|k: int| 0 <= k < og.entries@.len() && og.entries@[k].difficulty == dd;
        assert(entries2[k].difficulty == dd);
        assert(fin.entries@[k].difficulty == dd);
        lemma_has_at_iff(fin.entries@, dd, fin.entries@.len() as int);
    }
}

/// The driver's working facts about one learner and their Q-table.
pub open spec fn pair_ok(p: (Learner, QTableAlgorithm)) -> bool {
    &&& p.1.wf()
    &&& p.1.complete()
    &&& table_lessons_ok(p.1)
    &&& p.0.has_current_lesson()
    &&& lesson_ok(p.0.current_lesson_spec())
    &&& p.0.asd_traits.wf()
}

/// One learner's snapshot row: the Q-value of each difficulty's catalog
/// lesson, read from the table (zero where the pair is absent).
pub fn build_snapshot_row(
    learner_id: &String,
    q_table: &QTableAlgorithm,
    lessons: &Vec<Lesson>,
    difficulty_level: DifficultyLevel,
) -> (r: LearnerSnapshot)
    requires
        q_table.wf(),
        lesson_catalog_wf(lessons@),
    ensures
        r.wf(),
        r.learner_id@ == learner_id@,
        r.difficulty_level == difficulty_level,
        r.values@.len() == 8,
        forall|k: int|
            0 <= k < 8 ==> #[trigger] r.values@[k] as int == (if has_key(
                q_table.entries@,
                lessons@[k].id@,
                DifficultyLevel::spec_from_index(k),
            ) {
                lookup(q_table.entries@, lessons@[k].id@, DifficultyLevel::spec_from_index(k))
            } else {
                0
            }),
{
    let mut values: Vec<i64> = Vec::new();
    let mut k: usize = 0;
    while k < 8
        invariant
            q_table.wf(),
            lesson_catalog_wf(lessons@),
            k <= 8,
            values@.len() == k,
            forall|j: int|
                0 <= j < k ==> #[trigger] values@[j] as int == (if has_key(
                    q_table.entries@,
                    lessons@[j].id@,
                    DifficultyLevel::spec_from_index(j),
                ) {
                    lookup(q_table.entries@, lessons@[j].id@, DifficultyLevel::spec_from_index(j))
                } else {
                    0
                }),
            forall|j: int| 0 <= j < k ==> -2000000 <= #[trigger] values@[j] <= 1000000,
        decreases 8 - k,
    {
        let lesson = lessons[k].clone();
        proof {
            assert(lesson.equiv(lessons@[k as int]));
        }
        let d = DifficultyLevel::from_index(k);
        let v: i64 = match q_table.get(&(lesson, d)) {
            Some(v) => v,
            None => 0,
        };
        proof {
            if has_key(q_table.entries@, lessons@[k as int].id@, d) {
                let w = choose|i: int|
                    0 <= i < q_table.entries@.len() && entry_matches(
                        q_table.entries@[i],
                        lessons@[k as int].id@,
                        d,
                    );
                assert(-2 * UNIT <= q_table.entries@[w].value <= UNIT);
            }
        }
        values.push(v);
        k += 1;
    }
    LearnerSnapshot {
        learner_id: String::from_str(learner_id.as_str()),
        difficulty_level,
        values,
    }
}

/// Run the simulation: for each iteration and each learner, simulate an
/// attempt at the current lesson, feed the outcome into the learner's
/// Q-table, record a snapshot row, and advance the learner to the lesson
/// the policy selects. Records one snapshot per iteration, numbered from
/// one, with one row of eight Q-values per learner, in the order the
/// learners were given.
pub fn run_simulation(
    learners_with_q_tables: Vec<(Learner, QTableAlgorithm)>,
    lessons: &Vec<Lesson>,
    iterations: u32,
    rng: &mut rand::rngs::StdRng,
) -> (r: SimulationResults)
    requires
        lesson_catalog_wf(lessons@),
        forall|l: int|
            0 <= l < learners_with_q_tables@.len() ==> pair_ok(
                #[trigger] learners_with_q_tables@[l],
            ),
    ensures
        r.wf(),
        r.iterations@.len() == iterations,
        forall|it: int|
            0 <= it < iterations ==> (#[trigger] r.iterations@[it]).iteration == it + 1,
        forall|it: int|
            0 <= it < iterations ==> (#[trigger] r.iterations@[it]).values@.len()
                == learners_with_q_tables@.len(),
        forall|it: int, l: int|
            0 <= it < iterations && 0 <= l < learners_with_q_tables@.len() ==> (#[trigger] r
                .iterations@[it].values@[l]).values@.len() == 8,
        forall|it: int, l: int|
            0 <= it < iterations && 0 <= l < learners_with_q_tables@.len() ==> (#[trigger] r
                .iterations@[it].values@[l]).learner_id@ == learners_with_q_tables@[l].0.id@,
        iterations > 0 ==> forall|l: int|
            0 <= l < learners_with_q_tables@.len() ==> (#[trigger] r.iterations@[0].values@[
                l
            ]).difficulty_level == learners_with_q_tables@[l].0.current_lesson_spec().difficulty_level,
{
    let mut pairs = learners_with_q_tables;
    let nl = pairs.len();
    let mut iteration_snapshots: Vec<IterationSnapshot> = Vec::new();
    let mut it: u32 = 0;
    while it < iterations
        invariant
            lesson_catalog_wf(lessons@),
            it <= iterations,
            pairs@.len() == nl,
            nl == learners_with_q_tables@.len(),
            forall|l: int| 0 <= l < nl ==> pair_ok(#[trigger] pairs@[l]),
            forall|l: int|
                0 <= l < nl ==> (#[trigger] pairs@[l]).0.id@ == learners_with_q_tables@[l].0.id@,
            it == 0 ==> pairs@ == learners_with_q_tables@,
            iteration_snapshots@.len() == it,
            forall|i: int|
                0 <= i < it ==> (#[trigger] iteration_snapshots@[i]).iteration == i + 1,
            forall|i: int|
                0 <= i < it ==> (#[trigger] iteration_snapshots@[i]).values@.len() == nl,
            forall|i: int, l: int|
                0 <= i < it && 0 <= l < nl ==> (#[trigger] iteration_snapshots@[i].values@[
                    l
                ]).values@.len() == 8,
            forall|i: int, l: int|
                0 <= i < it && 0 <= l < nl ==> (#[trigger] iteration_snapshots@[i].values@[
                    l
                ]).learner_id@ == learners_with_q_tables@[l].0.id@,
            it > 0 ==> forall|l: int|
                0 <= l < nl ==> (#[trigger] iteration_snapshots@[0].values@[l]).difficulty_level
                    == learners_with_q_tables@[l].0.current_lesson_spec().difficulty_level,
            forall|i: int|
                0 <= i < it ==> (#[trigger] iteration_snapshots@[i]).wf(),
        decreases iterations - it,
    {
        let mut values: Vec<LearnerSnapshot> = Vec::new();
        let mut l: usize = 0;
        while l < nl
            invariant
                lesson_catalog_wf(lessons@),
                nl == pairs@.len(),
                nl == learners_with_q_tables@.len(),
                l <= nl,
                forall|i: int| 0 <= i < nl ==> pair_ok(#[trigger] pairs@[i]),
                forall|i: int|
                    0 <= i < nl ==> (#[trigger] pairs@[i]).0.id@ == learners_with_q_tables@[
                        i
                    ].0.id@,
                it == 0 ==> forall|i: int|
                    l <= i < nl ==> #[trigger] pairs@[i] == learners_with_q_tables@[i],
                values@.len() == l,
                forall|i: int| 0 <= i < l ==> (#[trigger] values@[i]).values@.len() == 8,
                forall|i: int| 0 <= i < l ==> (#[trigger] values@[i]).wf(),
                forall|i: int|
                    0 <= i < l ==> (#[trigger] values@[i]).learner_id@ == learners_with_q_tables@[
                        i
                    ].0.id@,
                it == 0 ==> forall|i: int|
                    0 <= i < l ==> (#[trigger] values@[i]).difficulty_level
                        == learners_with_q_tables@[i].0.current_lesson_spec().difficulty_level,
            decreases nl - l,
        {
            let current_lesson = pairs[l].0.get_current_lesson().clone();
            proof {
                assert(current_lesson.equiv(pairs@[l as int].0.current_lesson_spec()));
            }
            let difficulty = current_lesson.get_difficulty_level();

            let lesson_result = simulate_lesson_attempt(
                &current_lesson,
                &pairs[l].1,
                &pairs[l].0.asd_traits,
                rng,
            );

            let state = (current_lesson.clone(), difficulty);
            let ghost state_lesson = state.0;
            let pair = &mut pairs[l];
            let ghost og_q = pair.1;
            let mastery_level = pair.1.update(state, &lesson_result, rng);
            proof {
                let draw = choose|draw: int|
                    0 <= draw < UNIT as int && update_relation(
                        og_q,
                        pair.1,
                        state_lesson,
                        difficulty,
                        lesson_result,
                        mastery_level,
                        draw,
                    );
                lemma_update_keeps_catalog(
                    og_q,
                    pair.1,
                    state_lesson,
                    difficulty,
                    lesson_result,
                    mastery_level,
                    draw,
                );
            }

            let row = build_snapshot_row(pair.0.get_id(), &pair.1, lessons, difficulty);

            let next_lesson = choose_lesson_based_on_q_table(
                &pair.1,
                &current_lesson,
                mastery_level,
                rng,
            );
            proof {
                let j = choose|j: int|
                    0 <= j < pair.1.entries@.len() && pair.1.entries@[j].lesson.id@
                        == next_lesson.id@ && next_lesson.equiv(pair.1.entries@[j].lesson);
                assert(lesson_ok(pair.1.entries@[j].lesson));
            }
            pair.0.set_current_lesson(next_lesson);

            values.push(row);
            l += 1;
        }
        iteration_snapshots.push(IterationSnapshot { iteration: it + 1, values });
        it += 1;
    }
    SimulationResults { iterations: iteration_snapshots }
}

/// Decide the learner's next lesson from the Q-table, the current lesson
/// and the mastery grade of the last attempt.
pub fn choose_lesson_based_on_q_table(
    q_table: &QTableAlgorithm,
    current_lesson: &Lesson,
    mastery_level: Option<Mastery>,
    rng: &mut rand::rngs::StdRng,
) -> (r: Lesson)
    requires
        q_table.wf(),
        q_table.complete(),
        q_table.strategy == Strategy::BaseQLearning || mastery_level is Some,
    ensures
        exists|j: int|
            0 <= j < q_table.entries@.len() && (#[trigger] q_table.entries@[j]).lesson.id@ == r.id@
                && r.equiv(q_table.entries@[j].lesson),
{
    let state = (current_lesson.clone(), current_lesson.get_difficulty_level());
    let pair = q_table.select_action(&state, mastery_level, rng);
    proof {
        let (de, dn) = choose|de: int, dn: int|
            0 <= de < UNIT as int && 0 <= dn < UNIT as int && crate::engine::selection_relation(
                *q_table,
                state.1,
                mastery_level,
                pair,
                de,
                dn,
            );
    }
    pair.0
}

/// Seed every learner's history with a first plan holding the catalog's
/// lowest-difficulty lesson.
fn seed_first_lessons(pairs: &mut Vec<(Learner, QTableAlgorithm)>, lessons: &Vec<Lesson>)
    requires
        lesson_catalog_wf(lessons@),
        forall|l: int|
            0 <= l < old(pairs)@.len() ==> {
                &&& (#[trigger] old(pairs)@[l]).1.wf()
                &&& old(pairs)@[l].1.complete()
                &&& table_lessons_ok(old(pairs)@[l].1)
                &&& old(pairs)@[l].0.asd_traits.wf()
            },
    ensures
        final(pairs)@.len() == old(pairs)@.len(),
        forall|l: int| 0 <= l < final(pairs)@.len() ==> pair_ok(#[trigger] final(pairs)@[l]),
        forall|l: int|
            0 <= l < final(pairs)@.len() ==> {
                &&& (#[trigger] final(pairs)@[l]).1 == old(pairs)@[l].1
                &&& final(pairs)@[l].0.id@ == old(pairs)@[l].0.id@
                &&& final(pairs)@[l].0.name@ == old(pairs)@[l].0.name@
                &&& final(pairs)@[l].0.age == old(pairs)@[l].0.age
                &&& final(pairs)@[l].0.asd_traits == old(pairs)@[l].0.asd_traits
                &&& final(pairs)@[l].0.current_lesson_spec().difficulty_level
                    == lessons@[0].difficulty_level
            },
{
    let n = pairs.len();
    let mut l: usize = 0;
    while l < n
        invariant
            lesson_catalog_wf(lessons@),
            n == pairs@.len(),
            n == old(pairs)@.len(),
            l <= n,
            forall|i: int| l <= i < n ==> #[trigger] pairs@[i] == old(pairs)@[i],
            forall|i: int|
                l <= i < n ==> {
                    &&& (#[trigger] pairs@[i]).1.wf()
                    &&& pairs@[i].1.complete()
                    &&& table_lessons_ok(pairs@[i].1)
                    &&& pairs@[i].0.asd_traits.wf()
                },
            forall|i: int| 0 <= i < l ==> pair_ok(#[trigger] pairs@[i]),
            forall|i: int|
                0 <= i < l ==> {
                    &&& (#[trigger] pairs@[i]).1 == old(pairs)@[i].1
                    &&& pairs@[i].0.id@ == old(pairs)@[i].0.id@
                    &&& pairs@[i].0.name@ == old(pairs)@[i].0.name@
                    &&& pairs@[i].0.age == old(pairs)@[i].0.age
                    &&& pairs@[i].0.asd_traits == old(pairs)@[i].0.asd_traits
                    &&& pairs@[i].0.current_lesson_spec().difficulty_level
                        == lessons@[0].difficulty_level
                },
        decreases n - l,
    {
        let first = lessons[0].clone();
        proof {
            assert(first.equiv(lessons@[0]));
        }
        let mut lesson_plan = LessonPlan::new(String::from_str("Lesson 1"));
        lesson_plan.add_lesson(first);
        let pair = &mut pairs[l];
        pair.0.add_lesson_plan(lesson_plan);
        proof {
            assert(pair.0.lesson_plans@.last().lessons@[0] == first);
        }
        l += 1;
    }
}

/// Plain Q-learning on the "Shapes" module: every update advances one
/// difficulty level, with no mastery gating.
pub fn run_simulation_strategy_1(iterations: Option<u32>, seed: u64) -> (r: SimulationResults)
    ensures
        r.wf(),
        r.iterations@.len() as int == (match iterations {
            Some(n) => n as int,
            None => 5000,
        }),
        forall|it: int|
            0 <= it < r.iterations@.len() ==> (#[trigger] r.iterations@[it]).iteration == it + 1,
        forall|it: int|
            0 <= it < r.iterations@.len() ==> (#[trigger] r.iterations@[it]).values@.len() == 6,
        forall|it: int, l: int|
            0 <= it < r.iterations@.len() && 0 <= l < 6 ==> (#[trigger] r.iterations@[it].values@[
                l
            ]).values@.len() == 8,
        forall|it: int, l: int|
            0 <= it < r.iterations@.len() && 0 <= l < 6 ==> (#[trigger] r.iterations@[it].values@[
                l
            ]).learner_id@ == crate::simulated_learners::simulated_learner_name(l),
        r.iterations@.len() > 0 ==> forall|l: int|
            0 <= l < 6 ==> (#[trigger] r.iterations@[0].values@[l]).difficulty_level
                == DifficultyLevel::VeryEasy,
{
    let lessons = crate::simulated_content_shapes::generate_shapes_lessons();
    let mut pairs = generate_simulated_learners_with_q_tables(&lessons, Strategy::BaseQLearning);
    seed_first_lessons(&mut pairs, &lessons);
    let num_iterations = match iterations {
        Some(n) => n,
        None => 5000,
    };
    let mut rng = crate::rng::rng_from_seed(seed);
    run_simulation(pairs, &lessons, num_iterations, &mut rng)
}

/// Q-learning with mastery thresholds on the "Shapes" module.
pub fn run_simulation_strategy_2(iterations: Option<u32>, seed: u64) -> (r: SimulationResults)
    ensures
        r.wf(),
        r.iterations@.len() as int == (match iterations {
            Some(n) => n as int,
            None => 5000,
        }),
        forall|it: int|
            0 <= it < r.iterations@.len() ==> (#[trigger] r.iterations@[it]).iteration == it + 1,
        forall|it: int|
            0 <= it < r.iterations@.len() ==> (#[trigger] r.iterations@[it]).values@.len() == 6,
        forall|it: int, l: int|
            0 <= it < r.iterations@.len() && 0 <= l < 6 ==> (#[trigger] r.iterations@[it].values@[
                l
            ]).values@.len() == 8,
        forall|it: int, l: int|
            0 <= it < r.iterations@.len() && 0 <= l < 6 ==> (#[trigger] r.iterations@[it].values@[
                l
            ]).learner_id@ == crate::simulated_learners::simulated_learner_name(l),
        r.iterations@.len() > 0 ==> forall|l: int|
            0 <= l < 6 ==> (#[trigger] r.iterations@[0].values@[l]).difficulty_level
                == DifficultyLevel::VeryEasy,
{
    let lessons = crate::simulated_content_shapes::generate_shapes_lessons();
    let mut pairs = generate_simulated_learners_with_q_tables(&lessons, Strategy::MasteryThresholds);
    seed_first_lessons(&mut pairs, &lessons);
    let num_iterations = match iterations {
        Some(n) => n,
        None => 5000,
    };
    let mut rng = crate::rng::rng_from_seed(seed);
    run_simulation(pairs, &lessons, num_iterations, &mut rng)
}

/// Q-learning with mastery thresholds and decaying Q-values on the
/// "Actions" module.
pub fn run_simulation_strategy_3(iterations: Option<u32>, seed: u64) -> (r: SimulationResults)
    ensures
        r.wf(),
        r.iterations@.len() as int == (match iterations {
            Some(n) => n as int,
            None => 5000,
        }),
        forall|it: int|
            0 <= it < r.iterations@.len() ==> (#[trigger] r.iterations@[it]).iteration == it + 1,
        forall|it: int|
            0 <= it < r.iterations@.len() ==> (#[trigger] r.iterations@[it]).values@.len() == 6,
        forall|it: int, l: int|
            0 <= it < r.iterations@.len() && 0 <= l < 6 ==> (#[trigger] r.iterations@[it].values@[
                l
            ]).values@.len() == 8,
        forall|it: int, l: int|
            0 <= it < r.iterations@.len() && 0 <= l < 6 ==> (#[trigger] r.iterations@[it].values@[
                l
            ]).learner_id@ == crate::simulated_learners::simulated_learner_name(l),
        r.iterations@.len() > 0 ==> forall|l: int|
            0 <= l < 6 ==> (#[trigger] r.iterations@[0].values@[l]).difficulty_level
                == DifficultyLevel::VeryEasy,
{
    let lessons = crate::simulated_content_actions::generate_actions_lessons();
    let mut pairs = generate_simulated_learners_with_q_tables(&lessons, Strategy::DecayingQValues);
    seed_first_lessons(&mut pairs, &lessons);
    let num_iterations = match iterations {
        Some(n) => n,
        None => 5000,
    };
    let mut rng = crate::rng::rng_from_seed(seed);
    run_simulation(pairs, &lessons, num_iterations, &mut rng)
}

/// Q-learning with mastery thresholds, decaying Q-values and trait
/// sensitivity on the "Actions" module.
pub fn run_simulation_strategy_4(iterations: Option<u32>, seed: u64) -> (r: SimulationResults)
    ensures
        r.wf(),
        r.iterations@.len() as int == (match iterations {
            Some(n) => n as int,
            None => 5000,
        }),
        forall|it: int|
            0 <= it < r.iterations@.len() ==> (#[trigger] r.iterations@[it]).iteration == it + 1,
        forall|it: int|
            0 <= it < r.iterations@.len() ==> (#[trigger] r.iterations@[it]).values@.len() == 6,
        forall|it: int, l: int|
            0 <= it < r.iterations@.len() && 0 <= l < 6 ==> (#[trigger] r.iterations@[it].values@[
                l
            ]).values@.len() == 8,
        forall|it: int, l: int|
            0 <= it < r.iterations@.len() && 0 <= l < 6 ==> (#[trigger] r.iterations@[it].values@[
                l
            ]).learner_id@ == crate::simulated_learners::simulated_learner_name(l),
        r.iterations@.len() > 0 ==> forall|l: int|
            0 <= l < 6 ==> (#[trigger] r.iterations@[0].values@[l]).difficulty_level
                == DifficultyLevel::VeryEasy,
{
    let lessons = crate::simulated_content_actions::generate_actions_lessons();
    let mut pairs = generate_simulated_learners_with_q_tables(&lessons, Strategy::TraitSensitivity);
    seed_first_lessons(&mut pairs, &lessons);
    let num_iterations = match iterations {
        Some(n) => n,
        None => 5000,
    };
    let mut rng = crate::rng::rng_from_seed(seed);
    run_simulation(pairs, &lessons, num_iterations, &mut rng)
}

} // verus!

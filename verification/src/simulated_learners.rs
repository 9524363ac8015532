//! The six simulated learners the harness drives, each with a freshly
//! seeded Q-table.

use vstd::prelude::*;
use vstd::string::StringExecFns;

use crate::content::{DifficultyLevel, Lesson};
use crate::engine::{has_at, lemma_has_at_iff, QEntry, QTableAlgorithm, Strategy};
use crate::learner::{ASDTraits, Communicability, CommunicationLevel, Learner, MotorSkills};
use crate::simulated_content_shapes::lesson_catalog_wf;

verus! {

/// The exploration rate every simulated learner runs with: 0.3.
pub const SIMULATED_EPSILON: i64 = 300000;

/// A lesson a Q-table can hold: at least one question and few enough for
/// the attempt simulator's counters to stay exact.
pub open spec fn lesson_ok(l: Lesson) -> bool {
    1 <= l.questions@.len() <= 100000
}

/// Every lesson stored in the table is one the simulator can attempt.
pub open spec fn table_lessons_ok(q: QTableAlgorithm) -> bool {
    forall|i: int| 0 <= i < q.entries@.len() ==> lesson_ok((#[trigger] q.entries@[i]).lesson)
}

/// A Q-table seeded for the given catalog: one zero-valued entry per
/// (lesson, lesson difficulty) pair.
pub fn seeded_table(lessons: &Vec<Lesson>, strategy: Strategy) -> (q: QTableAlgorithm)
    requires
        lesson_catalog_wf(lessons@),
    ensures
        q.wf(),
        q.complete(),
        table_lessons_ok(q),
        q.strategy == strategy,
        q.epsilon == SIMULATED_EPSILON,
        q.entries@.len() == 8,
        forall|k: int|
            0 <= k < 8 ==> {
                &&& (#[trigger] q.entries@[k]).difficulty == DifficultyLevel::spec_from_index(k)
                &&& q.entries@[k].value == 0
                &&& q.entries@[k].lesson.id@ == lessons@[k].id@
            },
        forall|k: int| 0 <= k < 8 ==> !(#[trigger] q.has_attempted_difficulty@[k]),
        crate::engine::values_within_unit(q.entries@),
    {
    let mut entries: Vec<QEntry> = Vec::new();
    let mut k: usize = 0;
    while k < 8
        invariant
            lesson_catalog_wf(lessons@),
            k <= 8,
            entries@.len() == k,
            forall|j: int|
                0 <= j < k ==> {
                    &&& (#[trigger] entries@[j]).difficulty == DifficultyLevel::spec_from_index(j)
                    &&& entries@[j].value == 0
                    &&& entries@[j].lesson.id@ == lessons@[j].id@
                    &&& lesson_ok(entries@[j].lesson)
                },
        decreases 8 - k,
    {
        let lesson = lessons[k].clone();
        proof {
            assert(lesson.equiv(lessons@[k as int]));
        }
        let d = lesson.get_difficulty_level();
        entries.push(QEntry { lesson, difficulty: d, value: 0 });
        k += 1;
    }
    proof {
        assert forall|i: int, j: int|
            #![trigger entries@[i], entries@[j]]
            0 <= i < j < entries@.len() implies !(entries@[i].lesson.id@ == entries@[j].lesson.id@
            && entries@[i].difficulty == entries@[j].difficulty) by {
            assert(entries@[i].difficulty == DifficultyLevel::spec_from_index(i));
            assert(entries@[j].difficulty == DifficultyLevel::spec_from_index(j));
        }
    }
    let q = QTableAlgorithm::new(Some(entries), SIMULATED_EPSILON, strategy);
    proof {
        assert forall|d: DifficultyLevel| has_at(q.entries@, d) by {
            let k = d.spec_index();
            assert(q.entries@[k].difficulty == DifficultyLevel::spec_from_index(k));
            assert(DifficultyLevel::spec_from_index(k) == d);
            lemma_has_at_iff(q.entries@, d, q.entries@.len() as int);
        }
    }
    q
}

fn generate_simulated_learner(
    name: &str,
    age: u8,
    asd_traits: ASDTraits,
    q_table: &QTableAlgorithm,
) -> (r: Learner)
    ensures
        r.name@ == name@,
        r.id@ == name@,
        r.age == age,
        r.asd_traits == asd_traits,
        r.lesson_plans@.len() == 0,
{
    let q_table_id = String::from_str(q_table.get_id().as_str());
    let learner_id = String::from_str(name);
    Learner::new(String::from_str(name), age, asd_traits, q_table_id, Some(learner_id))
}

/// The identity (and name) of the `l`-th simulated learner.
pub open spec fn simulated_learner_name(l: int) -> Seq<char> {
    if l == 0 {
        "Learner 1"@
    } else if l == 1 {
        "Learner 2"@
    } else if l == 2 {
        "Learner 3"@
    } else if l == 3 {
        "Learner 4"@
    } else if l == 4 {
        "Learner 5"@
    } else {
        "Learner 6"@
    }
}

/// The trait profile of the `l`-th simulated learner: attention spans of
/// 5, 6, 7, 9, 12 and 15 minutes, non-verbal throughout with the verbal
/// mode added from the fourth learner on, and communication and motor
/// levels climbing alongside.
pub open spec fn simulated_traits_match(l: int, t: ASDTraits) -> bool {
    &&& t.attention_span == (if l == 0 {
        5int
    } else if l == 1 {
        6int
    } else if l == 2 {
        7int
    } else if l == 3 {
        9int
    } else if l == 4 {
        12int
    } else {
        15int
    })
    &&& t.communicability@ == (if l < 3 {
        seq![Communicability::NonVerbal]
    } else {
        seq![Communicability::NonVerbal, Communicability::Verbal]
    })
    &&& t.communication_level == (if l == 0 {
        CommunicationLevel::Low
    } else if l < 4 {
        CommunicationLevel::Medium
    } else {
        CommunicationLevel::High
    })
    &&& t.motor_skills == (if l < 2 {
        MotorSkills::Low
    } else if l == 2 {
        MotorSkills::Medium
    } else if l < 5 {
        MotorSkills::High
    } else {
        MotorSkills::VeryHigh
    })
}

/// The six simulated learners, in order of their identities "Learner 1"
/// through "Learner 6" and ages 7 through 12, each paired with a Q-table
/// freshly seeded for the catalog under the chosen strategy: one
/// zero-valued entry per (lesson, lesson difficulty) pair. Their trait
/// profiles climb from a short attention span with low communication up
/// to a long span with very high motor skills.
pub fn generate_simulated_learners_with_q_tables(lessons: &Vec<Lesson>, strategy: Strategy) -> (r:
    Vec<(Learner, QTableAlgorithm)>)
    requires
        lesson_catalog_wf(lessons@),
    ensures
        r@.len() == 6,
        forall|l: int|
            0 <= l < 6 ==> {
                &&& (#[trigger] r@[l]).1.wf()
                &&& r@[l].1.complete()
                &&& table_lessons_ok(r@[l].1)
                &&& r@[l].1.strategy == strategy
                &&& r@[l].1.epsilon == SIMULATED_EPSILON
                &&& crate::engine::values_within_unit(r@[l].1.entries@)
                &&& r@[l].0.lesson_plans@.len() == 0
                &&& r@[l].0.asd_traits.wf()
                &&& r@[l].0.id@ == simulated_learner_name(l)
                &&& r@[l].0.name@ == simulated_learner_name(l)
                &&& r@[l].0.age == 7 + l
                &&& simulated_traits_match(l, r@[l].0.asd_traits)
                &&& r@[l].1.entries@.len() == 8
            },
        forall|l: int, k: int|
            0 <= l < 6 && 0 <= k < 8 ==> {
                &&& (#[trigger] r@[l].1.entries@[k]).difficulty == DifficultyLevel::spec_from_index(
                    k,
                )
                &&& r@[l].1.entries@[k].value == 0
                &&& r@[l].1.entries@[k].lesson.id@ == lessons@[k].id@
            },
{
    let traits_list: Vec<ASDTraits> = vec![
        ASDTraits::new(
            String::from_str("Learner 1"),
            5,
            vec![Communicability::NonVerbal],
            CommunicationLevel::Low,
            MotorSkills::Low,
        ),
        ASDTraits::new(
            String::from_str("Learner 2"),
            6,
            vec![Communicability::NonVerbal],
            CommunicationLevel::Medium,
            MotorSkills::Low,
        ),
        ASDTraits::new(
            String::from_str("Learner 3"),
            7,
            vec![Communicability::NonVerbal],
            CommunicationLevel::Medium,
            MotorSkills::Medium,
        ),
        ASDTraits::new(
            String::from_str("Learner 4"),
            9,
            vec![Communicability::NonVerbal, Communicability::Verbal],
            CommunicationLevel::Medium,
            MotorSkills::High,
        ),
        ASDTraits::new(
            String::from_str("Learner 5"),
            12,
            vec![Communicability::NonVerbal, Communicability::Verbal],
            CommunicationLevel::High,
            MotorSkills::High,
        ),
        ASDTraits::new(
            String::from_str("Learner 6"),
            15,
            vec![Communicability::NonVerbal, Communicability::Verbal],
            CommunicationLevel::High,
            MotorSkills::VeryHigh,
        ),
    ];
    let names: Vec<&str> = vec![
        "Learner 1",
        "Learner 2",
        "Learner 3",
        "Learner 4",
        "Learner 5",
        "Learner 6",
    ];
    let ages: Vec<u8> = vec![7u8, 8, 9, 10, 11, 12];
    proof {
        assert forall|i: int| 0 <= i < 6 implies simulated_traits_match(
            i,
            #[trigger] traits_list@[i],
        ) by {
            if i < 3 {
                assert(traits_list@[i].communicability@ =~= seq![Communicability::NonVerbal]);
            } else {
                assert(traits_list@[i].communicability@ =~= seq![
                    Communicability::NonVerbal,
                    Communicability::Verbal,
                ]);
            }
        }
        assert forall|i: int| 0 <= i < 6 implies (#[trigger] names@[i])@
            == simulated_learner_name(i) by {
        }
    }

    let mut r: Vec<(Learner, QTableAlgorithm)> = Vec::new();
    let mut l: usize = 0;
    while l < 6
        invariant
            lesson_catalog_wf(lessons@),
            l <= 6,
            r@.len() == l,
            traits_list@.len() == 6,
            names@.len() == 6,
            ages@.len() == 6,
            forall|i: int|
                0 <= i < 6 ==> (#[trigger] traits_list@[i]).wf(),
            forall|i: int|
                0 <= i < 6 ==> simulated_traits_match(i, #[trigger] traits_list@[i]),
            forall|i: int|
                0 <= i < 6 ==> (#[trigger] names@[i])@ == simulated_learner_name(i),
            forall|i: int| 0 <= i < 6 ==> #[trigger] ages@[i] == 7 + i,
            forall|i: int|
                0 <= i < l ==> {
                    &&& (#[trigger] r@[i]).1.wf()
                    &&& r@[i].1.complete()
                    &&& table_lessons_ok(r@[i].1)
                    &&& r@[i].1.strategy == strategy
                    &&& r@[i].1.epsilon == SIMULATED_EPSILON
                    &&& crate::engine::values_within_unit(r@[i].1.entries@)
                    &&& r@[i].0.lesson_plans@.len() == 0
                    &&& r@[i].0.asd_traits.wf()
                    &&& r@[i].0.id@ == simulated_learner_name(i)
                    &&& r@[i].0.name@ == simulated_learner_name(i)
                    &&& r@[i].0.age == 7 + i
                    &&& simulated_traits_match(i, r@[i].0.asd_traits)
                    &&& r@[i].1.entries@.len() == 8
                },
            forall|i: int, k: int|
                0 <= i < l && 0 <= k < 8 ==> {
                    &&& (#[trigger] r@[i].1.entries@[k]).difficulty
                        == DifficultyLevel::spec_from_index(k)
                    &&& r@[i].1.entries@[k].value == 0
                    &&& r@[i].1.entries@[k].lesson.id@ == lessons@[k].id@
                },
        decreases 6 - l,
    {
        let q_table = seeded_table(lessons, strategy);
        let t = traits_list[l].clone();
        proof {
            assert(t.equiv(traits_list@[l as int]));
        }
        let learner = generate_simulated_learner(names[l], ages[l], t, &q_table);
        r.push((learner, q_table));
        l += 1;
    }
    r
}

} // verus!

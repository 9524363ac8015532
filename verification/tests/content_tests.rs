use neuronudge::content::{
    Answer, DifficultyLevel, Lesson, LessonPlan, LessonResult, Prompt, PromptType, Question,
    QuestionAttempt, QuestionOption, QuestionOptionType,
};
use neuronudge::learner::{ASDTraits, Communicability, CommunicationLevel, Learner, MotorSkills};
use neuronudge::simulated_content_actions::{generate_actions_lessons, generate_actions_module};
use neuronudge::simulated_content_shapes::{generate_shapes_lessons, generate_shapes_module};

#[test]
fn both_catalogs_cover_all_eight_difficulties_in_order() {
    for lessons in [generate_shapes_lessons(), generate_actions_lessons()] {
        assert_eq!(lessons.len(), 8);
        for (k, lesson) in lessons.iter().enumerate() {
            assert_eq!(lesson.get_difficulty_level(), DifficultyLevel::from_index(k));
            assert!(!lesson.get_questions().is_empty());
            assert_eq!(lesson.get_id().len(), 36);
        }
    }
}

#[test]
fn catalog_questions_carry_usable_trait_targets() {
    for lessons in [generate_shapes_lessons(), generate_actions_lessons()] {
        for lesson in lessons {
            for question in lesson.get_questions() {
                let target = question
                    .get_asd_traits_parameters()
                    .as_ref()
                    .expect("catalog questions carry targets");
                assert!(*target.get_attention_span() > 0);
                assert!(!target.get_communicability().is_empty());
            }
        }
    }
}

#[test]
fn modules_are_named_after_their_subjects() {
    assert_eq!(generate_shapes_module().get_name(), "Shapes");
    assert_eq!(generate_actions_module().get_name(), "Actions");
    assert_eq!(generate_shapes_module().get_lessons().len(), 8);
}

#[test]
fn lesson_results_total_their_faults() {
    let mut attempts = Vec::new();
    let mut a1 = QuestionAttempt::new("q1".to_string(), 7, 3, 2);
    a1.increment_hints_requested();
    a1.increment_hints_requested();
    attempts.push(a1);
    attempts.push(QuestionAttempt::new("q2".to_string(), 7, 1, 0));
    let mut result = LessonResult::new(DifficultyLevel::Easy, 14, 2, attempts);
    assert_eq!(result.get_total_incorrect_attempts(), 2);
    assert_eq!(result.get_total_hints_requested(), 2);
    result.add_question_attempt(QuestionAttempt::new("q3".to_string(), 7, 4, 3));
    assert_eq!(result.get_total_incorrect_attempts(), 5);
    assert_eq!(*result.get_total_questions(), 2);
    assert_eq!(result.get_time_taken(), 14);
}

#[test]
fn questions_accumulate_hints() {
    let mut q = Question::new(
        Prompt::new(PromptType::Text, "Pick one".to_string()),
        Some(vec![QuestionOption::new("a".to_string(), QuestionOptionType::Text)]),
        None,
        Answer::Integer(0),
        None,
    );
    assert!(q.get_hints().is_none());
    q.add_hint("look closer".to_string());
    q.add_hint("count the corners".to_string());
    assert_eq!(q.get_hints().as_ref().unwrap().len(), 2);
}

#[test]
fn learners_append_plans_and_track_the_current_lesson() {
    let traits = ASDTraits::new(
        "learner".to_string(),
        9,
        vec![Communicability::Verbal],
        CommunicationLevel::High,
        MotorSkills::High,
    );
    assert_eq!(*traits.get_attention_span(), 9);
    assert_eq!(traits.get_communicability().len(), 1);
    let mut learner = Learner::new(
        "Ada".to_string(),
        8,
        traits,
        "table-1".to_string(),
        Some("id-1".to_string()),
    );
    assert_eq!(learner.get_id(), "id-1");
    assert_eq!(learner.get_name(), "Ada");
    assert_eq!(*learner.get_age(), 8);
    assert_eq!(learner.get_q_table_id(), "table-1");

    let lessons = generate_shapes_lessons();
    let mut plan = LessonPlan::new("warm-up".to_string());
    plan.add_lesson(lessons[0].clone());
    learner.add_lesson_plan(plan);
    assert_eq!(learner.get_lesson_plans().len(), 1);
    assert_eq!(
        learner.get_current_lesson().get_difficulty_level(),
        DifficultyLevel::VeryEasy
    );

    learner.set_current_lesson(lessons[3].clone());
    assert_eq!(learner.get_lesson_plans().len(), 2);
    assert_eq!(
        learner.get_current_lesson().get_difficulty_level(),
        DifficultyLevel::Hard
    );
}

#[test]
fn lessons_are_value_objects_with_stable_identities() {
    let lesson = Lesson::new(
        "Counting".to_string(),
        vec![],
        DifficultyLevel::Medium,
        "Numbers".to_string(),
    );
    let copy = lesson.clone();
    assert_eq!(lesson.get_id(), copy.get_id());
    assert_eq!(copy.get_name(), "Counting");
    assert_eq!(copy.get_module_id(), "Numbers");
    let other = Lesson::new(
        "Counting".to_string(),
        vec![],
        DifficultyLevel::Medium,
        "Numbers".to_string(),
    );
    assert_ne!(lesson.get_id(), other.get_id());
}

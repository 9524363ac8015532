//! The built-in "Actions" module: eight lessons, one per difficulty
//! level, whose questions ask the learner to copy an action shown in a
//! video or to recognize one among video options. Every question carries
//! the trait profile it implicitly demands.

use vstd::prelude::*;
use vstd::string::{StringExecFns, StrSliceExecFns};

use crate::content::{
    Answer, ContentModule, DifficultyLevel, Lesson, Prompt, PromptType, Question, QuestionOption,
    QuestionOptionType,
};
use crate::learner::{ASDTraits, CommunicationLevel, MotorSkills};
use crate::simulated_content_shapes::{
    lesson_catalog_wf, question_traits_ok, traits_both, traits_nonverbal,
};

verus! {

/// A question asking the learner to copy the described action, shown in
/// the linked video; the instructor confirms the outcome.
pub(crate) fn generate_copy_action_question(
    action_description: &str,
    action_media_url: &str,
    asd_traits_parameters: Option<ASDTraits>,
) -> (r: Question)
    ensures
        r.asd_traits_parameters == asd_traits_parameters,
{
    let prompt_text = String::from_str("Copy this action: ").concat(action_description);
    Question::new(
        Prompt::new(PromptType::Video(prompt_text), String::from_str(action_media_url)),
        None,
        None,
        Answer::Boolean(false),
        asd_traits_parameters,
    )
}

/// A question asking the learner to pick the named action among video
/// options; the first option is always the correct one.
pub(crate) fn generate_recognize_action_question(
    prompt: &str,
    correct_action_url: &str,
    distractors: Vec<&str>,
    asd_traits_parameters: Option<ASDTraits>,
) -> (r: Question)
    ensures
        r.asd_traits_parameters == asd_traits_parameters,
{
    let mut question_options: Vec<QuestionOption> = Vec::new();
    question_options.push(
        QuestionOption::new(String::from_str(correct_action_url), QuestionOptionType::Video),
    );
    let mut i: usize = 0;
    while i < distractors.len()
        decreases distractors@.len() - i,
    {
        question_options.push(
            QuestionOption::new(String::from_str(distractors[i]), QuestionOptionType::Video),
        );
        i += 1;
    }
    Question::new(
        Prompt::new(PromptType::Text, String::from_str(prompt)),
        Some(question_options),
        None,
        Answer::Integer(0),
        asd_traits_parameters,
    )
}

/// The eight lessons of the "Actions" module, from basic actions up to
/// advanced action interpretation.
pub fn generate_actions_lessons() -> (r: Vec<Lesson>)
    ensures
        lesson_catalog_wf(r@),
        forall|i: int| 0 <= i < 8 ==> (#[trigger] r@[i]).module_id@ == "Actions"@,
{
    let mut lessons: Vec<Lesson> = Vec::new();

    // Very Easy: basic actions like clapping hands.
    let mut qs: Vec<Question> = Vec::new();
    let mut i: usize = 0;
    while i < 6
        invariant
            i <= 6,
            qs@.len() == i,
            forall|j: int| 0 <= j < i ==> question_traits_ok(#[trigger] qs@[j]),
        decreases 6 - i,
    {
        let t = traits_nonverbal(1, CommunicationLevel::Low, MotorSkills::Low);
        if i % 2 == 0 {
            qs.push(
                generate_copy_action_question(
                    "Clapping hands",
                    "https://example.com/clapping.gif",
                    Some(t),
                ),
            );
        } else {
            qs.push(
                generate_recognize_action_question(
                    "Which one is waving hello?",
                    "https://example.com/waving.gif",
                    vec!["https://example.com/nodding.gif"],
                    Some(t),
                ),
            );
        }
        i += 1;
    }
    lessons.push(
        Lesson::new(
            String::from_str("Basic Actions"),
            qs,
            DifficultyLevel::VeryEasy,
            String::from_str("Actions"),
        ),
    );

    // Easy: slightly more complex actions like jumping.
    let mut qs: Vec<Question> = Vec::new();
    let mut i: usize = 0;
    while i < 8
        invariant
            i <= 8,
            qs@.len() == i,
            forall|j: int| 0 <= j < i ==> question_traits_ok(#[trigger] qs@[j]),
        decreases 8 - i,
    {
        let t = traits_nonverbal(3, CommunicationLevel::Low, MotorSkills::Medium);
        if i < 4 {
            qs.push(
                generate_copy_action_question(
                    "Jumping",
                    "https://example.com/jumping.gif",
                    Some(t),
                ),
            );
        } else {
            qs.push(
                generate_recognize_action_question(
                    "Which one is nodding?",
                    "https://example.com/nodding.gif",
                    vec!["https://example.com/waving.gif"],
                    Some(t),
                ),
            );
        }
        i += 1;
    }
    lessons.push(
        Lesson::new(
            String::from_str("Intermediate Actions"),
            qs,
            DifficultyLevel::Easy,
            String::from_str("Actions"),
        ),
    );

    // Medium: actions that involve two steps.
    let mut qs: Vec<Question> = Vec::new();
    let mut i: usize = 0;
    while i < 10
        invariant
            i <= 10,
            qs@.len() == i,
            forall|j: int| 0 <= j < i ==> question_traits_ok(#[trigger] qs@[j]),
        decreases 10 - i,
    {
        let t = traits_nonverbal(5, CommunicationLevel::Medium, MotorSkills::Medium);
        if i % 3 == 0 {
            qs.push(
                generate_copy_action_question(
                    "Jump and Clap",
                    "https://example.com/jump_clap.gif",
                    Some(t),
                ),
            );
        } else {
            qs.push(
                generate_recognize_action_question(
                    "Find the person doing a spin",
                    "https://example.com/spin.gif",
                    vec!["https://example.com/jump.gif", "https://example.com/clap.gif"],
                    Some(t),
                ),
            );
        }
        i += 1;
    }
    lessons.push(
        Lesson::new(
            String::from_str("Two-Step Actions"),
            qs,
            DifficultyLevel::Medium,
            String::from_str("Actions"),
        ),
    );

    // Hard: multistep actions or actions requiring coordination.
    let mut qs: Vec<Question> = Vec::new();
    let mut i: usize = 0;
    while i < 12
        invariant
            i <= 12,
            qs@.len() == i,
            forall|j: int| 0 <= j < i ==> question_traits_ok(#[trigger] qs@[j]),
        decreases 12 - i,
    {
        let t = traits_nonverbal(7, CommunicationLevel::High, MotorSkills::Medium);
        if i % 3 == 0 {
            qs.push(
                generate_copy_action_question(
                    "Dance Move",
                    "https://example.com/dance_move.gif",
                    Some(t),
                ),
            );
        } else {
            qs.push(
                generate_recognize_action_question(
                    "Which is a kickball change (dance step)?",
                    "https://example.com/kickball_change.gif",
                    vec![
                        "https://example.com/step_touch.gif",
                        "https://example.com/pivot_turn.gif",
                    ],
                    Some(t),
                ),
            );
        }
        i += 1;
    }
    lessons.push(
        Lesson::new(
            String::from_str("Coordinated Actions"),
            qs,
            DifficultyLevel::Hard,
            String::from_str("Actions"),
        ),
    );

    // Very Hard: more complex multi-step actions.
    let mut qs: Vec<Question> = Vec::new();
    let mut i: usize = 0;
    while i < 14
        invariant
            i <= 14,
            qs@.len() == i,
            forall|j: int| 0 <= j < i ==> question_traits_ok(#[trigger] qs@[j]),
        decreases 14 - i,
    {
        let t = traits_both(10, CommunicationLevel::High, MotorSkills::Medium);
        if i % 4 == 0 {
            qs.push(
                generate_copy_action_question(
                    "Yoga Pose Sequence",
                    "https://example.com/yoga_pose_sequence.gif",
                    Some(t),
                ),
            );
        } else {
            qs.push(
                generate_recognize_action_question(
                    "Identify the cartwheel",
                    "https://example.com/cartwheel.gif",
                    vec![
                        "https://example.com/handstand.gif",
                        "https://example.com/forward_roll.gif",
                    ],
                    Some(t),
                ),
            );
        }
        i += 1;
    }
    lessons.push(
        Lesson::new(
            String::from_str("Complex Multi-Step Actions"),
            qs,
            DifficultyLevel::VeryHard,
            String::from_str("Actions"),
        ),
    );

    // Expert: sequences of actions focusing on following instructions.
    let mut qs: Vec<Question> = Vec::new();
    let mut i: usize = 0;
    while i < 16
        invariant
            i <= 16,
            qs@.len() == i,
            forall|j: int| 0 <= j < i ==> question_traits_ok(#[trigger] qs@[j]),
        decreases 16 - i,
    {
        let t = traits_both(12, CommunicationLevel::High, MotorSkills::High);
        if i % 4 == 0 {
            qs.push(
                generate_copy_action_question(
                    "Miming an action without props",
                    "https://example.com/miming.gif",
                    Some(t),
                ),
            );
        } else {
            qs.push(
                generate_recognize_action_question(
                    "Which action symbolizes 'thinking'?",
                    "https://example.com/thinking_pose.gif",
                    vec![
                        "https://example.com/looking_around.gif",
                        "https://example.com/shrugging.gif",
                    ],
                    Some(t),
                ),
            );
        }
        i += 1;
    }
    lessons.push(
        Lesson::new(
            String::from_str("Action Sequences"),
            qs,
            DifficultyLevel::Expert,
            String::from_str("Actions"),
        ),
    );

    // Master: sequences of actions with emphasis on motor skills.
    let mut qs: Vec<Question> = Vec::new();
    let mut i: usize = 0;
    while i < 18
        invariant
            i <= 18,
            qs@.len() == i,
            forall|j: int| 0 <= j < i ==> question_traits_ok(#[trigger] qs@[j]),
        decreases 18 - i,
    {
        let t = traits_both(15, CommunicationLevel::High, MotorSkills::VeryHigh);
        if i % 5 == 0 {
            qs.push(
                generate_copy_action_question(
                    "Complex Gymnastics Routine",
                    "https://example.com/gymnastics_routine.gif",
                    Some(t),
                ),
            );
        } else {
            qs.push(
                generate_recognize_action_question(
                    "Select the correct sequence of actions",
                    "https://example.com/correct_sequence.gif",
                    vec![
                        "https://example.com/wrong_sequence_1.gif",
                        "https://example.com/wrong_sequence_2.gif",
                    ],
                    Some(t),
                ),
            );
        }
        i += 1;
    }
    lessons.push(
        Lesson::new(
            String::from_str("Mastering Motor Skills"),
            qs,
            DifficultyLevel::Master,
            String::from_str("Actions"),
        ),
    );

    // Grandmaster: advanced action sequences with focus on precision and
    // coordination.
    let mut qs: Vec<Question> = Vec::new();
    let mut i: usize = 0;
    while i < 20
        invariant
            i <= 20,
            qs@.len() == i,
            forall|j: int| 0 <= j < i ==> question_traits_ok(#[trigger] qs@[j]),
        decreases 20 - i,
    {
        let t = traits_both(20, CommunicationLevel::High, MotorSkills::VeryHigh);
        if i % 5 == 0 {
            qs.push(
                generate_copy_action_question(
                    "Intricate Dance Choreography",
                    "https://example.com/advanced_dance.gif",
                    Some(t),
                ),
            );
        } else {
            qs.push(
                generate_recognize_action_question(
                    "Identify the most precise action",
                    "https://example.com/precise_action.gif",
                    vec!["https://example.com/action_1.gif", "https://example.com/action_2.gif"],
                    Some(t),
                ),
            );
        }
        i += 1;
    }
    lessons.push(
        Lesson::new(
            String::from_str("Advanced Action Interpretation"),
            qs,
            DifficultyLevel::Grandmaster,
            String::from_str("Actions"),
        ),
    );

    lessons
}

/// The "Actions" module holding the eight action lessons.
pub fn generate_actions_module() -> (r: ContentModule)
    ensures
        lesson_catalog_wf(r.lessons@),
        r.name@ == "Actions"@,
        forall|i: int| 0 <= i < 8 ==> (#[trigger] r.lessons@[i]).module_id@ == "Actions"@,
{
    let lessons = generate_actions_lessons();
    let ghost gl = lessons@;
    let mut module = ContentModule::new(String::from_str("Actions"));
    let r = module.with_lessons(lessons);
    proof {
        assert forall|i: int| 0 <= i < 8 implies {
            &&& (#[trigger] r.lessons@[i]).difficulty_level == DifficultyLevel::spec_from_index(i)
            &&& 1 <= r.lessons@[i].questions@.len() <= 100
            &&& r.lessons@[i].module_id@ == "Actions"@
        } by {
            assert(r.lessons@[i].equiv(gl[i]));
            assert(gl[i].module_id@ == "Actions"@);
        }
        assert forall|i: int, j: int|
            0 <= i < 8 && 0 <= j < r.lessons@[i].questions@.len() implies question_traits_ok(
            #[trigger] r.lessons@[i].questions@[j],
        ) by {
            assert(r.lessons@[i].equiv(gl[i]));
            assert(r.lessons@[i].questions@[j].equiv(gl[i].questions@[j]));
            assert(question_traits_ok(gl[i].questions@[j]));
        }
    }
    r
}

} // verus!

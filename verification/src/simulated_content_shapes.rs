//! The built-in "Shapes" module: eight lessons, one per difficulty level,
//! whose questions ask the learner to pick a named shape from image
//! options. Every question carries the trait profile it implicitly
//! demands.

use vstd::prelude::*;
use vstd::string::StringExecFns;

use crate::content::{
    Answer, ContentModule, DifficultyLevel, Lesson, Prompt, PromptType, Question, QuestionOption,
    QuestionOptionType,
};
use crate::learner::{ASDTraits, Communicability, CommunicationLevel, MotorSkills};

verus! {

pub const CIRCLE_IMAGE: &'static str =
    "https://i.pinimg.com/1200x/09/6b/9f/096b9f21d164aa34a980c85b8a5994b4.jpg";

pub const TRIANGLE_IMAGE: &'static str =
    "https://t4.ftcdn.net/jpg/01/77/67/85/360_F_177678515_ZCqLyYIR7OEzb0zy3Q8Tu0I9Af00j4Z9.jpg";

pub const SQUARE_IMAGE: &'static str =
    "https://previews.123rf.com/images/get4net/get4net1901/get4net190106174/126278452-rectangular-square-shape.jpg";

pub const RECTANGLE_IMAGE: &'static str =
    "https://encrypted-tbn0.gstatic.com/images?q=tbn:ANd9GcSyODK5dUxNVjvNIPU2nTzoKGslbo7cGtkNJwhtyULMJhh4eEA_mW6T6By-gMwwb9lGkVU&usqp=CAU";

pub const PENTAGON_IMAGE: &'static str =
    "https://c8.alamy.com/comp/2J3DKA2/pentagon-shape-symbol-vector-icon-outline-stroke-for-creative-graphic-design-ui-element-in-a-pictogram-illustration-2J3DKA2.jpg";

pub const HEXAGON_IMAGE: &'static str =
    "https://images.twinkl.co.uk/tw1n/image/private/t_630/u/ux/hex_ver_1.png";

pub const HEPTAGON_IMAGE: &'static str =
    "https://i.ibb.co/ZBPrtxm/360-F-315506920-w-RLWKFBTc-Vc0vprt9-Ckc0b-X5-Phs-LYf-OL.jpg";

/// A question's target trait profile is present and usable by the
/// alignment computation.
pub open spec fn question_traits_ok(q: Question) -> bool {
    match q.asd_traits_parameters {
        Some(t) => t.wf() && t.attention_span > 0 && t.communicability@.len() > 0,
        None => false,
    }
}

/// A well-formed lesson catalog: one lesson per difficulty level in
/// ascending order, each with between one and a hundred questions, every
/// question carrying a usable target trait profile.
pub open spec fn lesson_catalog_wf(s: Seq<Lesson>) -> bool {
    &&& s.len() == 8
    &&& forall|i: int|
        0 <= i < 8 ==> (#[trigger] s[i]).difficulty_level == DifficultyLevel::spec_from_index(i)
    &&& forall|i: int| 0 <= i < 8 ==> 1 <= (#[trigger] s[i]).questions@.len() <= 100
    &&& forall|i: int, j: int|
        0 <= i < 8 && 0 <= j < s[i].questions@.len() ==> question_traits_ok(
            #[trigger] s[i].questions@[j],
        )
}

/// A target profile with the non-verbal mode only.
pub(crate) fn traits_nonverbal(
    attention_span: i32,
    level: CommunicationLevel,
    motor: MotorSkills,
) -> (r: ASDTraits)
    requires
        attention_span > 0,
    ensures
        r.wf(),
        r.attention_span == attention_span,
        r.communicability@.len() == 1,
{
    let comm = vec![Communicability::NonVerbal];
    ASDTraits::new(String::new(), attention_span, comm, level, motor)
}

/// A target profile with the verbal mode only.
pub(crate) fn traits_verbal(
    attention_span: i32,
    level: CommunicationLevel,
    motor: MotorSkills,
) -> (r: ASDTraits)
    requires
        attention_span > 0,
    ensures
        r.wf(),
        r.attention_span == attention_span,
        r.communicability@.len() == 1,
{
    let comm = vec![Communicability::Verbal];
    ASDTraits::new(String::new(), attention_span, comm, level, motor)
}

/// A target profile with both communicability modes.
pub(crate) fn traits_both(
    attention_span: i32,
    level: CommunicationLevel,
    motor: MotorSkills,
) -> (r: ASDTraits)
    requires
        attention_span > 0,
    ensures
        r.wf(),
        r.attention_span == attention_span,
        r.communicability@.len() == 2,
{
    let comm = vec![Communicability::Verbal, Communicability::NonVerbal];
    proof {
        assert(comm@[0] != comm@[1]);
    }
    ASDTraits::new(String::new(), attention_span, comm, level, motor)
}

/// A multiple-choice question with image options; the first option is
/// always the correct one.
pub(crate) fn generate_question(
    prompt: &str,
    correct_image: &str,
    distractors: Vec<&str>,
    asd_traits: Option<ASDTraits>,
) -> (r: Question)
    ensures
        r.asd_traits_parameters == asd_traits,
{
    let mut options: Vec<QuestionOption> = Vec::new();
    options.push(QuestionOption::new(String::from_str(correct_image), QuestionOptionType::Image));
    let mut i: usize = 0;
    while i < distractors.len()
        decreases distractors@.len() - i,
    {
        options.push(
            QuestionOption::new(String::from_str(distractors[i]), QuestionOptionType::Image),
        );
        i += 1;
    }
    Question::new(
        Prompt::new(PromptType::Text, String::from_str(prompt)),
        Some(options),
        None,
        Answer::Integer(0),
        asd_traits,
    )
}

/// The eight lessons of the "Shapes" module, from recognising circles up
/// to the ultimate shape challenge.
pub fn generate_shapes_lessons() -> (r: Vec<Lesson>)
    ensures
        lesson_catalog_wf(r@),
        forall|i: int| 0 <= i < 8 ==> (#[trigger] r@[i]).module_id@ == "Shapes"@,
{
    let mut lessons: Vec<Lesson> = Vec::new();

    // Very Easy: "Recognising Circles".
    let mut qs: Vec<Question> = Vec::new();
    let mut i: usize = 0;
    while i < 6
        invariant
            i <= 6,
            qs@.len() == i,
            forall|j: int| 0 <= j < i ==> question_traits_ok(#[trigger] qs@[j]),
        decreases 6 - i,
    {
        let t = traits_nonverbal(1, CommunicationLevel::Low, MotorSkills::Low);
        if i < 3 || i == 5 {
            qs.push(generate_question("Select the circle!", CIRCLE_IMAGE, Vec::new(), Some(t)));
        } else {
            qs.push(
                generate_question(
                    "Select the circle!",
                    CIRCLE_IMAGE,
                    vec![SQUARE_IMAGE],
                    Some(t),
                ),
            );
        }
        i += 1;
    }
    lessons.push(
        Lesson::new(
            String::from_str("Recognising Circles"),
            qs,
            DifficultyLevel::VeryEasy,
            String::from_str("Shapes"),
        ),
    );

    // Easy: "Introducing Squares".
    let mut qs: Vec<Question> = Vec::new();
    let mut i: usize = 0;
    while i < 8
        invariant
            i <= 8,
            qs@.len() == i,
            forall|j: int| 0 <= j < i ==> question_traits_ok(#[trigger] qs@[j]),
        decreases 8 - i,
    {
        let t = traits_nonverbal(2, CommunicationLevel::Medium, MotorSkills::Low);
        if i < 3 {
            qs.push(generate_question("Select the square!", SQUARE_IMAGE, Vec::new(), Some(t)));
        } else {
            qs.push(
                generate_question(
                    "Select the square!",
                    SQUARE_IMAGE,
                    vec![CIRCLE_IMAGE],
                    Some(t),
                ),
            );
        }
        i += 1;
    }
    lessons.push(
        Lesson::new(
            String::from_str("Introducing Squares"),
            qs,
            DifficultyLevel::Easy,
            String::from_str("Shapes"),
        ),
    );

    // Medium: "Getting Comfortable with Triangles".
    let mut qs: Vec<Question> = Vec::new();
    let mut i: usize = 0;
    while i < 6
        invariant
            i <= 6,
            qs@.len() == i,
            forall|j: int| 0 <= j < i ==> question_traits_ok(#[trigger] qs@[j]),
        decreases 6 - i,
    {
        let t = traits_nonverbal(3, CommunicationLevel::Medium, MotorSkills::Medium);
        if i < 3 {
            qs.push(
                generate_question("Select the triangle!", TRIANGLE_IMAGE, Vec::new(), Some(t)),
            );
        } else {
            qs.push(
                generate_question(
                    "Select the triangle!",
                    TRIANGLE_IMAGE,
                    vec![CIRCLE_IMAGE, SQUARE_IMAGE],
                    Some(t),
                ),
            );
        }
        i += 1;
    }
    lessons.push(
        Lesson::new(
            String::from_str("Getting Comfortable with Triangles"),
            qs,
            DifficultyLevel::Medium,
            String::from_str("Shapes"),
        ),
    );

    // Hard: "Identifying Complex Shapes".
    let mut qs: Vec<Question> = Vec::new();
    let mut i: usize = 0;
    while i < 12
        invariant
            i <= 12,
            qs@.len() == i,
            forall|j: int| 0 <= j < i ==> question_traits_ok(#[trigger] qs@[j]),
        decreases 12 - i,
    {
        let t = traits_verbal(5, CommunicationLevel::High, MotorSkills::Medium);
        if i <= 3 || i == 11 {
            qs.push(
                generate_question(
                    "Select the pentagon!",
                    PENTAGON_IMAGE,
                    vec![TRIANGLE_IMAGE, CIRCLE_IMAGE],
                    Some(t),
                ),
            );
        } else if i <= 7 {
            qs.push(
                generate_question(
                    "Select the hexagon!",
                    HEXAGON_IMAGE,
                    vec![SQUARE_IMAGE, SQUARE_IMAGE],
                    Some(t),
                ),
            );
        } else {
            qs.push(
                generate_question(
                    "Select the heptagon!",
                    HEPTAGON_IMAGE,
                    vec![PENTAGON_IMAGE, HEXAGON_IMAGE],
                    Some(t),
                ),
            );
        }
        i += 1;
    }
    lessons.push(
        Lesson::new(
            String::from_str("Identifying Complex Shapes"),
            qs,
            DifficultyLevel::Hard,
            String::from_str("Shapes"),
        ),
    );

    // Very Hard: "Shape Differentiation".
    let mut qs: Vec<Question> = Vec::new();
    let mut i: usize = 0;
    while i < 12
        invariant
            i <= 12,
            qs@.len() == i,
            forall|j: int| 0 <= j < i ==> question_traits_ok(#[trigger] qs@[j]),
        decreases 12 - i,
    {
        let t = traits_verbal(7, CommunicationLevel::High, MotorSkills::High);
        if i <= 3 || i == 11 {
            qs.push(
                generate_question(
                    "Select the square!",
                    SQUARE_IMAGE,
                    vec![HEXAGON_IMAGE, TRIANGLE_IMAGE, PENTAGON_IMAGE],
                    Some(t),
                ),
            );
        } else if i <= 7 {
            qs.push(
                generate_question(
                    "Select the pentagon!",
                    PENTAGON_IMAGE,
                    vec![CIRCLE_IMAGE, HEXAGON_IMAGE, HEPTAGON_IMAGE],
                    Some(t),
                ),
            );
        } else {
            qs.push(
                generate_question(
                    "Select the hexagon!",
                    HEXAGON_IMAGE,
                    vec![CIRCLE_IMAGE, TRIANGLE_IMAGE, PENTAGON_IMAGE],
                    Some(t),
                ),
            );
        }
        i += 1;
    }
    lessons.push(
        Lesson::new(
            String::from_str("Shape Differentiation"),
            qs,
            DifficultyLevel::VeryHard,
            String::from_str("Shapes"),
        ),
    );

    // Expert: "Advanced Shape Identification".
    let mut qs: Vec<Question> = Vec::new();
    let mut i: usize = 0;
    while i < 12
        invariant
            i <= 12,
            qs@.len() == i,
            forall|j: int| 0 <= j < i ==> question_traits_ok(#[trigger] qs@[j]),
        decreases 12 - i,
    {
        let t = traits_both(10, CommunicationLevel::High, MotorSkills::High);
        if i <= 3 || i == 11 {
            qs.push(
                generate_question(
                    "Select the triangle!",
                    TRIANGLE_IMAGE,
                    vec![PENTAGON_IMAGE, HEXAGON_IMAGE, HEXAGON_IMAGE],
                    Some(t),
                ),
            );
        } else if i <= 7 {
            qs.push(
                generate_question(
                    "Select the square!",
                    SQUARE_IMAGE,
                    vec![CIRCLE_IMAGE, HEPTAGON_IMAGE, PENTAGON_IMAGE],
                    Some(t),
                ),
            );
        } else {
            qs.push(
                generate_question(
                    "Select the circle!",
                    CIRCLE_IMAGE,
                    vec![SQUARE_IMAGE, HEXAGON_IMAGE, TRIANGLE_IMAGE],
                    Some(t),
                ),
            );
        }
        i += 1;
    }
    lessons.push(
        Lesson::new(
            String::from_str("Advanced Shape Identification"),
            qs,
            DifficultyLevel::Expert,
            String::from_str("Shapes"),
        ),
    );

    // Master: "Mastering Shape Recognition".
    let mut qs: Vec<Question> = Vec::new();
    let mut i: usize = 0;
    while i < 12
        invariant
            i <= 12,
            qs@.len() == i,
            forall|j: int| 0 <= j < i ==> question_traits_ok(#[trigger] qs@[j]),
        decreases 12 - i,
    {
        let t = traits_nonverbal(15, CommunicationLevel::High, MotorSkills::VeryHigh);
        if i <= 3 || i == 11 {
            qs.push(
                generate_question(
                    "Select the heptagon!",
                    HEPTAGON_IMAGE,
                    vec![HEXAGON_IMAGE, PENTAGON_IMAGE],
                    Some(t),
                ),
            );
        } else if i <= 7 {
            qs.push(
                generate_question(
                    "Select the pentagon!",
                    PENTAGON_IMAGE,
                    vec![TRIANGLE_IMAGE, CIRCLE_IMAGE, SQUARE_IMAGE],
                    Some(t),
                ),
            );
        } else {
            qs.push(
                generate_question(
                    "Select the hexagon!",
                    HEXAGON_IMAGE,
                    vec![SQUARE_IMAGE, TRIANGLE_IMAGE],
                    Some(t),
                ),
            );
        }
        i += 1;
    }
    lessons.push(
        Lesson::new(
            String::from_str("Mastering Shape Recognition"),
            qs,
            DifficultyLevel::Master,
            String::from_str("Shapes"),
        ),
    );

    // Grandmaster: "The Ultimate Shape Challenge".
    let mut qs: Vec<Question> = Vec::new();
    let mut i: usize = 0;
    while i < 12
        invariant
            i <= 12,
            qs@.len() == i,
            forall|j: int| 0 <= j < i ==> question_traits_ok(#[trigger] qs@[j]),
        decreases 12 - i,
    {
        let t = traits_nonverbal(20, CommunicationLevel::High, MotorSkills::VeryHigh);
        if i <= 2 {
            qs.push(
                generate_question(
                    "Select the heptagon!",
                    HEPTAGON_IMAGE,
                    vec![HEXAGON_IMAGE, PENTAGON_IMAGE, SQUARE_IMAGE, CIRCLE_IMAGE],
                    Some(t),
                ),
            );
        } else if i <= 5 {
            qs.push(
                generate_question(
                    "Select the hexagon!",
                    HEXAGON_IMAGE,
                    vec![TRIANGLE_IMAGE, PENTAGON_IMAGE, SQUARE_IMAGE, CIRCLE_IMAGE],
                    Some(t),
                ),
            );
        } else if i <= 8 {
            qs.push(
                generate_question(
                    "Select the pentagon!",
                    PENTAGON_IMAGE,
                    vec![HEXAGON_IMAGE, TRIANGLE_IMAGE, SQUARE_IMAGE, CIRCLE_IMAGE],
                    Some(t),
                ),
            );
        } else if i <= 10 {
            qs.push(
                generate_question(
                    "Select the triangle!",
                    TRIANGLE_IMAGE,
                    vec![HEXAGON_IMAGE, PENTAGON_IMAGE, SQUARE_IMAGE, CIRCLE_IMAGE],
                    Some(t),
                ),
            );
        } else {
            qs.push(
                generate_question(
                    "Select the square!",
                    SQUARE_IMAGE,
                    vec![HEXAGON_IMAGE, PENTAGON_IMAGE, CIRCLE_IMAGE, TRIANGLE_IMAGE],
                    Some(t),
                ),
            );
        }
        i += 1;
    }
    lessons.push(
        Lesson::new(
            String::from_str("The Ultimate Shape Challenge"),
            qs,
            DifficultyLevel::Grandmaster,
            String::from_str("Shapes"),
        ),
    );

    lessons
}

/// The "Shapes" module holding the eight shape lessons.
pub fn generate_shapes_module() -> (r: ContentModule)
    ensures
        lesson_catalog_wf(r.lessons@),
        r.name@ == "Shapes"@,
        forall|i: int| 0 <= i < 8 ==> (#[trigger] r.lessons@[i]).module_id@ == "Shapes"@,
{
    let lessons = generate_shapes_lessons();
    let ghost gl = lessons@;
    let mut module = ContentModule::new(String::from_str("Shapes"));
    let r = module.with_lessons(lessons);
    proof {
        assert forall|i: int| 0 <= i < 8 implies {
            &&& (#[trigger] r.lessons@[i]).difficulty_level == DifficultyLevel::spec_from_index(i)
            &&& 1 <= r.lessons@[i].questions@.len() <= 100
            &&& r.lessons@[i].module_id@ == "Shapes"@
        } by {
            assert(r.lessons@[i].equiv(gl[i]));
            assert(gl[i].module_id@ == "Shapes"@);
        }
        assert forall|i: int, j: int|
            0 <= i < 8 && 0 <= j < r.lessons@[i].questions@.len() implies question_traits_ok(
            #[trigger] r.lessons@[i].questions@[j],
        ) by {
            assert(r.lessons@[i].equiv(gl[i]));
            assert(r.lessons@[i].questions@[j].equiv(gl[i].questions@[j]));
            assert(question_traits_ok(gl[i].questions@[j]));
        }
    }
    r
}

} // verus!

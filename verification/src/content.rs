//! The content model: modules, lessons, questions, attempts and results.
//!
//! All types here are immutable value objects once constructed; the engine
//! consumes them and never mutates them.

use vstd::prelude::*;
use vstd::string::StrSliceExecFns;

use crate::ids::new_id;
use crate::learner::ASDTraits;
use crate::EngineError;

verus! {

/// Character-wise string equality, proved against the string views.
pub fn str_eq(a: &str, b: &str) -> (r: bool)
    ensures
        r == (a@ == b@),
{
    let alen = a.unicode_len();
    let blen = b.unicode_len();
    if alen != blen {
        return false;
    }
    let mut i: usize = 0;
    while i < alen
        invariant
            alen == a@.len(),
            blen == b@.len(),
            alen == blen,
            i <= alen,
            forall|j: int| 0 <= j < i ==> a@[j] == b@[j],
        decreases alen - i,
    {
        if a.get_char(i) != b.get_char(i) {
            return false;
        }
        i += 1;
    }
    proof {
        assert(a@ =~= b@);
    }
    true
}

/// The eight qualitative difficulty levels, from lowest to highest. The
/// order defines "next up" and "next down", saturating at both ends.
#[derive(Clone, Copy, Debug, PartialEq, Eq, Structural)]
pub enum DifficultyLevel {
    VeryEasy,
    Easy,
    Medium,
    Hard,
    VeryHard,
    Expert,
    Master,
    Grandmaster,
}

impl DifficultyLevel {
    /// The position of this level in the ascending order, from 0 to 7.
    pub open spec fn spec_index(self) -> int {
        match self {
            DifficultyLevel::VeryEasy => 0,
            DifficultyLevel::Easy => 1,
            DifficultyLevel::Medium => 2,
            DifficultyLevel::Hard => 3,
            DifficultyLevel::VeryHard => 4,
            DifficultyLevel::Expert => 5,
            DifficultyLevel::Master => 6,
            DifficultyLevel::Grandmaster => 7,
        }
    }

    /// The position of this level in the ascending order, from 0 to 7.
    pub fn index(&self) -> (i: usize)
        ensures
            i == self.spec_index(),
            i < 8,
    {
        match self {
            DifficultyLevel::VeryEasy => 0,
            DifficultyLevel::Easy => 1,
            DifficultyLevel::Medium => 2,
            DifficultyLevel::Hard => 3,
            DifficultyLevel::VeryHard => 4,
            DifficultyLevel::Expert => 5,
            DifficultyLevel::Master => 6,
            DifficultyLevel::Grandmaster => 7,
        }
    }

    /// The level at a given position of the ascending order.
    pub open spec fn spec_from_index(k: int) -> DifficultyLevel {
        if k == 0 {
            DifficultyLevel::VeryEasy
        } else if k == 1 {
            DifficultyLevel::Easy
        } else if k == 2 {
            DifficultyLevel::Medium
        } else if k == 3 {
            DifficultyLevel::Hard
        } else if k == 4 {
            DifficultyLevel::VeryHard
        } else if k == 5 {
            DifficultyLevel::Expert
        } else if k == 6 {
            DifficultyLevel::Master
        } else {
            DifficultyLevel::Grandmaster
        }
    }

    /// The level at a given position of the ascending order.
    pub fn from_index(i: usize) -> (d: DifficultyLevel)
        requires
            i < 8,
        ensures
            d.spec_index() == i,
            d == DifficultyLevel::spec_from_index(i as int),
    {
        if i == 0 {
            DifficultyLevel::VeryEasy
        } else if i == 1 {
            DifficultyLevel::Easy
        } else if i == 2 {
            DifficultyLevel::Medium
        } else if i == 3 {
            DifficultyLevel::Hard
        } else if i == 4 {
            DifficultyLevel::VeryHard
        } else if i == 5 {
            DifficultyLevel::Expert
        } else if i == 6 {
            DifficultyLevel::Master
        } else {
            DifficultyLevel::Grandmaster
        }
    }

    /// The exact token under which this level is written.
    pub open spec fn token_spec(self) -> Seq<char> {
        match self {
            DifficultyLevel::VeryEasy => "VeryEasy"@,
            DifficultyLevel::Easy => "Easy"@,
            DifficultyLevel::Medium => "Medium"@,
            DifficultyLevel::Hard => "Hard"@,
            DifficultyLevel::VeryHard => "VeryHard"@,
            DifficultyLevel::Expert => "Expert"@,
            DifficultyLevel::Master => "Master"@,
            DifficultyLevel::Grandmaster => "Grandmaster"@,
        }
    }

    /// Encode this level as its token.
    pub fn as_str(&self) -> (r: &'static str)
        ensures
            r@ == self.token_spec(),
    {
        match self {
            DifficultyLevel::VeryEasy => "VeryEasy",
            DifficultyLevel::Easy => "Easy",
            DifficultyLevel::Medium => "Medium",
            DifficultyLevel::Hard => "Hard",
            DifficultyLevel::VeryHard => "VeryHard",
            DifficultyLevel::Expert => "Expert",
            DifficultyLevel::Master => "Master",
            DifficultyLevel::Grandmaster => "Grandmaster",
        }
    }

    /// What parsing a string yields: the level whose token it is, if any.
    pub open spec fn parse_spec(s: Seq<char>) -> Option<DifficultyLevel> {
        if s == DifficultyLevel::VeryEasy.token_spec() {
            Some(DifficultyLevel::VeryEasy)
        } else if s == DifficultyLevel::Easy.token_spec() {
            Some(DifficultyLevel::Easy)
        } else if s == DifficultyLevel::Medium.token_spec() {
            Some(DifficultyLevel::Medium)
        } else if s == DifficultyLevel::Hard.token_spec() {
            Some(DifficultyLevel::Hard)
        } else if s == DifficultyLevel::VeryHard.token_spec() {
            Some(DifficultyLevel::VeryHard)
        } else if s == DifficultyLevel::Expert.token_spec() {
            Some(DifficultyLevel::Expert)
        } else if s == DifficultyLevel::Master.token_spec() {
            Some(DifficultyLevel::Master)
        } else if s == DifficultyLevel::Grandmaster.token_spec() {
            Some(DifficultyLevel::Grandmaster)
        } else {
            None
        }
    }

    /// Decode a token; any string that is not one of the eight exact tokens
    /// is rejected with a configuration error.
    pub fn parse_str(s: &str) -> (r: Result<DifficultyLevel, EngineError>)
        ensures
            match r {
                Ok(d) => DifficultyLevel::parse_spec(s@) == Some(d),
                Err(e) => DifficultyLevel::parse_spec(s@) is None && e == EngineError::Configuration,
            },
    {
        if str_eq(s, "VeryEasy") {
            Ok(DifficultyLevel::VeryEasy)
        } else if str_eq(s, "Easy") {
            Ok(DifficultyLevel::Easy)
        } else if str_eq(s, "Medium") {
            Ok(DifficultyLevel::Medium)
        } else if str_eq(s, "Hard") {
            Ok(DifficultyLevel::Hard)
        } else if str_eq(s, "VeryHard") {
            Ok(DifficultyLevel::VeryHard)
        } else if str_eq(s, "Expert") {
            Ok(DifficultyLevel::Expert)
        } else if str_eq(s, "Master") {
            Ok(DifficultyLevel::Master)
        } else if str_eq(s, "Grandmaster") {
            Ok(DifficultyLevel::Grandmaster)
        } else {
            Err(EngineError::Configuration)
        }
    }
}

/// Encoding a level and decoding the result always gives the level back:
/// the eight tokens are pairwise distinct.
pub proof fn lemma_difficulty_token_roundtrip(d: DifficultyLevel)
    ensures
        DifficultyLevel::parse_spec(d.token_spec()) == Some(d),
{
    reveal_strlit("VeryEasy");
    reveal_strlit("Easy");
    reveal_strlit("Medium");
    reveal_strlit("Hard");
    reveal_strlit("VeryHard");
    reveal_strlit("Expert");
    reveal_strlit("Master");
    reveal_strlit("Grandmaster");
    assert("VeryEasy"@.len() == 8);
    assert("Easy"@.len() == 4);
    assert("Medium"@.len() == 6);
    assert("Hard"@.len() == 4);
    assert("VeryHard"@.len() == 8);
    assert("Expert"@.len() == 6);
    assert("Master"@.len() == 6);
    assert("Grandmaster"@.len() == 11);
    assert("Easy"@[0] == 'E' && "Hard"@[0] == 'H');
    assert("Medium"@[0] == 'M' && "Expert"@[0] == 'E' && "Master"@[0] == 'M');
    assert("Medium"@[1] == 'e' && "Master"@[1] == 'a');
    assert("VeryEasy"@[4] == 'E' && "VeryHard"@[4] == 'H');
}

/// The kind of content a question option carries.
#[derive(Clone, Copy, Debug, PartialEq, Eq, Structural)]
pub enum QuestionOptionType {
    Text,
    Image,
    Video,
    Audio,
}

/// One option a learner can select as the answer to a question.
#[derive(Debug)]
pub struct QuestionOption {
    pub id: String,
    pub option: String,
    pub option_type: QuestionOptionType,
}

impl QuestionOption {
    pub fn new(option: String, option_type: QuestionOptionType) -> (r: QuestionOption)
        ensures
            r.option == option,
            r.option_type == option_type,
            r.id@.len() == 36,
    {
        let id = new_id();
        QuestionOption { id, option, option_type }
    }

    pub fn get_id(&self) -> (r: &String)
        ensures
            *r == self.id,
    {
        &self.id
    }

    pub fn get_option(&self) -> (r: &String)
        ensures
            *r == self.option,
    {
        &self.option
    }

    pub fn get_option_type(&self) -> (r: &QuestionOptionType)
        ensures
            *r == self.option_type,
    {
        &self.option_type
    }
}

impl Clone for QuestionOption {
    fn clone(&self) -> (r: Self)
        ensures
            r == *self,
    {
        QuestionOption {
            id: self.id.clone(),
            option: self.option.clone(),
            option_type: self.option_type,
        }
    }
}

/// The kind of prompt a question shows. A video prompt carries the textual
/// instruction attached to the video.
#[derive(Debug, PartialEq, Eq)]
pub enum PromptType {
    Image,
    Video(String),
    Text,
}

impl Clone for PromptType {
    fn clone(&self) -> (r: Self)
        ensures
            r == *self,
    {
        match self {
            PromptType::Image => PromptType::Image,
            PromptType::Video(s) => PromptType::Video(s.clone()),
            PromptType::Text => PromptType::Text,
        }
    }
}

/// The question put to the learner.
#[derive(Debug)]
pub struct Prompt {
    pub prompt_type: PromptType,
    pub prompt: String,
}

impl Prompt {
    pub fn new(prompt_type: PromptType, prompt: String) -> (r: Prompt)
        ensures
            r.prompt_type == prompt_type,
            r.prompt == prompt,
    {
        Prompt { prompt_type, prompt }
    }

    pub fn get_prompt_type(&self) -> (r: &PromptType)
        ensures
            *r == self.prompt_type,
    {
        &self.prompt_type
    }

    pub fn get_prompt(&self) -> (r: &String)
        ensures
            *r == self.prompt,
    {
        &self.prompt
    }
}

impl Clone for Prompt {
    fn clone(&self) -> (r: Self)
        ensures
            r == *self,
    {
        Prompt { prompt_type: self.prompt_type.clone(), prompt: self.prompt.clone() }
    }
}

/// The expected response: an index into the options, or a yes/no confirmed
/// by the instructor.
#[derive(Clone, Copy, Debug, PartialEq, Eq, Structural)]
pub enum Answer {
    Integer(u8),
    Boolean(bool),
}

fn clone_option_vec(v: &Vec<QuestionOption>) -> (r: Vec<QuestionOption>)
    ensures
        r@ == v@,
{
    let mut r: Vec<QuestionOption> = Vec::new();
    let mut i: usize = 0;
    while i < v.len()
        invariant
            i <= v@.len(),
            r@ =~= v@.subrange(0, i as int),
        decreases v@.len() - i,
    {
        r.push(v[i].clone());
        i += 1;
    }
    proof {
        assert(r@ =~= v@);
    }
    r
}

fn clone_string_vec(v: &Vec<String>) -> (r: Vec<String>)
    ensures
        r@ == v@,
{
    let mut r: Vec<String> = Vec::new();
    let mut i: usize = 0;
    while i < v.len()
        invariant
            i <= v@.len(),
            r@ =~= v@.subrange(0, i as int),
        decreases v@.len() - i,
    {
        r.push(v[i].clone());
        i += 1;
    }
    proof {
        assert(r@ =~= v@);
    }
    r
}

/// One unit of a lesson: a prompt, optional selectable options, the
/// expected answer, optional hints, and an optional profile of the trait
/// levels the question implicitly demands.
#[derive(Debug)]
pub struct Question {
    pub id: String,
    pub prompt: Prompt,
    pub options: Option<Vec<QuestionOption>>,
    pub answer: Answer,
    pub hints: Option<Vec<String>>,
    pub asd_traits_parameters: Option<ASDTraits>,
}

impl Question {
    /// Two questions carry the same data. This is equality up to the memory
    /// representation of the option and hint lists.
    pub open spec fn equiv(self, o: Question) -> bool {
        &&& self.id == o.id
        &&& self.prompt == o.prompt
        &&& self.answer == o.answer
        &&& match (self.options, o.options) {
            (Some(a), Some(b)) => a@ == b@,
            (None, None) => true,
            _ => false,
        }
        &&& match (self.hints, o.hints) {
            (Some(a), Some(b)) => a@ == b@,
            (None, None) => true,
            _ => false,
        }
        &&& match (self.asd_traits_parameters, o.asd_traits_parameters) {
            (Some(a), Some(b)) => a.equiv(b),
            (None, None) => true,
            _ => false,
        }
    }

    pub fn new(
        prompt: Prompt,
        options: Option<Vec<QuestionOption>>,
        hints: Option<Vec<String>>,
        answer: Answer,
        asd_traits_parameters: Option<ASDTraits>,
    ) -> (r: Question)
        ensures
            r.prompt == prompt,
            r.options == options,
            r.hints == hints,
            r.answer == answer,
            r.asd_traits_parameters == asd_traits_parameters,
            r.id@.len() == 36,
    {
        let id = new_id();
        Question { id, prompt, answer, hints, options, asd_traits_parameters }
    }

    pub fn get_asd_traits_parameters(&self) -> (r: &Option<ASDTraits>)
        ensures
            *r == self.asd_traits_parameters,
    {
        &self.asd_traits_parameters
    }

    /// Record one more hint; a question that had no hint list yet gets one.
    pub fn add_hint(&mut self, hint: String)
        ensures
            final(self).hints is Some,
            match old(self).hints {
                Some(hs) => final(self).hints.unwrap()@ == hs@.push(hint),
                None => final(self).hints.unwrap()@ == seq![hint],
            },
            final(self).id == old(self).id,
            final(self).prompt == old(self).prompt,
            final(self).options == old(self).options,
            final(self).answer == old(self).answer,
            final(self).asd_traits_parameters == old(self).asd_traits_parameters,
    {
        match &mut self.hints {
            Some(hints) => {
                hints.push(hint);
            },
            None => {
                let mut hs: Vec<String> = Vec::new();
                hs.push(hint);
                self.hints = Some(hs);
            },
        }
    }

    pub fn get_id(&self) -> (r: &String)
        ensures
            *r == self.id,
    {
        &self.id
    }

    pub fn get_prompt(&self) -> (r: &Prompt)
        ensures
            *r == self.prompt,
    {
        &self.prompt
    }

    pub fn get_options(&self) -> (r: &Option<Vec<QuestionOption>>)
        ensures
            *r == self.options,
    {
        &self.options
    }

    pub fn get_answer(&self) -> (r: &Answer)
        ensures
            *r == self.answer,
    {
        &self.answer
    }

    pub fn get_hints(&self) -> (r: &Option<Vec<String>>)
        ensures
            *r == self.hints,
    {
        &self.hints
    }
}

impl Clone for Question {
    fn clone(&self) -> (r: Self)
        ensures
            r.equiv(*self),
    {
        Question {
            id: self.id.clone(),
            prompt: self.prompt.clone(),
            options: match &self.options {
                Some(v) => Some(clone_option_vec(v)),
                None => None,
            },
            answer: self.answer,
            hints: match &self.hints {
                Some(v) => Some(clone_string_vec(v)),
                None => None,
            },
            asd_traits_parameters: match &self.asd_traits_parameters {
                Some(t) => Some(t.clone()),
                None => None,
            },
        }
    }
}

fn clone_question_vec(v: &Vec<Question>) -> (r: Vec<Question>)
    ensures
        r@.len() == v@.len(),
        forall|i: int| 0 <= i < v@.len() ==> r@[i].equiv(#[trigger] v@[i]),
{
    let mut r: Vec<Question> = Vec::new();
    let mut i: usize = 0;
    while i < v.len()
        invariant
            i <= v@.len(),
            r@.len() == i,
            forall|j: int| 0 <= j < i ==> r@[j].equiv(#[trigger] v@[j]),
        decreases v@.len() - i,
    {
        r.push(v[i].clone());
        i += 1;
    }
    r
}

/// A unit of study: a named list of questions at a fixed difficulty level,
/// belonging to a module. Two lessons are the same lesson exactly when
/// their identities are equal.
#[derive(Debug)]
pub struct Lesson {
    pub id: String,
    pub name: String,
    pub questions: Vec<Question>,
    pub difficulty_level: DifficultyLevel,
    pub module_id: String,
}

impl Lesson {
    /// Two lessons carry the same data. This is equality up to the memory
    /// representation of the question list.
    pub open spec fn equiv(self, o: Lesson) -> bool {
        &&& self.id == o.id
        &&& self.name == o.name
        &&& self.difficulty_level == o.difficulty_level
        &&& self.module_id == o.module_id
        &&& self.questions@.len() == o.questions@.len()
        &&& forall|i: int|
            0 <= i < self.questions@.len() ==> self.questions@[i].equiv(#[trigger] o.questions@[i])
    }

    pub fn new(
        name: String,
        questions: Vec<Question>,
        difficulty_level: DifficultyLevel,
        module_id: String,
    ) -> (r: Lesson)
        ensures
            r.name == name,
            r.questions == questions,
            r.difficulty_level == difficulty_level,
            r.module_id == module_id,
            r.id@.len() == 36,
    {
        let id = new_id();
        Lesson { id, name, questions, difficulty_level, module_id }
    }

    pub fn add_question(&mut self, question: Question)
        ensures
            final(self).questions@ == old(self).questions@.push(question),
            final(self).id == old(self).id,
            final(self).name == old(self).name,
            final(self).difficulty_level == old(self).difficulty_level,
            final(self).module_id == old(self).module_id,
    {
        self.questions.push(question);
    }

    pub fn get_questions(&self) -> (r: &Vec<Question>)
        ensures
            *r == self.questions,
    {
        &self.questions
    }

    pub fn get_id(&self) -> (r: &String)
        ensures
            *r == self.id,
    {
        &self.id
    }

    pub fn get_module_id(&self) -> (r: &String)
        ensures
            *r == self.module_id,
    {
        &self.module_id
    }

    pub fn get_name(&self) -> (r: &String)
        ensures
            *r == self.name,
    {
        &self.name
    }

    pub fn get_difficulty_level(&self) -> (r: DifficultyLevel)
        ensures
            r == self.difficulty_level,
    {
        self.difficulty_level
    }
}

impl Clone for Lesson {
    fn clone(&self) -> (r: Self)
        ensures
            r.equiv(*self),
    {
        Lesson {
            id: self.id.clone(),
            name: self.name.clone(),
            questions: clone_question_vec(&self.questions),
            difficulty_level: self.difficulty_level,
            module_id: self.module_id.clone(),
        }
    }
}

/// A named unit of study: a list of lessons under one module.
#[derive(Debug)]
pub struct ContentModule {
    pub id: String,
    pub name: String,
    pub lessons: Vec<Lesson>,
}

impl ContentModule {
    pub fn new(name: String) -> (r: ContentModule)
        ensures
            r.name == name,
            r.lessons@.len() == 0,
            r.id@.len() == 36,
    {
        let id = new_id();
        ContentModule { id, name, lessons: Vec::new() }
    }

    /// Replace the module's lessons and hand back a copy of the result.
    pub fn with_lessons(&mut self, lessons: Vec<Lesson>) -> (r: ContentModule)
        ensures
            final(self).id == old(self).id,
            final(self).name == old(self).name,
            final(self).lessons == lessons,
            r.id == old(self).id,
            r.name == old(self).name,
            r.lessons@.len() == lessons@.len(),
            forall|i: int| 0 <= i < lessons@.len() ==> r.lessons@[i].equiv(#[trigger] lessons@[i]),
    {
        self.lessons = lessons;
        ContentModule {
            id: self.id.clone(),
            name: self.name.clone(),
            lessons: clone_lesson_vec(&self.lessons),
        }
    }

    pub fn add_lesson(&mut self, lesson: Lesson)
        ensures
            final(self).lessons@ == old(self).lessons@.push(lesson),
            final(self).id == old(self).id,
            final(self).name == old(self).name,
    {
        self.lessons.push(lesson);
    }

    pub fn get_id(&self) -> (r: &String)
        ensures
            *r == self.id,
    {
        &self.id
    }

    pub fn get_lessons(&self) -> (r: &Vec<Lesson>)
        ensures
            *r == self.lessons,
    {
        &self.lessons
    }

    pub fn get_name(&self) -> (r: &String)
        ensures
            *r == self.name,
    {
        &self.name
    }
}

/// A set of lessons a learner is working on, stamped with its creation
/// time in whole seconds since the Unix epoch.
#[derive(Debug)]
pub struct LessonPlan {
    pub id: String,
    pub name: String,
    pub date: String,
    pub lessons: Vec<Lesson>,
}

impl LessonPlan {
    pub fn new(name: String) -> (r: LessonPlan)
        ensures
            r.name == name,
            r.lessons@.len() == 0,
            r.id@.len() == 36,
    {
        let id = new_id();
        let date = crate::ids::timestamp_string();
        LessonPlan { id, name, date, lessons: Vec::new() }
    }

    pub fn add_lesson(&mut self, lesson: Lesson)
        ensures
            final(self).lessons@ == old(self).lessons@.push(lesson),
            final(self).id == old(self).id,
            final(self).name == old(self).name,
            final(self).date == old(self).date,
    {
        self.lessons.push(lesson);
    }

    pub fn get_id(&self) -> (r: &String)
        ensures
            *r == self.id,
    {
        &self.id
    }

    pub fn get_lessons(&self) -> (r: &Vec<Lesson>)
        ensures
            *r == self.lessons,
    {
        &self.lessons
    }

    pub fn get_date(&self) -> (r: &String)
        ensures
            *r == self.date,
    {
        &self.date
    }

    pub fn get_name(&self) -> (r: &String)
        ensures
            *r == self.name,
    {
        &self.name
    }
}

/// A learner's attempt at one question: the time it took, how many tries
/// were made, how many of those were wrong, and how many hints were asked
/// for (if hints are relevant to the question at all).
#[derive(Debug)]
pub struct QuestionAttempt {
    pub question_id: String,
    pub time_taken: i32,
    pub total_attempts: i32,
    pub incorrect_attempts: i32,
    pub hints_requested: Option<i32>,
}

impl QuestionAttempt {
    /// The counters of one attempt are counts: none is negative, and none
    /// exceeds a million, so that sums over a lesson stay exact.
    pub open spec fn wf(self) -> bool {
        &&& self.time_taken >= 0
        &&& 0 <= self.total_attempts <= 1000000
        &&& 0 <= self.incorrect_attempts <= 1000000
        &&& match self.hints_requested {
            Some(h) => 0 <= h <= 1000000,
            None => true,
        }
    }

    pub fn new(
        question_id: String,
        time_taken: i32,
        total_attempts: i32,
        incorrect_attempts: i32,
    ) -> (r: QuestionAttempt)
        ensures
            r.question_id == question_id,
            r.time_taken == time_taken,
            r.total_attempts == total_attempts,
            r.incorrect_attempts == incorrect_attempts,
            r.hints_requested is None,
    {
        QuestionAttempt {
            question_id,
            time_taken,
            total_attempts,
            incorrect_attempts,
            hints_requested: None,
        }
    }

    /// Record one more hint request; an attempt that had none yet gets one.
    pub fn increment_hints_requested(&mut self)
        requires
            match old(self).hints_requested {
                Some(h) => h < i32::MAX,
                None => true,
            },
        ensures
            final(self).hints_requested is Some,
            final(self).hints_requested.unwrap() == match old(self).hints_requested {
                Some(h) => h + 1,
                None => 1int,
            },
            final(self).question_id == old(self).question_id,
            final(self).time_taken == old(self).time_taken,
            final(self).total_attempts == old(self).total_attempts,
            final(self).incorrect_attempts == old(self).incorrect_attempts,
    {
        match &mut self.hints_requested {
            Some(hints_requested) => {
                *hints_requested += 1;
            },
            None => {
                self.hints_requested = Some(1);
            },
        }
    }

    pub fn get_question_id(&self) -> (r: &String)
        ensures
            *r == self.question_id,
    {
        &self.question_id
    }

    pub fn get_time_taken(&self) -> (r: &i32)
        ensures
            *r == self.time_taken,
    {
        &self.time_taken
    }

    pub fn get_total_attempts(&self) -> (r: &i32)
        ensures
            *r == self.total_attempts,
    {
        &self.total_attempts
    }

    pub fn get_incorrect_attempts(&self) -> (r: &i32)
        ensures
            *r == self.incorrect_attempts,
    {
        &self.incorrect_attempts
    }

    pub fn get_hints_requested(&self) -> (r: &Option<i32>)
        ensures
            *r == self.hints_requested,
    {
        &self.hints_requested
    }
}

impl Clone for QuestionAttempt {
    fn clone(&self) -> (r: Self)
        ensures
            r == *self,
    {
        QuestionAttempt {
            question_id: self.question_id.clone(),
            time_taken: self.time_taken,
            total_attempts: self.total_attempts,
            incorrect_attempts: self.incorrect_attempts,
            hints_requested: self.hints_requested,
        }
    }
}

/// The incorrect attempts summed over the first `n` question attempts.
pub open spec fn sum_incorrect(s: Seq<QuestionAttempt>, n: int) -> int
    decreases n,
{
    if n <= 0 {
        0
    } else {
        sum_incorrect(s, n - 1) + s[n - 1].incorrect_attempts as int
    }
}

/// The hint requests summed over the first `n` question attempts; an
/// attempt without a hints field counts as zero.
pub open spec fn sum_hints(s: Seq<QuestionAttempt>, n: int) -> int
    decreases n,
{
    if n <= 0 {
        0
    } else {
        sum_hints(s, n - 1) + match s[n - 1].hints_requested {
            Some(h) => h as int,
            None => 0,
        }
    }
}

/// Sums over well-formed attempts are non-negative and at most a million
/// per attempt.
pub proof fn lemma_sum_bounds(s: Seq<QuestionAttempt>, n: int)
    requires
        0 <= n <= s.len(),
        forall|i: int| 0 <= i < s.len() ==> (#[trigger] s[i]).wf(),
    ensures
        0 <= sum_incorrect(s, n) <= n * 1000000,
        0 <= sum_hints(s, n) <= n * 1000000,
    decreases n,
{
    if n > 0 {
        lemma_sum_bounds(s, n - 1);
    }
}

/// The outcome of a learner's attempt at a whole lesson.
#[derive(Debug)]
pub struct LessonResult {
    pub difficulty_level: DifficultyLevel,
    pub time_taken: i32,
    pub total_questions: i32,
    pub attempted_questions: Vec<QuestionAttempt>,
}

impl LessonResult {
    /// The counters of every question attempt are counts, and the list is
    /// short enough for their sums to be computed exactly.
    pub open spec fn wf(self) -> bool {
        &&& self.attempted_questions@.len() <= 1000000
        &&& self.time_taken >= 0
        &&& forall|i: int|
            0 <= i < self.attempted_questions@.len() ==> (
            #[trigger] self.attempted_questions@[i]).wf()
    }

    pub fn new(
        difficulty_level: DifficultyLevel,
        time_taken: i32,
        total_questions: i32,
        attempted_questions: Vec<QuestionAttempt>,
    ) -> (r: LessonResult)
        ensures
            r.difficulty_level == difficulty_level,
            r.time_taken == time_taken,
            r.total_questions == total_questions,
            r.attempted_questions == attempted_questions,
    {
        LessonResult { difficulty_level, time_taken, total_questions, attempted_questions }
    }

    pub fn get_difficulty_level(&self) -> (r: &DifficultyLevel)
        ensures
            *r == self.difficulty_level,
    {
        &self.difficulty_level
    }

    pub fn add_question_attempt(&mut self, question_attempt: QuestionAttempt)
        ensures
            final(self).attempted_questions@ == old(self).attempted_questions@.push(
                question_attempt,
            ),
            final(self).difficulty_level == old(self).difficulty_level,
            final(self).time_taken == old(self).time_taken,
            final(self).total_questions == old(self).total_questions,
    {
        self.attempted_questions.push(question_attempt);
    }

    pub fn get_time_taken(&self) -> (r: i32)
        ensures
            r == self.time_taken,
    {
        self.time_taken
    }

    /// The incorrect attempts summed over all question attempts.
    pub fn get_total_incorrect_attempts(&self) -> (r: i64)
        requires
            self.wf(),
        ensures
            r == sum_incorrect(self.attempted_questions@, self.attempted_questions@.len() as int),
            r >= 0,
    {
        let mut total: i64 = 0;
        let mut i: usize = 0;
        while i < self.attempted_questions.len()
            invariant
                self.wf(),
                i <= self.attempted_questions@.len(),
                total == sum_incorrect(self.attempted_questions@, i as int),
                0 <= total <= i * 0x7fffffff,
            decreases self.attempted_questions@.len() - i,
        {
            total = total + self.attempted_questions[i].incorrect_attempts as i64;
            i += 1;
        }
        total
    }

    /// The hint requests summed over all question attempts.
    pub fn get_total_hints_requested(&self) -> (r: i64)
        requires
            self.wf(),
        ensures
            r == sum_hints(self.attempted_questions@, self.attempted_questions@.len() as int),
            r >= 0,
    {
        let mut total: i64 = 0;
        let mut i: usize = 0;
        while i < self.attempted_questions.len()
            invariant
                self.wf(),
                i <= self.attempted_questions@.len(),
                total == sum_hints(self.attempted_questions@, i as int),
                0 <= total <= i * 0x7fffffff,
            decreases self.attempted_questions@.len() - i,
        {
            match self.attempted_questions[i].get_hints_requested() {
                Some(h) => {
                    total = total + *h as i64;
                },
                None => {},
            }
            i += 1;
        }
        total
    }

    pub fn get_total_questions(&self) -> (r: &i32)
        ensures
            *r == self.total_questions,
    {
        &self.total_questions
    }

    pub fn get_attempted_questions(&self) -> (r: &Vec<QuestionAttempt>)
        ensures
            *r == self.attempted_questions,
    {
        &self.attempted_questions
    }
}

impl Clone for LessonResult {
    fn clone(&self) -> (r: Self)
        ensures
            r.difficulty_level == self.difficulty_level,
            r.time_taken == self.time_taken,
            r.total_questions == self.total_questions,
            r.attempted_questions@ == self.attempted_questions@,
    {
        let mut qs: Vec<QuestionAttempt> = Vec::new();
        let mut i: usize = 0;
        while i < self.attempted_questions.len()
            invariant
                i <= self.attempted_questions@.len(),
                qs@ =~= self.attempted_questions@.subrange(0, i as int),
            decreases self.attempted_questions@.len() - i,
        {
            qs.push(self.attempted_questions[i].clone());
            i += 1;
        }
        proof {
            assert(qs@ =~= self.attempted_questions@);
        }
        LessonResult {
            difficulty_level: self.difficulty_level,
            time_taken: self.time_taken,
            total_questions: self.total_questions,
            attempted_questions: qs,
        }
    }
}

pub(crate) fn clone_lesson_vec(v: &Vec<Lesson>) -> (r: Vec<Lesson>)
    ensures
        r@.len() == v@.len(),
        forall|i: int| 0 <= i < v@.len() ==> r@[i].equiv(#[trigger] v@[i]),
{
    let mut r: Vec<Lesson> = Vec::new();
    let mut i: usize = 0;
    while i < v.len()
        invariant
            i <= v@.len(),
            r@.len() == i,
            forall|j: int| 0 <= j < i ==> r@[j].equiv(#[trigger] v@[j]),
        decreases v@.len() - i,
    {
        r.push(v[i].clone());
        i += 1;
    }
    r
}

} // verus!

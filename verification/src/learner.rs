//! The learner model: trait profiles and the learner's lesson history.

use vstd::prelude::*;

use vstd::arithmetic::div_mod::{lemma_div_is_ordered, lemma_div_pos_is_pos};
use vstd::arithmetic::mul::lemma_mul_upper_bound;

use crate::content::{Lesson, LessonPlan};
use crate::fixed::UNIT;
use crate::ids::new_id;

verus! {

/// A mode in which a learner can communicate. A learner who lacks a mode is
/// assumed to struggle to communicate in that manner.
#[derive(Clone, Copy, Debug, PartialEq, Eq, Structural)]
pub enum Communicability {
    Verbal,
    NonVerbal,
}

/// How strongly the learner communicates in the modes they have.
#[derive(Clone, Copy, Debug, PartialEq, Eq, Structural)]
pub enum CommunicationLevel {
    High,
    Medium,
    Low,
}

/// The learner's motor-skills level.
#[derive(Clone, Copy, Debug, PartialEq, Eq, Structural)]
pub enum MotorSkills {
    VeryHigh,
    High,
    Medium,
    Low,
}

/// A learner's trait profile: attention span in minutes, the set of
/// communicability modes, a communication level and a motor-skills level.
/// Immutable once constructed.
#[derive(Debug)]
pub struct ASDTraits {
    pub learner_id: String,
    pub attention_span: i32,
    pub communicability: Vec<Communicability>,
    pub communication_level: CommunicationLevel,
    pub motor_skills: MotorSkills,
}

impl ASDTraits {
    /// Two profiles carry the same data. This is equality up to the memory
    /// representation of the communicability list.
    pub open spec fn equiv(self, o: ASDTraits) -> bool {
        &&& self.learner_id == o.learner_id
        &&& self.attention_span == o.attention_span
        &&& self.communicability@ == o.communicability@
        &&& self.communication_level == o.communication_level
        &&& self.motor_skills == o.motor_skills
    }

    pub fn new(
        learner_id: String,
        attention_span: i32,
        communicability: Vec<Communicability>,
        communication_level: CommunicationLevel,
        motor_skills: MotorSkills,
    ) -> (r: ASDTraits)
        ensures
            r.learner_id == learner_id,
            r.attention_span == attention_span,
            r.communicability == communicability,
            r.communication_level == communication_level,
            r.motor_skills == motor_skills,
    {
        ASDTraits { learner_id, attention_span, communicability, communication_level, motor_skills }
    }

    pub fn get_learner_id(&self) -> (r: &String)
        ensures
            *r == self.learner_id,
    {
        &self.learner_id
    }

    pub fn get_attention_span(&self) -> (r: &i32)
        ensures
            *r == self.attention_span,
    {
        &self.attention_span
    }

    pub fn get_communicability(&self) -> (r: &Vec<Communicability>)
        ensures
            *r == self.communicability,
    {
        &self.communicability
    }

    pub fn get_communication_level(&self) -> (r: &CommunicationLevel)
        ensures
            *r == self.communication_level,
    {
        &self.communication_level
    }

    pub fn get_motor_skills(&self) -> (r: &MotorSkills)
        ensures
            *r == self.motor_skills,
    {
        &self.motor_skills
    }
}

impl Clone for ASDTraits {
    fn clone(&self) -> (r: Self)
        ensures
            r.equiv(*self),
    {
        let mut comm: Vec<Communicability> = Vec::new();
        let mut i: usize = 0;
        while i < self.communicability.len()
            invariant
                i <= self.communicability@.len(),
                comm@ =~= self.communicability@.subrange(0, i as int),
            decreases self.communicability@.len() - i,
        {
            comm.push(self.communicability[i]);
            i += 1;
        }
        proof {
            assert(comm@ =~= self.communicability@);
        }
        ASDTraits {
            learner_id: self.learner_id.clone(),
            attention_span: self.attention_span,
            communicability: comm,
            communication_level: self.communication_level,
            motor_skills: self.motor_skills,
        }
    }
}

/// Whether a communicability list contains the given mode.
pub open spec fn comm_contains_spec(v: Seq<Communicability>, c: Communicability) -> bool {
    exists|i: int| 0 <= i < v.len() && v[i] == c
}

fn comm_contains(v: &Vec<Communicability>, c: Communicability) -> (r: bool)
    ensures
        r == comm_contains_spec(v@, c),
{
    let mut i: usize = 0;
    while i < v.len()
        invariant
            i <= v@.len(),
            forall|j: int| 0 <= j < i ==> v@[j] != c,
        decreases v@.len() - i,
    {
        if v[i] == c {
            return true;
        }
        i += 1;
    }
    false
}

/// How many of the first `n` modes of `l` also occur in `t`.
pub open spec fn comm_match_count(l: Seq<Communicability>, t: Seq<Communicability>, n: int) -> int
    decreases n,
{
    if n <= 0 {
        0
    } else {
        comm_match_count(l, t, n - 1) + if comm_contains_spec(t, l[n - 1]) {
            1int
        } else {
            0int
        }
    }
}

/// Communication-level alignment in micro-units: full when the learner is
/// at or above the target level, half for one step below, zero for two.
pub open spec fn comm_level_align_spec(l: CommunicationLevel, t: CommunicationLevel) -> int {
    match l {
        CommunicationLevel::High => UNIT as int,
        CommunicationLevel::Medium => match t {
            CommunicationLevel::High => (UNIT / 2) as int,
            _ => UNIT as int,
        },
        CommunicationLevel::Low => match t {
            CommunicationLevel::High => 0,
            CommunicationLevel::Medium => (UNIT / 2) as int,
            CommunicationLevel::Low => UNIT as int,
        },
    }
}

/// Motor-skills alignment in micro-units: full at or above the target,
/// then a half, a quarter and zero for one, two and three steps below.
pub open spec fn motor_align_spec(l: MotorSkills, t: MotorSkills) -> int {
    match l {
        MotorSkills::VeryHigh => UNIT as int,
        MotorSkills::High => match t {
            MotorSkills::VeryHigh => (UNIT / 2) as int,
            _ => UNIT as int,
        },
        MotorSkills::Medium => match t {
            MotorSkills::VeryHigh => (UNIT / 4) as int,
            MotorSkills::High => (UNIT / 2) as int,
            _ => UNIT as int,
        },
        MotorSkills::Low => match t {
            MotorSkills::VeryHigh => 0,
            MotorSkills::High => (UNIT / 4) as int,
            MotorSkills::Medium => (UNIT / 2) as int,
            MotorSkills::Low => UNIT as int,
        },
    }
}

/// The overall alignment of a learner's profile `l` against a target
/// profile `t`, in micro-units.
///
/// Attention-span alignment is `min(l.attention / t.attention, 1)`. The
/// communicability overlap `|l ∩ t| / |t|` is scaled by the
/// communication-level alignment (a mode without the competence to use it
/// is not a real capability). The weighted sum gives attention 0.4 and the
/// other three factors 0.2 each.
pub open spec fn alignment_spec(l: ASDTraits, t: ASDTraits) -> int {
    let att = if l.attention_span as int * (UNIT as int) / (t.attention_span as int) > UNIT as int {
        UNIT as int
    } else {
        l.attention_span as int * (UNIT as int) / (t.attention_span as int)
    };
    let comm_raw = comm_match_count(l.communicability@, t.communicability@, l.communicability@.len() as int)
        * (UNIT as int) / (t.communicability@.len() as int);
    let level = comm_level_align_spec(l.communication_level, t.communication_level);
    let comm = comm_raw * level / (UNIT as int);
    let motor = motor_align_spec(l.motor_skills, t.motor_skills);
    (4 * att + 2 * comm + 2 * level + 2 * motor) / 10
}

impl ASDTraits {
    /// The profile's numbers are sensible: a non-negative attention span
    /// and at most one entry per communicability mode.
    pub open spec fn wf(self) -> bool {
        &&& self.attention_span >= 0
        &&& self.communicability@.len() <= 2
        &&& forall|i: int, j: int|
            0 <= i < j < self.communicability@.len() ==> self.communicability@[i]
                != self.communicability@[j]
    }

    /// How well this learner's profile aligns with a target profile, in
    /// micro-units. The target must have a positive attention span and at
    /// least one communicability mode, else the ratios are undefined.
    #[verifier::rlimit(50)]
    pub fn calculate_alignment(&self, other: &ASDTraits) -> (r: i64)
        requires
            self.wf(),
            other.wf(),
            other.attention_span > 0,
            other.communicability@.len() > 0,
        ensures
            r == alignment_spec(*self, *other),
            0 <= r <= UNIT,
    {
        let att_num: i64 = (self.attention_span as i64) * UNIT;
        let att_raw: i64 = att_num / (other.attention_span as i64);
        let att: i64 = if att_raw > UNIT {
            UNIT
        } else {
            att_raw
        };

        let mut matches: i64 = 0;
        let mut i: usize = 0;
        while i < self.communicability.len()
            invariant
                self.communicability@.len() <= 2,
                i <= self.communicability@.len(),
                matches == comm_match_count(
                    self.communicability@,
                    other.communicability@,
                    i as int,
                ),
                0 <= matches <= i,
            decreases self.communicability@.len() - i,
        {
            if comm_contains(&other.communicability, self.communicability[i]) {
                matches = matches + 1;
            }
            i += 1;
        }
        proof {
            lemma_comm_match_le_target(self.communicability@, other.communicability@);
        }

        let tlen: i64 = other.communicability.len() as i64;
        let comm_raw: i64 = matches * UNIT / tlen;
        proof {
            lemma_div_pos_is_pos(matches as int * UNIT as int, tlen as int);
            lemma_mul_upper_bound(matches as int, tlen as int, UNIT as int, UNIT as int);
            lemma_div_is_ordered(
                matches as int * UNIT as int,
                tlen as int * UNIT as int,
                tlen as int,
            );
            vstd::arithmetic::div_mod::lemma_div_multiples_vanish(UNIT as int, tlen as int);
            assert(0 <= comm_raw as int <= UNIT as int);
        }

        let level: i64 = match (self.communication_level, other.communication_level) {
            (CommunicationLevel::High, _) => UNIT,
            (CommunicationLevel::Medium, CommunicationLevel::High) => UNIT / 2,
            (CommunicationLevel::Medium, _) => UNIT,
            (CommunicationLevel::Low, CommunicationLevel::High) => 0,
            (CommunicationLevel::Low, CommunicationLevel::Medium) => UNIT / 2,
            (CommunicationLevel::Low, CommunicationLevel::Low) => UNIT,
        };

        proof {
            lemma_mul_upper_bound(comm_raw as int, UNIT as int, level as int, UNIT as int);
            vstd::arithmetic::mul::lemma_mul_nonnegative(comm_raw as int, level as int);
        }
        let comm: i64 = comm_raw * level / UNIT;
        proof {
            lemma_div_pos_is_pos(comm_raw as int * level as int, UNIT as int);
            lemma_div_is_ordered(
                comm_raw as int * level as int,
                UNIT as int * UNIT as int,
                UNIT as int,
            );
            vstd::arithmetic::div_mod::lemma_div_multiples_vanish(UNIT as int, UNIT as int);
            assert(0 <= comm as int <= UNIT as int);
        }

        let motor: i64 = match (self.motor_skills, other.motor_skills) {
            (MotorSkills::VeryHigh, _) => UNIT,
            (MotorSkills::High, MotorSkills::VeryHigh) => UNIT / 2,
            (MotorSkills::High, _) => UNIT,
            (MotorSkills::Medium, MotorSkills::VeryHigh) => UNIT / 4,
            (MotorSkills::Medium, MotorSkills::High) => UNIT / 2,
            (MotorSkills::Medium, _) => UNIT,
            (MotorSkills::Low, MotorSkills::VeryHigh) => 0,
            (MotorSkills::Low, MotorSkills::High) => UNIT / 4,
            (MotorSkills::Low, MotorSkills::Medium) => UNIT / 2,
            (MotorSkills::Low, MotorSkills::Low) => UNIT,
        };

        let num: i64 = 4 * att + 2 * comm + 2 * level + 2 * motor;
        let r: i64 = num / 10;
        proof {
            lemma_div_pos_is_pos(num as int, 10);
            lemma_div_is_ordered(num as int, 10 * UNIT as int, 10);
            vstd::arithmetic::div_mod::lemma_div_multiples_vanish(UNIT as int, 10);
            lemma_div_pos_is_pos(att_num as int, other.attention_span as int);
        }
        r
    }
}

/// No more modes of a duplicate-free list `l` can occur in `t` than `t`
/// itself has modes.
proof fn lemma_comm_match_le_target(l: Seq<Communicability>, t: Seq<Communicability>)
    requires
        l.len() <= 2,
        forall|i: int, j: int| 0 <= i < j < l.len() ==> l[i] != l[j],
        t.len() >= 1,
    ensures
        0 <= comm_match_count(l, t, l.len() as int) <= t.len(),
{
    assert(comm_match_count(l, t, 0) == 0);
    if l.len() >= 1 {
        assert(comm_match_count(l, t, 1) == comm_match_count(l, t, 0) + if comm_contains_spec(
            t,
            l[0],
        ) {
            1int
        } else {
            0int
        });
    }
    if l.len() == 2 {
        assert(comm_match_count(l, t, 2) == comm_match_count(l, t, 1) + if comm_contains_spec(
            t,
            l[1],
        ) {
            1int
        } else {
            0int
        });
        if t.len() == 1 && comm_contains_spec(t, l[0]) && comm_contains_spec(t, l[1]) {
            assert(t[0] == l[0]);
            assert(t[0] == l[1]);
            assert(false);
        }
    }
}

/// A learner: identity, age, trait profile, and an append-only history of
/// lesson plans. The first lesson of the most recent plan is the learner's
/// current lesson.
#[derive(Debug)]
pub struct Learner {
    pub id: String,
    pub name: String,
    pub age: u8,
    pub lesson_plans: Vec<LessonPlan>,
    pub asd_traits: ASDTraits,
    pub q_table_id: String,
}

impl Learner {
    /// The learner has a current lesson to attempt.
    pub open spec fn has_current_lesson(self) -> bool {
        &&& self.lesson_plans@.len() > 0
        &&& self.lesson_plans@.last().lessons@.len() > 0
    }

    /// The learner's current lesson: the first lesson of the latest plan.
    pub open spec fn current_lesson_spec(self) -> Lesson {
        self.lesson_plans@.last().lessons@[0]
    }

    pub fn new(
        name: String,
        age: u8,
        asd_traits: ASDTraits,
        q_table_id: String,
        learner_id: Option<String>,
    ) -> (r: Learner)
        ensures
            r.name == name,
            r.age == age,
            r.asd_traits == asd_traits,
            r.q_table_id == q_table_id,
            r.lesson_plans@.len() == 0,
            match learner_id {
                Some(id) => r.id == id,
                None => r.id@.len() == 36,
            },
    {
        let id = match learner_id {
            Some(id) => id,
            None => new_id(),
        };
        Learner { id, name, age, lesson_plans: Vec::new(), asd_traits, q_table_id }
    }

    pub fn add_lesson_plan(&mut self, lesson_plan: LessonPlan)
        ensures
            final(self).lesson_plans@ == old(self).lesson_plans@.push(lesson_plan),
            final(self).id == old(self).id,
            final(self).name == old(self).name,
            final(self).age == old(self).age,
            final(self).asd_traits == old(self).asd_traits,
            final(self).q_table_id == old(self).q_table_id,
    {
        self.lesson_plans.push(lesson_plan);
    }

    /// Append a fresh single-lesson plan holding the given lesson, which
    /// becomes the learner's current lesson.
    pub fn set_current_lesson(&mut self, lesson: Lesson)
        ensures
            final(self).lesson_plans@.len() == old(self).lesson_plans@.len() + 1,
            final(self).lesson_plans@.subrange(0, old(self).lesson_plans@.len() as int) == old(
                self,
            ).lesson_plans@,
            final(self).lesson_plans@.last().lessons@ == seq![lesson],
            final(self).lesson_plans@.last().name@ == lesson.name@,
            final(self).has_current_lesson(),
            final(self).current_lesson_spec() == lesson,
            final(self).id == old(self).id,
            final(self).name == old(self).name,
            final(self).age == old(self).age,
            final(self).asd_traits == old(self).asd_traits,
            final(self).q_table_id == old(self).q_table_id,
    {
        let mut new_lesson_plan = LessonPlan::new(lesson.get_name().clone());
        new_lesson_plan.add_lesson(lesson);
        self.lesson_plans.push(new_lesson_plan);
        proof {
            assert(final(self).lesson_plans@.subrange(0, old(self).lesson_plans@.len() as int)
                =~= old(self).lesson_plans@);
            assert(final(self).lesson_plans@.last().lessons@ =~= seq![lesson]);
        }
    }

    pub fn get_lesson_plans(&self) -> (r: &Vec<LessonPlan>)
        ensures
            *r == self.lesson_plans,
    {
        &self.lesson_plans
    }

    /// The first lesson of the latest plan.
    pub fn get_current_lesson(&self) -> (r: &Lesson)
        requires
            self.has_current_lesson(),
        ensures
            *r == self.current_lesson_spec(),
    {
        let latest_plan = &self.lesson_plans[self.lesson_plans.len() - 1];
        &latest_plan.get_lessons()[0]
    }

    pub fn get_id(&self) -> (r: &String)
        ensures
            *r == self.id,
    {
        &self.id
    }

    pub fn get_name(&self) -> (r: &String)
        ensures
            *r == self.name,
    {
        &self.name
    }

    pub fn get_age(&self) -> (r: &u8)
        ensures
            *r == self.age,
    {
        &self.age
    }

    pub fn get_asd_traits(&self) -> (r: &ASDTraits)
        ensures
            *r == self.asd_traits,
    {
        &self.asd_traits
    }

    pub fn get_q_table_id(&self) -> (r: &String)
        ensures
            *r == self.q_table_id,
    {
        &self.q_table_id
    }
}

} // verus!

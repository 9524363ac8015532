//! The per-learner Q-learning engine.
//!
//! A `QTableAlgorithm` owns one learner's Q-table for one module: a list of
//! (lesson, difficulty) entries with a fixed-point value each, together
//! with the per-difficulty bookkeeping that drives decay and reinforcement.
//! The learning rate is 3/4 and the discount factor 1/4; both are fixed.
//!
//! Every randomized decision takes its uniform draw (a micro-unit value in
//! `[0, UNIT)`) as an argument, so the whole engine is deterministic given
//! the drawn values and a run can be reproduced from a seed.

use vstd::prelude::*;

use crate::content::{DifficultyLevel, Lesson, LessonResult};
use crate::fixed::{clamp_unit, clamp_unit_spec, tdiv, tdiv_i64, lemma_tdiv_bounds, lemma_tdiv_ordered, UNIT};
use crate::ids::new_id;

verus! {

/// A level whose best Q-value is at or below this is a weak level.
pub const WEAK_THRESHOLD: i64 = 500000;

/// With Competent mastery the learner advances with this probability.
pub const COMPETENT_ADVANCE_PROBABILITY: i64 = 600000;

/// Rewards at or above these thresholds earn Basic, Competent and Full
/// mastery respectively.
pub const BASIC_MASTERY_THRESHOLD: i64 = 500000;
pub const COMPETENT_MASTERY_THRESHOLD: i64 = 700000;
pub const FULL_MASTERY_THRESHOLD: i64 = 800000;

/// How thoroughly one lesson attempt mastered its level. `NoMastery` is
/// the grade below `Basic`.
#[derive(Clone, Copy, Debug, PartialEq, Eq, Structural)]
pub enum Mastery {
    NoMastery,
    Basic,
    Competent,
    Full,
}

/// The algorithm variant the engine runs.
#[derive(Clone, Copy, Debug, PartialEq, Eq, Structural)]
pub enum Strategy {
    BaseQLearning,
    MasteryThresholds,
    DecayingQValues,
    TraitSensitivity,
}

/// One Q-table entry: a (lesson, difficulty) pair and its value in
/// micro-units.
#[derive(Debug)]
pub struct QEntry {
    pub lesson: Lesson,
    pub difficulty: DifficultyLevel,
    pub value: i64,
}

/// Whether the entry is keyed by the given lesson identity and difficulty.
pub open spec fn entry_matches(e: QEntry, id: Seq<char>, d: DifficultyLevel) -> bool {
    e.lesson.id@ == id && e.difficulty == d
}

/// Whether any of the first `n` entries sits at difficulty `d`.
pub open spec fn has_at_upto(s: Seq<QEntry>, d: DifficultyLevel, n: int) -> bool
    decreases n,
{
    if n <= 0 {
        false
    } else {
        has_at_upto(s, d, n - 1) || s[n - 1].difficulty == d
    }
}

/// Whether any entry sits at difficulty `d`.
pub open spec fn has_at(s: Seq<QEntry>, d: DifficultyLevel) -> bool {
    has_at_upto(s, d, s.len() as int)
}

/// The best value among the first `n` entries at difficulty `d`, or 0 when
/// none of them sits there.
pub open spec fn max_q_upto(s: Seq<QEntry>, d: DifficultyLevel, n: int) -> int
    decreases n,
{
    if n <= 0 {
        0
    } else {
        let prev = max_q_upto(s, d, n - 1);
        if s[n - 1].difficulty == d {
            if has_at_upto(s, d, n - 1) && prev >= s[n - 1].value as int {
                prev
            } else {
                s[n - 1].value as int
            }
        } else {
            prev
        }
    }
}

/// The best value among the entries at difficulty `d`, or 0 when the level
/// has no entry.
pub open spec fn max_q_at(s: Seq<QEntry>, d: DifficultyLevel) -> int {
    max_q_upto(s, d, s.len() as int)
}

/// Whether any entry is keyed by this lesson identity and difficulty.
pub open spec fn has_key(s: Seq<QEntry>, id: Seq<char>, d: DifficultyLevel) -> bool {
    exists|i: int| 0 <= i < s.len() && entry_matches(s[i], id, d)
}

/// The value stored under this key (meaningful only when the key is there
/// and keys are unique).
pub open spec fn lookup(s: Seq<QEntry>, id: Seq<char>, d: DifficultyLevel) -> int {
    s[choose|i: int| 0 <= i < s.len() && entry_matches(s[i], id, d)].value as int
}

/// The initial number of decay events allowed at the difficulty with index
/// `k`: easier levels decay fewer times.
pub open spec fn initial_decay_counter(k: int) -> int {
    k + 2
}

/// How many iterations a previously-attempted level may go unattempted
/// before a decay event fires at it.
pub open spec fn decay_threshold_spec(k: int) -> int {
    if k == 0 {
        2000
    } else if k == 1 {
        1750
    } else if k == 2 {
        1600
    } else if k == 3 {
        1400
    } else if k == 4 {
        1200
    } else if k == 5 {
        1050
    } else if k == 6 {
        900
    } else {
        750
    }
}

fn decay_threshold(k: usize) -> (r: i64)
    requires
        k < 8,
    ensures
        r == decay_threshold_spec(k as int),
        r > 0,
{
    if k == 0 {
        2000
    } else if k == 1 {
        1750
    } else if k == 2 {
        1600
    } else if k == 3 {
        1400
    } else if k == 4 {
        1200
    } else if k == 5 {
        1050
    } else if k == 6 {
        900
    } else {
        750
    }
}

/// The lower edge of the expected time band, in seconds, for a lesson at
/// difficulty `d`.
pub open spec fn band_lower_spec(d: DifficultyLevel) -> int {
    match d {
        DifficultyLevel::VeryEasy => 5,
        DifficultyLevel::Easy => 10,
        DifficultyLevel::Medium => 20,
        DifficultyLevel::Hard => 30,
        DifficultyLevel::VeryHard => 40,
        DifficultyLevel::Expert => 50,
        DifficultyLevel::Master => 60,
        DifficultyLevel::Grandmaster => 70,
    }
}

/// The upper edge of the expected time band, in seconds.
pub open spec fn band_upper_spec(d: DifficultyLevel) -> int {
    match d {
        DifficultyLevel::VeryEasy => 10,
        DifficultyLevel::Easy => 15,
        DifficultyLevel::Medium => 30,
        DifficultyLevel::Hard => 40,
        DifficultyLevel::VeryHard => 50,
        DifficultyLevel::Expert => 60,
        DifficultyLevel::Master => 70,
        DifficultyLevel::Grandmaster => 80,
    }
}

/// The time sub-reward in micro-units: full reward at or below the band's
/// lower edge, and otherwise `1 - excess / range`, where the excess is
/// measured from the band's midpoint. Faster than the midpoint earns more
/// than the base; a heavy overrun can push the value below zero (the final
/// reward is clamped later).
pub open spec fn time_reward_spec(d: DifficultyLevel, t: int) -> int {
    let lo = band_lower_spec(d);
    let hi = band_upper_spec(d);
    if t <= lo {
        UNIT as int
    } else {
        UNIT as int - tdiv((2 * t - (hi + lo)) * UNIT as int, 2 * (hi - lo))
    }
}

/// The sub-reward for a count of faults out of `total` answered
/// questions: full reward for a clean run, else `1 - count / total`.
pub open spec fn ratio_reward_spec(count: int, total: int) -> int {
    if count == 0 {
        UNIT as int
    } else {
        UNIT as int - tdiv(count * UNIT as int, total)
    }
}

/// The unclamped reward of one lesson attempt: the weighted sum of the
/// time, incorrect-attempts and hints sub-rewards. The written weights are
/// 0.3, 0.5 and 0.2 times the difficulty weight, renormalized by dividing
/// the sum by that same weight, so the difficulty weight cancels exactly
/// and the reward is `(3 t + 5 i + 2 h) / 10`.
pub open spec fn raw_reward_spec(result: LessonResult, d: DifficultyLevel) -> int {
    let n = result.attempted_questions@.len() as int;
    let t = time_reward_spec(d, result.time_taken as int);
    let inc = ratio_reward_spec(crate::content::sum_incorrect(result.attempted_questions@, n), n);
    let h = ratio_reward_spec(crate::content::sum_hints(result.attempted_questions@, n), n);
    tdiv(3 * t + 5 * inc + 2 * h, 10)
}

/// The reward of one lesson attempt, clamped into `[-1.0, 1.0]`.
pub open spec fn clamped_reward_spec(result: LessonResult, d: DifficultyLevel) -> int {
    clamp_unit_spec(raw_reward_spec(result, d))
}

/// The mastery grade a clamped reward earns.
pub open spec fn classify_spec(r: int) -> Mastery {
    if r >= FULL_MASTERY_THRESHOLD as int {
        Mastery::Full
    } else if r >= COMPETENT_MASTERY_THRESHOLD as int {
        Mastery::Competent
    } else if r >= BASIC_MASTERY_THRESHOLD as int {
        Mastery::Basic
    } else {
        Mastery::NoMastery
    }
}

/// The mastery grade the update reports: none under plain Q-learning,
/// else the grade of the clamped reward.
pub open spec fn mastery_spec(strategy: Strategy, r: int) -> Option<Mastery> {
    if strategy == Strategy::BaseQLearning {
        None
    } else {
        Some(classify_spec(r))
    }
}

/// The reward after the mastery adjustment: full mastery earns the whole
/// unit, Competent a bonus of 0.1, Basic nothing, and the grade below
/// Basic a penalty of 0.1. Plain Q-learning applies no adjustment.
pub open spec fn adjusted_reward_spec(strategy: Strategy, r: int) -> int {
    if strategy == Strategy::BaseQLearning {
        r
    } else {
        match classify_spec(r) {
            Mastery::Full => UNIT as int,
            Mastery::Competent => r + 100000,
            Mastery::Basic => r,
            Mastery::NoMastery => r - 100000,
        }
    }
}

/// The Bellman step with learning rate 3/4 and discount factor 1/4:
/// `q + 3/4 (r + 1/4 m - q)`, which is `(4 q + 12 r + 3 m) / 16`, capped
/// above at one whole unit. The lower end is not capped here; the reward
/// clamp keeps it in range.
pub open spec fn q_update_spec(q: int, r: int, m: int) -> int {
    let v = tdiv(4 * q + 12 * r + 3 * m, 16);
    if v > UNIT as int {
        UNIT as int
    } else {
        v
    }
}

/// The mastery-adjusted reward stays within `[-1.1, 1.0]`.
pub proof fn lemma_adjusted_reward_range(strategy: Strategy, r: int)
    requires
        -(UNIT as int) <= r <= UNIT as int,
    ensures
        -1100000 <= adjusted_reward_spec(strategy, r) <= UNIT as int,
{
}

/// The Bellman step keeps values in `[-1.0, 1.0]` as long as the adjusted
/// reward does not fall below `-3/4`.
pub proof fn lemma_q_update_unit_bounds(q: int, r: int, m: int)
    requires
        -(UNIT as int) <= q <= UNIT as int,
        -(UNIT as int) <= m <= UNIT as int,
        -750000 <= r <= UNIT as int,
    ensures
        -(UNIT as int) <= q_update_spec(q, r, m) <= UNIT as int,
{
    let num = 4 * q + 12 * r + 3 * m;
    assert(num >= -16 * UNIT);
    assert(num <= 19 * UNIT);
    lemma_tdiv_ordered(-16 * UNIT, num, 16);
    vstd::arithmetic::div_mod::lemma_div_multiples_vanish(UNIT as int, 16);
    assert((16 * UNIT as int) / 16 == UNIT as int);
    assert(tdiv(-16 * UNIT as int, 16) == -(UNIT as int));
}

/// The Bellman step keeps values in `[-2.0, 1.0]` for any reward the
/// engine can produce.
pub proof fn lemma_q_update_loose_bounds(q: int, r: int, m: int)
    requires
        -2 * UNIT as int <= q <= UNIT as int,
        -2 * UNIT as int <= m <= UNIT as int,
        -1100000 <= r <= UNIT as int,
    ensures
        -2 * UNIT as int <= q_update_spec(q, r, m) <= UNIT as int,
{
    let num = 4 * q + 12 * r + 3 * m;
    assert(num >= -32 * UNIT);
    lemma_tdiv_ordered(-32 * UNIT, num, 16);
    vstd::arithmetic::div_mod::lemma_div_multiples_vanish(2 * UNIT as int, 16);
    assert((16 * (2 * UNIT as int)) / 16 == 2 * UNIT as int);
    assert(tdiv(-32 * UNIT as int, 16) == -2 * UNIT as int);
}

/// A clean outcome earns the full reward: with no incorrect attempts, no
/// hints, and a time at or under the band's lower edge, the clamped
/// reward is a whole unit, which grades as Full mastery, and the
/// adjusted reward is a whole unit under every strategy.
pub proof fn lemma_perfect_result_reward(result: LessonResult, d: DifficultyLevel, strategy: Strategy)
    requires
        result.wf(),
        crate::content::sum_incorrect(
            result.attempted_questions@,
            result.attempted_questions@.len() as int,
        ) == 0,
        crate::content::sum_hints(
            result.attempted_questions@,
            result.attempted_questions@.len() as int,
        ) == 0,
        result.time_taken <= band_lower_spec(d),
    ensures
        clamped_reward_spec(result, d) == UNIT as int,
        classify_spec(UNIT as int) == Mastery::Full,
        adjusted_reward_spec(strategy, UNIT as int) == UNIT as int,
        strategy != Strategy::BaseQLearning ==> mastery_spec(strategy, clamped_reward_spec(result, d))
            == Some(Mastery::Full),
{
    vstd::arithmetic::div_mod::lemma_div_multiples_vanish(UNIT as int, 10);
    assert((10 * UNIT as int) / 10 == UNIT as int);
    assert(raw_reward_spec(result, d) == tdiv(10 * UNIT as int, 10));
}

/// A full-unit reward never lowers a Q-value that lies in `[-1.0, 1.0]`,
/// and strictly raises one that is not already within a rounding step of
/// the top, as long as the discounted next level is not negative.
pub proof fn lemma_full_reward_pushes_up(q: int, m: int)
    requires
        -(UNIT as int) <= q <= UNIT as int,
        0 <= m <= UNIT as int,
    ensures
        q_update_spec(q, UNIT as int, m) >= q,
        q <= UNIT as int - 2 ==> q_update_spec(q, UNIT as int, m) > q,
{
    let num = 4 * q + 12 * UNIT as int + 3 * m;
    assert(num > 0);
    vstd::arithmetic::div_mod::lemma_div_is_ordered(16 * q, num, 16);
    vstd::arithmetic::div_mod::lemma_div_multiples_vanish(q, 16);
    assert((16 * q) / 16 == q);
    if q <= UNIT as int - 2 {
        vstd::arithmetic::div_mod::lemma_div_is_ordered(16 * (q + 1), num, 16);
        vstd::arithmetic::div_mod::lemma_div_multiples_vanish(q + 1, 16);
        assert((16 * (q + 1)) / 16 == q + 1);
    }
}

/// Under the strategies without decay, an update leaves every entry with
/// a different key exactly as it was (the table only grows).
pub proof fn lemma_no_decay_update_keeps_other_entries(
    og: QTableAlgorithm,
    fin: QTableAlgorithm,
    lesson: Lesson,
    d: DifficultyLevel,
    result: LessonResult,
    r: Option<Mastery>,
    draw: int,
    i: int,
)
    requires
        update_relation(og, fin, lesson, d, result, r, draw),
        og.strategy == Strategy::BaseQLearning || og.strategy == Strategy::MasteryThresholds,
        0 <= i < og.entries@.len(),
        !entry_matches(og.entries@[i], lesson.id@, d),
    ensures
        fin.entries@.len() >= og.entries@.len(),
        fin.entries@[i] == og.entries@[i],
{
}

/// Under the strategies without decay, the updated state's entry holds
/// exactly the Bellman step of its old value, the adjusted reward, and
/// the best value at the level the next-difficulty rule chose.
pub proof fn lemma_no_decay_update_stores_bellman(
    og: QTableAlgorithm,
    fin: QTableAlgorithm,
    lesson: Lesson,
    d: DifficultyLevel,
    result: LessonResult,
    r: Option<Mastery>,
    draw: int,
)
    requires
        update_relation(og, fin, lesson, d, result, r, draw),
        og.wf(),
        og.strategy == Strategy::BaseQLearning || og.strategy == Strategy::MasteryThresholds,
    ensures
        has_key(fin.entries@, lesson.id@, d),
        lookup(fin.entries@, lesson.id@, d) == ({
            let reward = clamped_reward_spec(result, d);
            let r_adj = adjusted_reward_spec(og.strategy, reward);
            let nk = og.next_index_spec(d, mastery_spec(og.strategy, reward), draw);
            let nm = max_q_at(og.entries@, DifficultyLevel::spec_from_index(nk));
            let old_v = if has_key(og.entries@, lesson.id@, d) {
                lookup(og.entries@, lesson.id@, d)
            } else {
                0
            };
            q_update_spec(old_v, r_adj, nm)
        }),
{
    let reward = clamped_reward_spec(result, d);
    let r_adj = adjusted_reward_spec(og.strategy, reward);
    let nk = og.next_index_spec(d, mastery_spec(og.strategy, reward), draw);
    let nd = DifficultyLevel::spec_from_index(nk);
    let nm = max_q_at(og.entries@, nd);
    let old_v = if has_key(og.entries@, lesson.id@, d) {
        lookup(og.entries@, lesson.id@, d)
    } else {
        0
    };
    let new_v = q_update_spec(old_v, r_adj, nm);
    lemma_max_q_props(og.entries@, nd, og.entries@.len() as int);
    lemma_adjusted_reward_range(og.strategy, reward);
    if has_key(og.entries@, lesson.id@, d) {
        let w = choose|i: int|
            0 <= i < og.entries@.len() && entry_matches(og.entries@[i], lesson.id@, d);
        assert(-2 * UNIT <= og.entries@[w].value <= UNIT);
        lemma_q_update_loose_bounds(old_v, r_adj, nm);
    } else {
        lemma_q_update_loose_bounds(0, r_adj, nm);
    }
    let s = og.entries@;
    let s2 = fin.entries@;
    assert(s2 == table_after_insert(s, lesson, d, new_v));
    if has_key(s, lesson.id@, d) {
        let w = choose|i: int| 0 <= i < s.len() && entry_matches(s[i], lesson.id@, d);
        assert(entry_matches(s2[w], lesson.id@, d));
        assert(s2[w].value == new_v as i64);
        assert forall|j: int| 0 <= j < s2.len() && j != w implies !entry_matches(
            #[trigger] s2[j],
            lesson.id@,
            d,
        ) by {
            if entry_matches(s[j], lesson.id@, d) {
                assert(!(s[w].lesson.id@ == s[j].lesson.id@ && s[w].difficulty == s[j].difficulty));
            } else {
                assert(s2[j] == s[j]);
            }
        }
        let w2 = choose|i: int| 0 <= i < s2.len() && entry_matches(s2[i], lesson.id@, d);
        assert(w2 == w);
    } else {
        let last = s2.len() - 1;
        assert(s2[last].lesson == lesson);
        assert(entry_matches(s2[last], lesson.id@, d));
        assert(s2[last].value == new_v as i64);
        assert forall|j: int| 0 <= j < last implies !entry_matches(
            #[trigger] s2[j],
            lesson.id@,
            d,
        ) by {
            assert(s2[j] == s[j]);
        }
        let w2 = choose|i: int| 0 <= i < s2.len() && entry_matches(s2[i], lesson.id@, d);
        assert(w2 == last);
    }
}

/// A flawless attempt at a state whose value is still zero, over a table
/// with no negative values, leaves that state's value at three quarters
/// or more: the perfect reward pushes a fresh entry firmly above zero.
pub proof fn lemma_perfect_update_pushes_above_zero(
    og: QTableAlgorithm,
    fin: QTableAlgorithm,
    lesson: Lesson,
    d: DifficultyLevel,
    result: LessonResult,
    r: Option<Mastery>,
    draw: int,
)
    requires
        update_relation(og, fin, lesson, d, result, r, draw),
        og.wf(),
        og.strategy == Strategy::BaseQLearning || og.strategy == Strategy::MasteryThresholds,
        result.wf(),
        crate::content::sum_incorrect(
            result.attempted_questions@,
            result.attempted_questions@.len() as int,
        ) == 0,
        crate::content::sum_hints(
            result.attempted_questions@,
            result.attempted_questions@.len() as int,
        ) == 0,
        result.time_taken <= band_lower_spec(d),
        has_key(og.entries@, lesson.id@, d) ==> lookup(og.entries@, lesson.id@, d) == 0,
        forall|i: int| 0 <= i < og.entries@.len() ==> (#[trigger] og.entries@[i]).value >= 0,
    ensures
        has_key(fin.entries@, lesson.id@, d),
        lookup(fin.entries@, lesson.id@, d) >= 750000,
{
    lemma_perfect_result_reward(result, d, og.strategy);
    lemma_no_decay_update_stores_bellman(og, fin, lesson, d, result, r, draw);
    let reward = clamped_reward_spec(result, d);
    let nk = og.next_index_spec(d, mastery_spec(og.strategy, reward), draw);
    let nd = DifficultyLevel::spec_from_index(nk);
    let nm = max_q_at(og.entries@, nd);
    lemma_max_q_props(og.entries@, nd, og.entries@.len() as int);
    assert(0 <= nm <= UNIT as int);
    let num = 12 * UNIT as int + 3 * nm;
    vstd::arithmetic::div_mod::lemma_div_is_ordered(16 * 750000int, num, 16);
    vstd::arithmetic::div_mod::lemma_div_multiples_vanish(750000int, 16);
    assert((16 * 750000int) / 16 == 750000int);
    vstd::arithmetic::div_mod::lemma_div_is_ordered(num, 15 * UNIT as int, 16);
    vstd::arithmetic::div_mod::lemma_div_pos_is_pos(num, 16);
    assert(q_update_spec(0, UNIT as int, nm) >= 750000);
}

/// A run of selections that each follow plain Q-learning's
/// next-difficulty rule climbs one level per step from the bottom and
/// saturates at the top: after `k` steps the index is `min(k, 7)`, so
/// seven or more steps end at the highest level.
pub proof fn lemma_base_run_reaches_top(
    qs: Seq<QTableAlgorithm>,
    idxs: Seq<int>,
    masteries: Seq<Option<Mastery>>,
    draws: Seq<int>,
    n: int,
)
    requires
        0 <= n,
        idxs.len() >= n + 1,
        qs.len() >= n,
        masteries.len() >= n,
        draws.len() >= n,
        idxs[0] == 0,
        forall|k: int| 0 <= k < n ==> (#[trigger] qs[k]).strategy == Strategy::BaseQLearning,
        forall|k: int|
            #![trigger draws[k]]
            0 <= k < n ==> idxs[k + 1] == qs[k].next_index_spec(
                DifficultyLevel::spec_from_index(idxs[k]),
                masteries[k],
                draws[k],
            ),
    ensures
        forall|k: int|
            0 <= k <= n ==> #[trigger] idxs[k] == if k < 7 {
                k
            } else {
                7
            },
        n >= 7 ==> idxs[n] == 7,
    decreases n,
{
    if n > 0 {
        lemma_base_run_reaches_top(qs, idxs, masteries, draws, n - 1);
        let i = idxs[n - 1];
        assert(idxs[n] == qs[n - 1].next_index_spec(
            DifficultyLevel::spec_from_index(i),
            masteries[n - 1],
            draws[n - 1],
        ));
        assert(DifficultyLevel::spec_from_index(i).spec_index() == i);
    }
}

/// A run of selections that each follow the next-difficulty rule under
/// mastery thresholds with the grade below Basic drops one level per
/// step and saturates at the bottom: after `k` steps the index is
/// `max(start - k, 0)`, so from the middle of the scale every later step
/// stays at the lowest level.
pub proof fn lemma_failing_run_sinks(
    qs: Seq<QTableAlgorithm>,
    idxs: Seq<int>,
    draws: Seq<int>,
    n: int,
    start: int,
)
    requires
        0 <= n,
        0 <= start <= 7,
        idxs.len() >= n + 1,
        qs.len() >= n,
        draws.len() >= n,
        idxs[0] == start,
        forall|k: int| 0 <= k < n ==> (#[trigger] qs[k]).strategy == Strategy::MasteryThresholds,
        forall|k: int|
            #![trigger draws[k]]
            0 <= k < n ==> idxs[k + 1] == qs[k].next_index_spec(
                DifficultyLevel::spec_from_index(idxs[k]),
                Some(Mastery::NoMastery),
                draws[k],
            ),
    ensures
        forall|k: int|
            0 <= k <= n ==> #[trigger] idxs[k] == if start - k >= 0 {
                start - k
            } else {
                0
            },
        n >= start ==> idxs[n] == 0,
    decreases n,
{
    if n > 0 {
        lemma_failing_run_sinks(qs, idxs, draws, n - 1, start);
        let i = idxs[n - 1];
        assert(idxs[n] == qs[n - 1].next_index_spec(
            DifficultyLevel::spec_from_index(i),
            Some(Mastery::NoMastery),
            draws[n - 1],
        ));
        assert(DifficultyLevel::spec_from_index(i).spec_index() == i);
    }
}

/// The expected-time band of each difficulty, `(lower, upper)`, in
/// seconds.
pub fn time_band(d: DifficultyLevel) -> (r: (i64, i64))
    ensures
        r.0 == band_lower_spec(d),
        r.1 == band_upper_spec(d),
{
    match d {
        DifficultyLevel::VeryEasy => (5, 10),
        DifficultyLevel::Easy => (10, 15),
        DifficultyLevel::Medium => (20, 30),
        DifficultyLevel::Hard => (30, 40),
        DifficultyLevel::VeryHard => (40, 50),
        DifficultyLevel::Expert => (50, 60),
        DifficultyLevel::Master => (60, 70),
        DifficultyLevel::Grandmaster => (70, 80),
    }
}

/// The time sub-reward of a lesson attempt, in micro-units.
pub fn time_reward(d: DifficultyLevel, time_taken: i32) -> (r: i64)
    ensures
        r == time_reward_spec(d, time_taken as int),
        UNIT - 5000000000000000 <= r <= UNIT + 5000000000000000,
{
    let (lo, hi) = time_band(d);
    let t = time_taken as i64;
    if t <= lo {
        UNIT
    } else {
        let excess2: i64 = 2 * t - (hi + lo);
        UNIT - tdiv_i64(excess2 * UNIT, 2 * (hi - lo))
    }
}

/// The faults-out-of-questions sub-reward, in micro-units.
pub fn ratio_reward(count: i64, total: i64) -> (r: i64)
    requires
        0 <= count <= 1000000000000,
        0 <= total,
        count > 0 ==> total > 0,
    ensures
        r == ratio_reward_spec(count as int, total as int),
        -1000000000000000000 <= r <= UNIT,
{
    if count == 0 {
        UNIT
    } else {
        proof {
            lemma_tdiv_bounds(count as int * UNIT as int, total as int);
        }
        UNIT - tdiv_i64(count * UNIT, total)
    }
}

/// The clamped reward of one lesson attempt, in micro-units.
pub fn compute_reward(lesson_result: &LessonResult, difficulty: DifficultyLevel) -> (r: i64)
    requires
        lesson_result.wf(),
    ensures
        r == clamped_reward_spec(*lesson_result, difficulty),
        -UNIT <= r <= UNIT,
{
    let t = time_reward(difficulty, lesson_result.get_time_taken());
    let n = lesson_result.get_attempted_questions().len() as i64;
    let total_incorrect = lesson_result.get_total_incorrect_attempts();
    let total_hints = lesson_result.get_total_hints_requested();
    proof {
        crate::content::lemma_sum_bounds(
            lesson_result.attempted_questions@,
            lesson_result.attempted_questions@.len() as int,
        );
    }
    let inc = ratio_reward(total_incorrect, n);
    let h = ratio_reward(total_hints, n);
    let combined: i64 = 3 * t + 5 * inc + 2 * h;
    let raw = tdiv_i64(combined, 10);
    clamp_unit(raw)
}

/// The mastery grade a clamped reward earns.
pub fn classify_mastery(r: i64) -> (m: Mastery)
    ensures
        m == classify_spec(r as int),
{
    if r >= FULL_MASTERY_THRESHOLD {
        Mastery::Full
    } else if r >= COMPETENT_MASTERY_THRESHOLD {
        Mastery::Competent
    } else if r >= BASIC_MASTERY_THRESHOLD {
        Mastery::Basic
    } else {
        Mastery::NoMastery
    }
}

/// One learner's Q-table for one module, with the bookkeeping counters of
/// the decay and reinforcement rules.
#[derive(Debug)]
pub struct QTableAlgorithm {
    pub id: String,
    /// The (lesson, difficulty) entries and their values.
    pub entries: Vec<QEntry>,
    /// Exploration rate in micro-units.
    pub epsilon: i64,
    pub strategy: Strategy,
    /// Decay events remaining per difficulty, indexed by difficulty.
    pub decay_counters: Vec<i64>,
    /// Iterations since each previously-attempted difficulty was last
    /// attempted, indexed by difficulty.
    pub total_difficulty_non_attempts: Vec<i64>,
    /// Whether each difficulty has ever been attempted.
    pub has_attempted_difficulty: Vec<bool>,
    /// Back-to-back attempts at each difficulty; at most one entry is ever
    /// non-zero.
    pub consecutive_attempts: Vec<i64>,
}

impl QTableAlgorithm {
    /// The structural invariant: eight bookkeeping slots per counter, a
    /// valid exploration rate, unique entry keys, values within
    /// `[-2.0, 1.0]`, non-negative counters with at most nine decay events
    /// left, zero non-attempt counts at untouched levels, and at most one
    /// non-zero consecutive-attempt count.
    pub open spec fn wf(self) -> bool {
        &&& self.decay_counters@.len() == 8
        &&& self.total_difficulty_non_attempts@.len() == 8
        &&& self.has_attempted_difficulty@.len() == 8
        &&& self.consecutive_attempts@.len() == 8
        &&& 0 <= self.epsilon <= UNIT
        &&& forall|k: int| 0 <= k < 8 ==> 0 <= #[trigger] self.decay_counters@[k] <= 9
        &&& forall|k: int| 0 <= k < 8 ==> 0 <= #[trigger] self.total_difficulty_non_attempts@[k]
        &&& forall|k: int| 0 <= k < 8 ==> 0 <= #[trigger] self.consecutive_attempts@[k]
        &&& forall|k: int|
            0 <= k < 8 && !self.has_attempted_difficulty@[k]
                ==> #[trigger] self.total_difficulty_non_attempts@[k] == 0
        &&& forall|k1: int, k2: int|
            0 <= k1 < 8 && 0 <= k2 < 8 && k1 != k2 ==> (#[trigger] self.consecutive_attempts@[k1]
                == 0 || #[trigger] self.consecutive_attempts@[k2] == 0)
        &&& forall|i: int|
            0 <= i < self.entries@.len() ==> -2 * UNIT <= (#[trigger] self.entries@[i]).value
                <= UNIT
        &&& forall|i: int, j: int|
            #![trigger self.entries@[i], self.entries@[j]]
            0 <= i < j < self.entries@.len() ==> !(self.entries@[i].lesson.id@
                == self.entries@[j].lesson.id@ && self.entries@[i].difficulty
                == self.entries@[j].difficulty)
    }

    /// Every difficulty level has at least one entry, as a freshly seeded
    /// module table does.
    pub open spec fn complete(self) -> bool {
        forall|d: DifficultyLevel| has_at(self.entries@, d)
    }

    pub fn new(q_table: Option<Vec<QEntry>>, epsilon: i64, strategy: Strategy) -> (r:
        QTableAlgorithm)
        requires
            0 <= epsilon <= UNIT,
            match q_table {
                Some(t) => {
                    &&& forall|i: int|
                        0 <= i < t@.len() ==> -UNIT <= (#[trigger] t@[i]).value <= UNIT
                    &&& forall|i: int, j: int|
                        0 <= i < j < t@.len() ==> !(t@[i].lesson.id@ == t@[j].lesson.id@
                            && t@[i].difficulty == t@[j].difficulty)
                },
                None => true,
            },
        ensures
            r.wf(),
            r.epsilon == epsilon,
            r.strategy == strategy,
            match q_table {
                Some(t) => r.entries@ == t@,
                None => r.entries@.len() == 0,
            },
            forall|k: int| 0 <= k < 8 ==> #[trigger] r.decay_counters@[k] == initial_decay_counter(
                k,
            ),
            forall|k: int| 0 <= k < 8 ==> #[trigger] r.total_difficulty_non_attempts@[k] == 0,
            forall|k: int| 0 <= k < 8 ==> !(#[trigger] r.has_attempted_difficulty@[k]),
            forall|k: int| 0 <= k < 8 ==> #[trigger] r.consecutive_attempts@[k] == 0,
            r.id@.len() == 36,
    {
        let mut decay_counters: Vec<i64> = Vec::new();
        let mut total_difficulty_non_attempts: Vec<i64> = Vec::new();
        let mut has_attempted_difficulty: Vec<bool> = Vec::new();
        let mut consecutive_attempts: Vec<i64> = Vec::new();
        let mut k: usize = 0;
        while k < 8
            invariant
                k <= 8,
                decay_counters@.len() == k,
                total_difficulty_non_attempts@.len() == k,
                has_attempted_difficulty@.len() == k,
                consecutive_attempts@.len() == k,
                forall|j: int|
                    0 <= j < k ==> #[trigger] decay_counters@[j] == initial_decay_counter(j),
                forall|j: int| 0 <= j < k ==> #[trigger] total_difficulty_non_attempts@[j] == 0,
                forall|j: int| 0 <= j < k ==> !(#[trigger] has_attempted_difficulty@[j]),
                forall|j: int| 0 <= j < k ==> #[trigger] consecutive_attempts@[j] == 0,
            decreases 8 - k,
        {
            decay_counters.push((k as i64) + 2);
            total_difficulty_non_attempts.push(0);
            has_attempted_difficulty.push(false);
            consecutive_attempts.push(0);
            k += 1;
        }
        let entries = match q_table {
            Some(t) => t,
            None => Vec::new(),
        };
        QTableAlgorithm {
            id: new_id(),
            entries,
            epsilon,
            strategy,
            decay_counters,
            total_difficulty_non_attempts,
            has_attempted_difficulty,
            consecutive_attempts,
        }
    }

    pub fn get_strategy(&self) -> (r: &Strategy)
        ensures
            *r == self.strategy,
    {
        &self.strategy
    }

    pub fn get_id(&self) -> (r: &String)
        ensures
            *r == self.id,
    {
        &self.id
    }

    /// How many back-to-back attempts the learner has made at this level.
    pub fn get_consecutive_attempts_for_difficulty(&self, difficulty_level: &DifficultyLevel) -> (r:
        i64)
        requires
            self.wf(),
        ensures
            r == self.consecutive_attempts@[difficulty_level.spec_index()],
    {
        let k = difficulty_level.index();
        self.consecutive_attempts[k]
    }

    /// Store a value under a (lesson, difficulty) key: an existing entry
    /// with the same key keeps its lesson and gets the new value, and a
    /// missing key is appended.
    pub fn insert(&mut self, state: (Lesson, DifficultyLevel), value: i64)
        requires
            old(self).wf(),
            -2 * UNIT <= value <= UNIT,
        ensures
            final(self).wf(),
            final(self).entries@.len() >= old(self).entries@.len(),
            has_key(final(self).entries@, state.0.id@, state.1),
            lookup(final(self).entries@, state.0.id@, state.1) == value,
            if has_key(old(self).entries@, state.0.id@, state.1) {
                &&& final(self).entries@.len() == old(self).entries@.len()
                &&& forall|i: int|
                    0 <= i < old(self).entries@.len() ==> if entry_matches(
                        #[trigger] old(self).entries@[i],
                        state.0.id@,
                        state.1,
                    ) {
                        final(self).entries@[i].lesson == old(self).entries@[i].lesson
                            && final(self).entries@[i].difficulty == old(self).entries@[i].difficulty
                            && final(self).entries@[i].value == value
                    } else {
                        final(self).entries@[i] == old(self).entries@[i]
                    }
            } else {
                &&& final(self).entries@.len() == old(self).entries@.len() + 1
                &&& forall|i: int|
                    0 <= i < old(self).entries@.len() ==> final(self).entries@[i] == #[trigger] old(
                        self,
                    ).entries@[i]
                &&& final(self).entries@.last().lesson == state.0
                &&& final(self).entries@.last().difficulty == state.1
                &&& final(self).entries@.last().value == value
            },
            final(self).id == old(self).id,
            final(self).epsilon == old(self).epsilon,
            final(self).strategy == old(self).strategy,
            final(self).decay_counters == old(self).decay_counters,
            final(self).total_difficulty_non_attempts == old(self).total_difficulty_non_attempts,
            final(self).has_attempted_difficulty == old(self).has_attempted_difficulty,
            final(self).consecutive_attempts == old(self).consecutive_attempts,
    {
        let n = self.entries.len();
        let mut i: usize = 0;
        while i < n
            invariant
                *self == *old(self),
                old(self).wf(),
                -2 * UNIT <= value <= UNIT,
                n == self.entries@.len(),
                i <= n,
                forall|j: int|
                    0 <= j < i ==> !entry_matches(#[trigger] self.entries@[j], state.0.id@, state.1),
            decreases n - i,
        {
            if self.entries[i].difficulty == state.1 && self.entries[i].lesson.id == state.0.id {
                self.entries[i].value = value;
                proof {
                    let s_old = old(self).entries@;
                    let s_new = self.entries@;
                    assert(s_new.len() == s_old.len());
                    assert(s_new[i as int].lesson == s_old[i as int].lesson);
                    assert(s_new[i as int].difficulty == s_old[i as int].difficulty);
                    assert(entry_matches(s_new[i as int], state.0.id@, state.1));
                    assert(entry_matches(s_old[i as int], state.0.id@, state.1));
                    assert forall|j: int|
                        0 <= j < s_new.len() && j != i implies !entry_matches(
                        #[trigger] s_new[j],
                        state.0.id@,
                        state.1,
                    ) by {
                        assert(s_new[j] == s_old[j]);
                        if j > i {
                            let ii = i as int;
                            assert(!(s_old[ii].lesson.id@ == s_old[j].lesson.id@
                                && s_old[ii].difficulty == s_old[j].difficulty));
                        } else {
                            assert(!entry_matches(s_old[j], state.0.id@, state.1));
                        }
                    }
                    let w = choose|j: int|
                        0 <= j < s_new.len() && entry_matches(s_new[j], state.0.id@, state.1);
                    assert(entry_matches(s_new[i as int], state.0.id@, state.1));
                    assert(w == i);
                }
                return ;
            }
            i += 1;
        }
        self.entries.push(QEntry { lesson: state.0, difficulty: state.1, value });
        proof {
            let s_old = old(self).entries@;
            let s_new = self.entries@;
            let last = s_new.len() - 1;
            assert(s_new[last].lesson == state.0);
            assert(entry_matches(s_new[last], state.0.id@, state.1));
            assert(forall|j: int| 0 <= j < last ==> s_new[j] == s_old[j]);
            assert forall|j: int|
                0 <= j < last implies !entry_matches(#[trigger] s_new[j], state.0.id@, state.1) by {
                assert(s_new[j] == s_old[j]);
            }
            let w = choose|j: int|
                0 <= j < s_new.len() && entry_matches(s_new[j], state.0.id@, state.1);
            assert(w == last);
        }
    }

    /// The value stored under a (lesson, difficulty) key, if any.
    pub fn get(&self, state: &(Lesson, DifficultyLevel)) -> (r: Option<i64>)
        requires
            self.wf(),
        ensures
            match r {
                Some(v) => has_key(self.entries@, state.0.id@, state.1) && v == lookup(
                    self.entries@,
                    state.0.id@,
                    state.1,
                ),
                None => !has_key(self.entries@, state.0.id@, state.1),
            },
    {
        let n = self.entries.len();
        let mut i: usize = 0;
        while i < n
            invariant
                self.wf(),
                n == self.entries@.len(),
                i <= n,
                forall|j: int|
                    0 <= j < i ==> !entry_matches(#[trigger] self.entries@[j], state.0.id@, state.1),
            decreases n - i,
        {
            if self.entries[i].difficulty == state.1 && self.entries[i].lesson.id == state.0.id {
                proof {
                    let w = choose|j: int|
                        0 <= j < self.entries@.len() && entry_matches(
                            self.entries@[j],
                            state.0.id@,
                            state.1,
                        );
                    assert(entry_matches(self.entries@[i as int], state.0.id@, state.1));
                    assert(w == i);
                }
                return Some(self.entries[i].value);
            }
            i += 1;
        }
        None
    }

    /// Whether the table holds an entry under this (lesson, difficulty)
    /// key.
    pub fn has_lesson_difficulty_pair(&self, state_action_pair: &(Lesson, DifficultyLevel)) -> (r:
        bool)
        requires
            self.wf(),
        ensures
            r == has_key(self.entries@, state_action_pair.0.id@, state_action_pair.1),
    {
        match self.get(state_action_pair) {
            Some(_) => true,
            None => false,
        }
    }

    /// All (lesson, difficulty) pairs with their values.
    pub fn get_lesson_difficulty_pairs(&self) -> (r: Vec<(Lesson, DifficultyLevel, i64)>)
        ensures
            r@.len() == self.entries@.len(),
            forall|i: int|
                0 <= i < r@.len() ==> {
                    &&& (#[trigger] r@[i]).0.equiv(self.entries@[i].lesson)
                    &&& r@[i].1 == self.entries@[i].difficulty
                    &&& r@[i].2 == self.entries@[i].value
                },
    {
        let mut r: Vec<(Lesson, DifficultyLevel, i64)> = Vec::new();
        let mut i: usize = 0;
        while i < self.entries.len()
            invariant
                i <= self.entries@.len(),
                r@.len() == i,
                forall|j: int|
                    0 <= j < i ==> {
                        &&& (#[trigger] r@[j]).0.equiv(self.entries@[j].lesson)
                        &&& r@[j].1 == self.entries@[j].difficulty
                        &&& r@[j].2 == self.entries@[j].value
                    },
            decreases self.entries@.len() - i,
        {
            let e = &self.entries[i];
            r.push((e.lesson.clone(), e.difficulty, e.value));
            i += 1;
        }
        r
    }

    /// The best value among the entries at difficulty `d`, or 0 when the
    /// level has no entry.
    pub fn max_q_at_level(&self, d: DifficultyLevel) -> (r: i64)
        ensures
            r == max_q_at(self.entries@, d),
    {
        let n = self.entries.len();
        let mut best: i64 = 0;
        let mut found = false;
        let mut i: usize = 0;
        while i < n
            invariant
                n == self.entries@.len(),
                i <= n,
                found == has_at_upto(self.entries@, d, i as int),
                best == max_q_upto(self.entries@, d, i as int),
                !found ==> best == 0,
            decreases n - i,
        {
            let e = &self.entries[i];
            if e.difficulty == d {
                if !found || e.value > best {
                    best = e.value;
                }
                found = true;
            }
            i += 1;
        }
        best
    }

    /// Whether the learner's progress at this level is weak: its best
    /// Q-value does not exceed the weakness threshold.
    pub fn is_weak_level(&self, difficulty_level: &DifficultyLevel) -> (r: bool)
        ensures
            r == (max_q_at(self.entries@, *difficulty_level) <= WEAK_THRESHOLD),
    {
        let current_value = self.max_q_at_level(*difficulty_level);
        current_value <= WEAK_THRESHOLD
    }
}

/// `lesson` is the lesson of the first table entry at difficulty `d`.
pub open spec fn is_first_lesson_at(s: Seq<QEntry>, d: DifficultyLevel, lesson: Lesson) -> bool {
    exists|j: int|
        {
            &&& 0 <= j < s.len()
            &&& (#[trigger] s[j]).difficulty == d
            &&& lesson.equiv(s[j].lesson)
            &&& forall|k: int| 0 <= k < j ==> (#[trigger] s[k]).difficulty != d
        }
}

/// `lesson` is the lesson of the first table entry at difficulty `d` whose
/// value is the level's best.
pub open spec fn is_first_best_at(s: Seq<QEntry>, d: DifficultyLevel, lesson: Lesson) -> bool {
    exists|j: int|
        {
            &&& 0 <= j < s.len()
            &&& (#[trigger] s[j]).difficulty == d
            &&& s[j].value as int == max_q_at(s, d)
            &&& lesson.equiv(s[j].lesson)
            &&& forall|k: int|
                0 <= k < j && (#[trigger] s[k]).difficulty == d ==> (s[k].value as int) < max_q_at(
                    s,
                    d,
                )
        }
}

/// How one action selection relates the chosen pair `r` to the table `q`,
/// the current difficulty, the mastery grade, and the two draws: the
/// chosen difficulty is the policy's, an exploiting selection answers the
/// first best entry at the current level, and any other selection answers
/// the first entry at the chosen level.
pub open spec fn selection_relation(
    q: QTableAlgorithm,
    cur: DifficultyLevel,
    mastery: Option<Mastery>,
    r: (Lesson, DifficultyLevel),
    draw_explore: int,
    draw_next: int,
) -> bool {
    &&& r.1.spec_index() == q.selected_index_spec(cur, mastery, draw_explore, draw_next)
    &&& (q.exploits(cur, draw_explore) ==> is_first_best_at(q.entries@, cur, r.0))
    &&& (!q.exploits(cur, draw_explore) ==> is_first_lesson_at(q.entries@, r.1, r.0))
}

/// `has_at_upto` is the prefix form of "some entry sits at `d`".
pub proof fn lemma_has_at_iff(s: Seq<QEntry>, d: DifficultyLevel, n: int)
    requires
        0 <= n <= s.len(),
    ensures
        has_at_upto(s, d, n) <==> exists|k: int| 0 <= k < n && (#[trigger] s[k]).difficulty == d,
    decreases n,
{
    if n > 0 {
        lemma_has_at_iff(s, d, n - 1);
        if s[n - 1].difficulty == d {
            assert(exists|k: int| 0 <= k < n && (#[trigger] s[k]).difficulty == d);
        }
    }
}

/// The prefix maximum at a level is attained by some entry of the prefix,
/// and bounds every entry of the prefix at that level.
pub proof fn lemma_max_q_props(s: Seq<QEntry>, d: DifficultyLevel, n: int)
    requires
        0 <= n <= s.len(),
    ensures
        has_at_upto(s, d, n) ==> exists|k: int|
            0 <= k < n && (#[trigger] s[k]).difficulty == d && s[k].value as int == max_q_upto(
                s,
                d,
                n,
            ),
        forall|k: int|
            0 <= k < n && (#[trigger] s[k]).difficulty == d ==> s[k].value as int <= max_q_upto(
                s,
                d,
                n,
            ),
        !has_at_upto(s, d, n) ==> max_q_upto(s, d, n) == 0,
    decreases n,
{
    if n > 0 {
        lemma_max_q_props(s, d, n - 1);
        lemma_has_at_iff(s, d, n - 1);
        let prev = max_q_upto(s, d, n - 1);
        let m = max_q_upto(s, d, n);
        if s[n - 1].difficulty == d {
            if has_at_upto(s, d, n - 1) && prev >= s[n - 1].value as int {
                assert(m == prev);
                assert(exists|k: int|
                    0 <= k < n - 1 && (#[trigger] s[k]).difficulty == d && s[k].value as int
                        == prev);
            } else {
                assert(m == s[n - 1].value as int);
                assert(exists|k: int|
                    0 <= k < n && (#[trigger] s[k]).difficulty == d && s[k].value as int == m);
                assert forall|k: int|
                    0 <= k < n && (#[trigger] s[k]).difficulty == d implies s[k].value as int
                    <= m by {
                    if k < n - 1 {
                        assert(has_at_upto(s, d, n - 1)) by {
                            lemma_has_at_iff(s, d, n - 1);
                        }
                        assert(s[k].value as int <= prev);
                        assert(prev < s[n - 1].value as int);
                    }
                }
            }
        } else {
            assert(m == prev);
        }
    }
}

impl QTableAlgorithm {
    /// The index of the first entry at difficulty `d`.
    fn find_first_at(&self, d: DifficultyLevel) -> (j: usize)
        requires
            has_at(self.entries@, d),
        ensures
            j < self.entries@.len(),
            self.entries@[j as int].difficulty == d,
            forall|k: int| 0 <= k < j ==> (#[trigger] self.entries@[k]).difficulty != d,
    {
        let n = self.entries.len();
        let mut i: usize = 0;
        while i < n
            invariant
                n == self.entries@.len(),
                i <= n,
                forall|k: int| 0 <= k < i ==> (#[trigger] self.entries@[k]).difficulty != d,
            decreases n - i,
        {
            if self.entries[i].difficulty == d {
                return i;
            }
            i += 1;
        }
        proof {
            lemma_has_at_iff(self.entries@, d, self.entries@.len() as int);
            assert(false);
        }
        0
    }

    /// The best-known action at the state's difficulty: the first entry at
    /// that level holding its maximal Q-value, or nothing when the level
    /// has no entry.
    pub fn get_best_action(&self, state: &(Lesson, DifficultyLevel)) -> (r: Option<
        (Lesson, DifficultyLevel),
    >)
        ensures
            match r {
                Some(pair) => {
                    &&& pair.1 == state.1
                    &&& has_at(self.entries@, state.1)
                    &&& is_first_best_at(self.entries@, state.1, pair.0)
                },
                None => !has_at(self.entries@, state.1),
            },
    {
        let n = self.entries.len();
        let mut best_idx: usize = 0;
        let mut found = false;
        let mut i: usize = 0;
        while i < n
            invariant
                n == self.entries@.len(),
                i <= n,
                found == has_at_upto(self.entries@, state.1, i as int),
                found ==> {
                    &&& best_idx < i
                    &&& self.entries@[best_idx as int].difficulty == state.1
                    &&& self.entries@[best_idx as int].value as int == max_q_upto(
                        self.entries@,
                        state.1,
                        i as int,
                    )
                    &&& forall|k: int|
                        0 <= k < best_idx && (#[trigger] self.entries@[k]).difficulty == state.1
                            ==> (self.entries@[k].value as int) < self.entries@[best_idx as int].value as int
                },
            decreases n - i,
        {
            let e = &self.entries[i];
            if e.difficulty == state.1 {
                proof {
                    lemma_max_q_props(self.entries@, state.1, i as int);
                    lemma_has_at_iff(self.entries@, state.1, i as int);
                }
                if !found || e.value > self.entries[best_idx].value {
                    best_idx = i;
                }
                found = true;
            }
            i += 1;
        }
        if found {
            let e = &self.entries[best_idx];
            Some((e.lesson.clone(), e.difficulty))
        } else {
            None
        }
    }

    /// The first difficulty level, in ascending order starting from `k`,
    /// that is weak and has been attempted before.
    pub open spec fn weakest_attempted_from(self, k: int) -> Option<int>
        decreases 8 - k,
    {
        if k < 0 || k >= 8 {
            None
        } else if max_q_at(self.entries@, DifficultyLevel::spec_from_index(k)) <= WEAK_THRESHOLD
            as int && self.has_attempted_difficulty@[k] {
            Some(k)
        } else {
            self.weakest_attempted_from(k + 1)
        }
    }

    /// Where the next-difficulty rule sends the learner from the given
    /// level: the weakness guard of the decaying strategies keeps a weak
    /// current level; `BaseQLearning` always advances one level; the other
    /// strategies move by the mastery grade (up for Full, up with
    /// probability 0.6 for Competent, stay for Basic, down otherwise).
    /// The result saturates at both ends of the scale.
    pub open spec fn next_index_spec(
        self,
        cur: DifficultyLevel,
        mastery: Option<Mastery>,
        draw: int,
    ) -> int {
        let i = cur.spec_index();
        if (self.strategy == Strategy::DecayingQValues || self.strategy
            == Strategy::TraitSensitivity) && max_q_at(self.entries@, cur) <= WEAK_THRESHOLD
            as int {
            i
        } else if self.strategy == Strategy::BaseQLearning {
            if i >= 7 {
                7
            } else {
                i + 1
            }
        } else {
            match mastery.unwrap() {
                Mastery::Full => if i >= 7 {
                    7
                } else {
                    i + 1
                },
                Mastery::Competent => if draw < COMPETENT_ADVANCE_PROBABILITY as int {
                    if i >= 7 {
                        7
                    } else {
                        i + 1
                    }
                } else {
                    i
                },
                Mastery::Basic => i,
                Mastery::NoMastery => if i <= 0 {
                    0
                } else {
                    i - 1
                },
            }
        }
    }

    /// Pick the lesson for the difficulty that the next-difficulty rule
    /// chooses: the first table entry at that level.
    #[verifier::rlimit(100)]
    pub fn choose_next_difficulty(
        &self,
        state: &(Lesson, DifficultyLevel),
        mastery_level: Option<Mastery>,
        draw: i64,
    ) -> (r: (Lesson, DifficultyLevel))
        requires
            self.wf(),
            self.complete(),
            self.strategy == Strategy::BaseQLearning || mastery_level is Some,
        ensures
            r.1.spec_index() == self.next_index_spec(state.1, mastery_level, draw as int),
            r.1 == DifficultyLevel::spec_from_index(
                self.next_index_spec(state.1, mastery_level, draw as int),
            ),
            is_first_lesson_at(self.entries@, r.1, r.0),
            0 <= r.1.spec_index() <= 7,
    {
        let current_index = state.1.index();

        let is_current_weak = self.is_weak_level(&state.1);
        let next_index: usize = if (self.strategy == Strategy::DecayingQValues || self.strategy
            == Strategy::TraitSensitivity) && is_current_weak {
            current_index
        } else if self.strategy == Strategy::BaseQLearning {
            if current_index >= 7 {
                7
            } else {
                current_index + 1
            }
        } else {
            match mastery_level {
                Some(Mastery::Full) => if current_index >= 7 {
                    7
                } else {
                    current_index + 1
                },
                Some(Mastery::Competent) => if draw < COMPETENT_ADVANCE_PROBABILITY {
                    if current_index >= 7 {
                        7
                    } else {
                        current_index + 1
                    }
                } else {
                    current_index
                },
                Some(Mastery::Basic) => current_index,
                Some(Mastery::NoMastery) => if current_index == 0 {
                    0
                } else {
                    current_index - 1
                },
                None => {
                    proof {
                        assert(false);
                    }
                    0
                },
            }
        };

        let next_difficulty = DifficultyLevel::from_index(next_index);
        let j = self.find_first_at(next_difficulty);
        let lesson = self.entries[j].lesson.clone();
        (lesson, next_difficulty)
    }

    /// The weakest previously-attempted difficulty level: the lowest level
    /// whose best Q-value is at or below the weakness threshold and that
    /// the learner has attempted at least once.
    pub fn find_weaker_level(&self) -> (r: Option<DifficultyLevel>)
        requires
            self.wf(),
        ensures
            match r {
                Some(d) => self.weakest_attempted_from(0) == Some(d.spec_index()),
                None => self.weakest_attempted_from(0) is None,
            },
    {
        let mut k: usize = 0;
        while k < 8
            invariant
                self.wf(),
                k <= 8,
                self.weakest_attempted_from(0) == self.weakest_attempted_from(k as int),
            decreases 8 - k,
        {
            let d = DifficultyLevel::from_index(k);
            if self.is_weak_level(&d) && self.has_attempted_difficulty[k] {
                return Some(d);
            }
            k += 1;
        }
        None
    }

    /// The difficulty index that the epsilon-greedy policy selects, given
    /// the exploration draw and the draw of the Competent coin.
    pub open spec fn selected_index_spec(
        self,
        cur: DifficultyLevel,
        mastery: Option<Mastery>,
        draw_explore: int,
        draw_next: int,
    ) -> int {
        if draw_explore < self.epsilon as int {
            if self.strategy == Strategy::DecayingQValues || self.strategy
                == Strategy::TraitSensitivity {
                match self.weakest_attempted_from(0) {
                    Some(k) => k,
                    None => self.next_index_spec(cur, mastery, draw_next),
                }
            } else {
                self.next_index_spec(cur, mastery, draw_next)
            }
        } else {
            if has_at(self.entries@, cur) {
                cur.spec_index()
            } else {
                self.next_index_spec(cur, mastery, draw_next)
            }
        }
    }

    /// Whether the policy, given these draws, takes the exploit branch and
    /// answers with the best-known action at the current level.
    pub open spec fn exploits(self, cur: DifficultyLevel, draw_explore: int) -> bool {
        !(draw_explore < self.epsilon as int) && has_at(self.entries@, cur)
    }

    /// Epsilon-greedy action selection. `draw_explore` decides between
    /// exploration and exploitation; `draw_next` decides the Competent
    /// coin of the next-difficulty rule where that rule is consulted.
    ///
    /// Exploration under the decaying strategies first looks for a weak
    /// previously-attempted level to reinforce; otherwise exploration
    /// moves by the next-difficulty rule. Exploitation answers the
    /// best-known action at the current level. The selected pair is
    /// always one of the table's entries.
    #[verifier::rlimit(100)]
    pub fn epsilon_greedy_action(
        &self,
        state: &(Lesson, DifficultyLevel),
        mastery_level: Option<Mastery>,
        draw_explore: i64,
        draw_next: i64,
    ) -> (r: (Lesson, DifficultyLevel))
        requires
            self.wf(),
            self.complete(),
            self.strategy == Strategy::BaseQLearning || mastery_level is Some,
        ensures
            selection_relation(
                *self,
                state.1,
                mastery_level,
                r,
                draw_explore as int,
                draw_next as int,
            ),
            exists|j: int|
                0 <= j < self.entries@.len() && (#[trigger] self.entries@[j]).difficulty == r.1
                    && self.entries@[j].lesson.id@ == r.0.id@,
            0 <= r.1.spec_index() <= 7,
    {
        if draw_explore < self.epsilon {
            if self.strategy == Strategy::DecayingQValues || self.strategy
                == Strategy::TraitSensitivity {
                match self.find_weaker_level() {
                    Some(level) => {
                        let j = self.find_first_at_weak(level);
                        let lesson = self.entries[j].lesson.clone();
                        (lesson, level)
                    },
                    None => self.choose_next_difficulty(state, mastery_level, draw_next),
                }
            } else {
                self.choose_next_difficulty(state, mastery_level, draw_next)
            }
        } else {
            match self.get_best_action(state) {
                Some(pair) => pair,
                None => self.choose_next_difficulty(state, mastery_level, draw_next),
            }
        }
    }

    /// The index of the first entry at a level that the weak-level search
    /// answered; such a level always has an entry in a complete table.
    fn find_first_at_weak(&self, d: DifficultyLevel) -> (j: usize)
        requires
            self.wf(),
            self.complete(),
        ensures
            j < self.entries@.len(),
            self.entries@[j as int].difficulty == d,
            forall|k: int| 0 <= k < j ==> (#[trigger] self.entries@[k]).difficulty != d,
    {
        self.find_first_at(d)
    }
}

/// Whether a decay event fires at difficulty index `k`, given the
/// non-attempt counters and the decay counters: the level has gone
/// unattempted for its threshold of iterations and still has decay events
/// left.
pub open spec fn decay_fires(na: Seq<i64>, dc: Seq<i64>, k: int) -> bool {
    na[k] >= decay_threshold_spec(k) && dc[k] > 0
}

/// The table after one decay pass: every entry at a firing level is
/// multiplied by `1 / decay_counter`, all other entries stay.
pub open spec fn decay_entries_spec(s: Seq<QEntry>, na: Seq<i64>, dc: Seq<i64>) -> Seq<QEntry> {
    Seq::new(
        s.len(),
        |i: int|
            {
                let k = s[i].difficulty.spec_index();
                if decay_fires(na, dc, k) {
                    QEntry {
                        lesson: s[i].lesson,
                        difficulty: s[i].difficulty,
                        value: tdiv(s[i].value as int, dc[k] as int) as i64,
                    }
                } else {
                    s[i]
                }
            },
    )
}

/// The decay counters after one decay pass: a firing level uses up one
/// decay event.
pub open spec fn decay_counters_spec(na: Seq<i64>, dc: Seq<i64>) -> Seq<i64> {
    Seq::new(
        dc.len(),
        |k: int|
            if decay_fires(na, dc, k) {
                (dc[k] - 1) as i64
            } else {
                dc[k]
            },
    )
}

/// The non-attempt counters after one decay pass: a firing level starts
/// counting afresh.
pub open spec fn decay_non_attempts_spec(na: Seq<i64>, dc: Seq<i64>) -> Seq<i64> {
    Seq::new(
        na.len(),
        |k: int|
            if decay_fires(na, dc, k) {
                0
            } else {
                na[k]
            },
    )
}

impl QTableAlgorithm {
    /// Apply one decay pass: at every difficulty that has gone unattempted
    /// for its threshold of iterations and still has decay events left,
    /// shrink all Q-values by the factor `1 / decay_counter`, use up one
    /// decay event, and reset the non-attempt count. Decay counters never
    /// grow.
    pub fn apply_decay(&mut self)
        requires
            old(self).wf(),
        ensures
            final(self).wf(),
            final(self).entries@ == decay_entries_spec(
                old(self).entries@,
                old(self).total_difficulty_non_attempts@,
                old(self).decay_counters@,
            ),
            final(self).decay_counters@ == decay_counters_spec(
                old(self).total_difficulty_non_attempts@,
                old(self).decay_counters@,
            ),
            final(self).total_difficulty_non_attempts@ == decay_non_attempts_spec(
                old(self).total_difficulty_non_attempts@,
                old(self).decay_counters@,
            ),
            forall|k: int|
                0 <= k < 8 ==> #[trigger] final(self).decay_counters@[k] <= old(self).decay_counters@[k],
            final(self).id == old(self).id,
            final(self).epsilon == old(self).epsilon,
            final(self).strategy == old(self).strategy,
            final(self).has_attempted_difficulty == old(self).has_attempted_difficulty,
            final(self).consecutive_attempts == old(self).consecutive_attempts,
    {
        let ghost og = *old(self);
        let ghost spec_entries = decay_entries_spec(
            og.entries@,
            og.total_difficulty_non_attempts@,
            og.decay_counters@,
        );
        let ghost spec_dc = decay_counters_spec(
            og.total_difficulty_non_attempts@,
            og.decay_counters@,
        );
        let ghost spec_na = decay_non_attempts_spec(
            og.total_difficulty_non_attempts@,
            og.decay_counters@,
        );
        let mut k: usize = 0;
        while k < 8
            invariant
                og.wf(),
                k <= 8,
                spec_entries == decay_entries_spec(
                    og.entries@,
                    og.total_difficulty_non_attempts@,
                    og.decay_counters@,
                ),
                spec_dc == decay_counters_spec(
                    og.total_difficulty_non_attempts@,
                    og.decay_counters@,
                ),
                spec_na == decay_non_attempts_spec(
                    og.total_difficulty_non_attempts@,
                    og.decay_counters@,
                ),
                self.entries@.len() == og.entries@.len(),
                self.decay_counters@.len() == 8,
                self.total_difficulty_non_attempts@.len() == 8,
                forall|i: int|
                    0 <= i < self.entries@.len() ==> (#[trigger] self.entries@[i]) == (
                    if og.entries@[i].difficulty.spec_index() < k {
                        spec_entries[i]
                    } else {
                        og.entries@[i]
                    }),
                forall|j: int|
                    0 <= j < 8 ==> (#[trigger] self.decay_counters@[j]) == (
                    if j < k {
                        spec_dc[j]
                    } else {
                        og.decay_counters@[j]
                    }),
                forall|j: int|
                    0 <= j < 8 ==> (#[trigger] self.total_difficulty_non_attempts@[j]) == (
                    if j < k {
                        spec_na[j]
                    } else {
                        og.total_difficulty_non_attempts@[j]
                    }),
                self.id == og.id,
                self.epsilon == og.epsilon,
                self.strategy == og.strategy,
                self.has_attempted_difficulty == og.has_attempted_difficulty,
                self.consecutive_attempts == og.consecutive_attempts,
            decreases 8 - k,
        {
            let threshold = decay_threshold(k);
            let na_k = self.total_difficulty_non_attempts[k];
            let dc_k = self.decay_counters[k];
            if na_k >= threshold && dc_k > 0 {
                proof {
                    assert(decay_fires(
                        og.total_difficulty_non_attempts@,
                        og.decay_counters@,
                        k as int,
                    ));
                }
                let n = self.entries.len();
                let mut i: usize = 0;
                while i < n
                    invariant
                        og.wf(),
                        0 < dc_k <= 9,
                        dc_k == og.decay_counters@[k as int],
                        k < 8,
                        decay_fires(og.total_difficulty_non_attempts@, og.decay_counters@, k as int),
                        spec_entries == decay_entries_spec(
                            og.entries@,
                            og.total_difficulty_non_attempts@,
                            og.decay_counters@,
                        ),
                        n == self.entries@.len(),
                        i <= n,
                        self.entries@.len() == og.entries@.len(),
                        forall|j: int|
                            0 <= j < self.entries@.len() ==> (#[trigger] self.entries@[j]) == (
                            if og.entries@[j].difficulty.spec_index() < k {
                                spec_entries[j]
                            } else if og.entries@[j].difficulty.spec_index() == k && j < i {
                                spec_entries[j]
                            } else {
                                og.entries@[j]
                            }),
                        self.decay_counters@.len() == 8,
                        self.total_difficulty_non_attempts@.len() == 8,
                        forall|j: int|
                            0 <= j < 8 ==> (#[trigger] self.decay_counters@[j]) == (
                            if j < k {
                                spec_dc[j]
                            } else {
                                og.decay_counters@[j]
                            }),
                        forall|j: int|
                            0 <= j < 8 ==> (#[trigger] self.total_difficulty_non_attempts@[j]) == (
                            if j < k {
                                spec_na[j]
                            } else {
                                og.total_difficulty_non_attempts@[j]
                            }),
                        spec_dc == decay_counters_spec(
                            og.total_difficulty_non_attempts@,
                            og.decay_counters@,
                        ),
                        spec_na == decay_non_attempts_spec(
                            og.total_difficulty_non_attempts@,
                            og.decay_counters@,
                        ),
                        self.id == og.id,
                        self.epsilon == og.epsilon,
                        self.strategy == og.strategy,
                        self.has_attempted_difficulty == og.has_attempted_difficulty,
                        self.consecutive_attempts == og.consecutive_attempts,
                    decreases n - i,
                {
                    if self.entries[i].difficulty.index() == k {
                        let v = self.entries[i].value;
                        self.entries[i].value = tdiv_i64(v, dc_k);
                    }
                    i += 1;
                }
                self.decay_counters[k] = dc_k - 1;
                self.total_difficulty_non_attempts[k] = 0;
            } else {
                proof {
                    assert(!decay_fires(
                        og.total_difficulty_non_attempts@,
                        og.decay_counters@,
                        k as int,
                    ));
                }
            }
            k += 1;
        }
        proof {
            assert(self.entries@ =~= spec_entries);
            assert(self.decay_counters@ =~= spec_dc);
            assert(self.total_difficulty_non_attempts@ =~= spec_na);
        }
    }
}

/// A counter bumped by one, saturating at the machine limit.
pub open spec fn sat_inc(x: int) -> int {
    if x < i64::MAX as int {
        x + 1
    } else {
        x
    }
}

/// The table after storing `v` under the key of `lesson` at difficulty
/// `d`: an existing entry with that key keeps its lesson and takes the new
/// value, a missing key is appended.
pub open spec fn table_after_insert(s: Seq<QEntry>, lesson: Lesson, d: DifficultyLevel, v: int) -> Seq<
    QEntry,
> {
    if has_key(s, lesson.id@, d) {
        Seq::new(
            s.len(),
            |i: int|
                if entry_matches(s[i], lesson.id@, d) {
                    QEntry { lesson: s[i].lesson, difficulty: s[i].difficulty, value: v as i64 }
                } else {
                    s[i]
                },
        )
    } else {
        s.push(QEntry { lesson, difficulty: d, value: v as i64 })
    }
}

/// The consecutive-attempt counters after an attempt at difficulty index
/// `di`: that level's count grows by one and every other level resets.
pub open spec fn consecutive_after_update(cons: Seq<i64>, di: int) -> Seq<i64> {
    Seq::new(
        cons.len(),
        |k: int|
            if k == di {
                sat_inc(cons[di] as int) as i64
            } else {
                0
            },
    )
}

/// The non-attempt counters after an attempt at difficulty index `di`,
/// given the updated has-been-attempted flags: the attempted level resets,
/// every other previously-attempted level ages by one, and untouched
/// levels stay at zero.
pub open spec fn non_attempts_after_update(na: Seq<i64>, attempted: Seq<bool>, di: int) -> Seq<i64> {
    Seq::new(
        na.len(),
        |k: int|
            if !attempted[k] {
                na[k]
            } else if k == di {
                0
            } else {
                sat_inc(na[k] as int) as i64
            },
    )
}

/// Decay never touches a difficulty that has not been attempted: its
/// non-attempt counter is still zero, which is below every threshold.
pub proof fn lemma_decay_skips_unattempted(q: QTableAlgorithm, k: int)
    requires
        q.wf(),
        0 <= k < 8,
        !q.has_attempted_difficulty@[k],
    ensures
        !decay_fires(q.total_difficulty_non_attempts@, q.decay_counters@, k),
        decay_counters_spec(q.total_difficulty_non_attempts@, q.decay_counters@)[k]
            == q.decay_counters@[k],
        forall|i: int|
            0 <= i < q.entries@.len() && (#[trigger] q.entries@[i]).difficulty.spec_index() == k
                ==> decay_entries_spec(
                q.entries@,
                q.total_difficulty_non_attempts@,
                q.decay_counters@,
            )[i] == q.entries@[i],
{
    assert(q.total_difficulty_non_attempts@[k] == 0);
}

impl QTableAlgorithm {
    /// Mark a difficulty as attempted at least once, without touching any
    /// Q-value or counter. Seeding a table into a mid-run state uses this
    /// together with `insert`.
    pub fn mark_attempted(&mut self, difficulty_level: &DifficultyLevel)
        requires
            old(self).wf(),
        ensures
            final(self).wf(),
            final(self).has_attempted_difficulty@ == old(self).has_attempted_difficulty@.update(
                difficulty_level.spec_index(),
                true,
            ),
            final(self).entries@ == old(self).entries@,
            final(self).id == old(self).id,
            final(self).epsilon == old(self).epsilon,
            final(self).strategy == old(self).strategy,
            final(self).decay_counters == old(self).decay_counters,
            final(self).total_difficulty_non_attempts == old(self).total_difficulty_non_attempts,
            final(self).consecutive_attempts == old(self).consecutive_attempts,
    {
        let k = difficulty_level.index();
        self.has_attempted_difficulty[k] = true;
    }

    /// Feed one lesson outcome into the table, with the Competent coin's
    /// draw passed in. The steps, in order: mark the state's difficulty
    /// attempted and update the consecutive-attempt counters; compute the
    /// clamped reward, its mastery grade (under every strategy but plain
    /// Q-learning) and the adjusted reward; run the next-difficulty rule
    /// and read the best value at the chosen level; move the state's
    /// Q-value by the Bellman step; age the non-attempt counters; and
    /// under the decaying strategies apply one decay pass. Returns the
    /// mastery grade.
    ///
    /// Decay counters never grow, at most the attempted level's
    /// consecutive-attempt counter is non-zero afterwards, and when every
    /// stored value lies in `[-1.0, 1.0]` and the adjusted reward is at
    /// least `-3/4`, every stored value stays in `[-1.0, 1.0]`.
    #[verifier::rlimit(100)]
    pub fn update_with_draw(
        &mut self,
        state: (Lesson, DifficultyLevel),
        lesson_result: &LessonResult,
        draw: i64,
    ) -> (r: Option<Mastery>)
        requires
            old(self).wf(),
            old(self).complete(),
            lesson_result.wf(),
        ensures
            final(self).wf(),
            update_relation(
                *old(self),
                *final(self),
                state.0,
                state.1,
                *lesson_result,
                r,
                draw as int,
            ),
            forall|k: int|
                0 <= k < 8 ==> #[trigger] final(self).decay_counters@[k] <= old(self).decay_counters@[k],
            final(self).consecutive_attempts@[state.1.spec_index()] > 0,
            forall|k: int|
                0 <= k < 8 && k != state.1.spec_index() ==> #[trigger] final(self).consecutive_attempts@[k] == 0,
            final(self).id == old(self).id,
            final(self).epsilon == old(self).epsilon,
            final(self).strategy == old(self).strategy,
    {
        let ghost og = *old(self);
        let di = state.1.index();

        // Reads: reward, mastery, adjusted reward, next state, its best
        // value, and the state's current value.
        let reward = compute_reward(lesson_result, state.1);
        let mastery: Option<Mastery> = match self.strategy {
            Strategy::BaseQLearning => None,
            _ => Some(classify_mastery(reward)),
        };
        let adjusted: i64 = match self.strategy {
            Strategy::BaseQLearning => reward,
            _ => match mastery {
                Some(Mastery::Full) => UNIT,
                Some(Mastery::Competent) => reward + 100000,
                Some(Mastery::Basic) => reward,
                Some(Mastery::NoMastery) => reward - 100000,
                None => reward,
            },
        };
        proof {
            assert(adjusted == adjusted_reward_spec(og.strategy, reward as int));
            lemma_adjusted_reward_range(og.strategy, reward as int);
        }

        let next = self.choose_next_difficulty(&state, mastery, draw);
        let next_max = self.max_q_at_level(next.1);
        proof {
            lemma_max_q_props(og.entries@, next.1, og.entries@.len() as int);
            assert(-2 * UNIT <= next_max <= UNIT);
        }
        let old_v: i64 = match self.get(&state) {
            Some(v) => v,
            None => 0,
        };

        let num: i64 = 4 * old_v + 12 * adjusted + 3 * next_max;
        let v0 = tdiv_i64(num, 16);
        let new_value: i64 = if v0 > UNIT {
            UNIT
        } else {
            v0
        };
        proof {
            lemma_q_update_loose_bounds(old_v as int, adjusted as int, next_max as int);
            assert(new_value == q_update_spec(old_v as int, adjusted as int, next_max as int));
        }

        // Bookkeeping: the attempted level and the consecutive counters.
        self.has_attempted_difficulty[di] = true;
        let ghost has2 = og.has_attempted_difficulty@.update(di as int, true);
        proof {
            assert(self.has_attempted_difficulty@ =~= has2);
        }

        let mut k: usize = 0;
        while k < 8
            invariant
                og.wf(),
                k <= 8,
                di < 8,
                di == state.1.spec_index(),
                self.consecutive_attempts@.len() == 8,
                forall|j: int|
                    0 <= j < 8 ==> (#[trigger] self.consecutive_attempts@[j]) == (
                    if j < k {
                        consecutive_after_update(og.consecutive_attempts@, di as int)[j]
                    } else {
                        og.consecutive_attempts@[j]
                    }),
                self.entries@ == og.entries@,
                self.id == og.id,
                self.epsilon == og.epsilon,
                self.strategy == og.strategy,
                self.decay_counters@ == og.decay_counters@,
                self.total_difficulty_non_attempts@ == og.total_difficulty_non_attempts@,
                self.has_attempted_difficulty@ == has2,
            decreases 8 - k,
        {
            if k == di {
                let c = self.consecutive_attempts[k];
                self.consecutive_attempts[k] = if c < i64::MAX {
                    c + 1
                } else {
                    c
                };
            } else {
                self.consecutive_attempts[k] = 0;
            }
            k += 1;
        }
        let ghost cons2 = consecutive_after_update(og.consecutive_attempts@, di as int);
        proof {
            assert(self.consecutive_attempts@ =~= cons2);
        }

        // Store the moved Q-value.
        let ghost glesson = state.0;
        let ghost pre_insert = *self;
        self.insert(state, new_value);
        let ghost entries2 = table_after_insert(og.entries@, glesson, state.1, new_value as int);
        proof {
            if has_key(og.entries@, glesson.id@, state.1) {
                assert(self.entries@ =~= entries2);
            } else {
                assert(self.entries@ =~= entries2);
            }
        }

        // Age the non-attempt counters.
        let mut k2: usize = 0;
        while k2 < 8
            invariant
                og.wf(),
                k2 <= 8,
                di < 8,
                self.total_difficulty_non_attempts@.len() == 8,
                self.has_attempted_difficulty@.len() == 8,
                self.has_attempted_difficulty@ == has2,
                has2 == og.has_attempted_difficulty@.update(di as int, true),
                forall|j: int|
                    0 <= j < 8 ==> (#[trigger] self.total_difficulty_non_attempts@[j]) == (
                    if j < k2 {
                        non_attempts_after_update(
                            og.total_difficulty_non_attempts@,
                            has2,
                            di as int,
                        )[j]
                    } else {
                        og.total_difficulty_non_attempts@[j]
                    }),
                self.entries@ == entries2,
                self.id == og.id,
                self.epsilon == og.epsilon,
                self.strategy == og.strategy,
                self.decay_counters@ == og.decay_counters@,
                self.consecutive_attempts@ == cons2,
            decreases 8 - k2,
        {
            if !self.has_attempted_difficulty[k2] {
            } else if k2 == di {
                self.total_difficulty_non_attempts[k2] = 0;
            } else {
                let c = self.total_difficulty_non_attempts[k2];
                self.total_difficulty_non_attempts[k2] = if c < i64::MAX {
                    c + 1
                } else {
                    c
                };
            }
            k2 += 1;
        }
        let ghost na2 = non_attempts_after_update(
            og.total_difficulty_non_attempts@,
            has2,
            di as int,
        );
        proof {
            assert(self.total_difficulty_non_attempts@ =~= na2);
        }

        // Decay, under the strategies that use it.
        if self.strategy == Strategy::DecayingQValues || self.strategy
            == Strategy::TraitSensitivity {
            proof {
                assert(self.wf());
            }
            self.apply_decay();
        }

        mastery
    }
}

/// How one `update` call turns the pre-state `og` into the post-state
/// `fin`, given the (lesson, difficulty) state fed in, the lesson outcome,
/// the returned mastery grade, and the Competent coin's draw. The steps:
/// the clamped reward is graded and adjusted; the next-difficulty rule
/// picks the next level, whose best value discounts into the Bellman step
/// on the state's entry; the attempted level is marked, the
/// consecutive-attempt counters turn over, the non-attempt counters age;
/// and the decaying strategies run one decay pass.
pub open spec fn update_relation(
    og: QTableAlgorithm,
    fin: QTableAlgorithm,
    lesson: Lesson,
    d: DifficultyLevel,
    result: LessonResult,
    r: Option<Mastery>,
    draw: int,
) -> bool {
    let di = d.spec_index();
    let reward = clamped_reward_spec(result, d);
    let mastery = mastery_spec(og.strategy, reward);
    let r_adj = adjusted_reward_spec(og.strategy, reward);
    let nk = og.next_index_spec(d, mastery, draw);
    let nm = max_q_at(og.entries@, DifficultyLevel::spec_from_index(nk));
    let old_v = if has_key(og.entries@, lesson.id@, d) {
        lookup(og.entries@, lesson.id@, d)
    } else {
        0
    };
    let new_v = q_update_spec(old_v, r_adj, nm);
    let has2 = og.has_attempted_difficulty@.update(di, true);
    let cons2 = consecutive_after_update(og.consecutive_attempts@, di);
    let na2 = non_attempts_after_update(og.total_difficulty_non_attempts@, has2, di);
    let entries2 = table_after_insert(og.entries@, lesson, d, new_v);
    &&& r == mastery
    &&& fin.has_attempted_difficulty@ == has2
    &&& fin.consecutive_attempts@ == cons2
    &&& if og.strategy == Strategy::DecayingQValues || og.strategy == Strategy::TraitSensitivity {
        &&& fin.entries@ == decay_entries_spec(entries2, na2, og.decay_counters@)
        &&& fin.decay_counters@ == decay_counters_spec(na2, og.decay_counters@)
        &&& fin.total_difficulty_non_attempts@ == decay_non_attempts_spec(na2, og.decay_counters@)
    } else {
        &&& fin.entries@ == entries2
        &&& fin.decay_counters@ == og.decay_counters@
        &&& fin.total_difficulty_non_attempts@ == na2
    }
}

/// Every stored Q-value lies within `[-1.0, 1.0]`.
pub open spec fn values_within_unit(s: Seq<QEntry>) -> bool {
    forall|i: int| 0 <= i < s.len() ==> -(UNIT as int) <= (#[trigger] s[i]).value <= UNIT as int
}

/// After an update, every Q-value still lies in `[-1.0, 1.0]`, provided
/// every value did so before and the adjusted reward of the outcome is at
/// least `-3/4`. (A reward below that bound, possible only for an outcome
/// whose clamped reward falls under `-0.65`, can push the value below
/// `-1.0`, since only the upper end is capped at the Bellman step.)
///
/// The conclusion speaks of the same table transformation that
/// `update_with_draw` promises: the stored Bellman step followed, under
/// the decaying strategies, by one decay pass.
pub proof fn lemma_update_preserves_unit_bounds(
    og: QTableAlgorithm,
    lesson: Lesson,
    d: DifficultyLevel,
    result: LessonResult,
    draw: int,
)
    requires
        og.wf(),
        values_within_unit(og.entries@),
        adjusted_reward_spec(og.strategy, clamped_reward_spec(result, d)) >= -750000,
    ensures
        ({
            let di = d.spec_index();
            let reward = clamped_reward_spec(result, d);
            let mastery = mastery_spec(og.strategy, reward);
            let r_adj = adjusted_reward_spec(og.strategy, reward);
            let nk = og.next_index_spec(d, mastery, draw);
            let nm = max_q_at(og.entries@, DifficultyLevel::spec_from_index(nk));
            let old_v = if has_key(og.entries@, lesson.id@, d) {
                lookup(og.entries@, lesson.id@, d)
            } else {
                0
            };
            let new_v = q_update_spec(old_v, r_adj, nm);
            let has2 = og.has_attempted_difficulty@.update(di, true);
            let cons2 = consecutive_after_update(og.consecutive_attempts@, di);
            let na2 = non_attempts_after_update(og.total_difficulty_non_attempts@, has2, di);
            let entries2 = table_after_insert(og.entries@, lesson, d, new_v);
            if og.strategy == Strategy::DecayingQValues || og.strategy
                == Strategy::TraitSensitivity {
                values_within_unit(decay_entries_spec(entries2, na2, og.decay_counters@))
            } else {
                values_within_unit(entries2)
            }
        }),
{
    let di = d.spec_index();
    let reward = clamped_reward_spec(result, d);
    let mastery = mastery_spec(og.strategy, reward);
    let r_adj = adjusted_reward_spec(og.strategy, reward);
    let nk = og.next_index_spec(d, mastery, draw);
    let nd = DifficultyLevel::spec_from_index(nk);
    let nm = max_q_at(og.entries@, nd);
    let old_v = if has_key(og.entries@, lesson.id@, d) {
        lookup(og.entries@, lesson.id@, d)
    } else {
        0
    };
    lemma_max_q_props(og.entries@, nd, og.entries@.len() as int);
    assert(-(UNIT as int) <= nm <= UNIT as int);
    assert(-(UNIT as int) <= old_v <= UNIT as int);
    lemma_q_update_unit_bounds(old_v, r_adj, nm);
    let new_v = q_update_spec(old_v, r_adj, nm);
    let has2 = og.has_attempted_difficulty@.update(di, true);
    let na2 = non_attempts_after_update(og.total_difficulty_non_attempts@, has2, di);
    let entries2 = table_after_insert(og.entries@, lesson, d, new_v);
    assert(values_within_unit(entries2)) by {
        assert forall|i: int| 0 <= i < entries2.len() implies -(UNIT as int) <= (
        #[trigger] entries2[i]).value <= UNIT as int by {
            if has_key(og.entries@, lesson.id@, d) {
                assert(entries2[i] == if entry_matches(og.entries@[i], lesson.id@, d) {
                    QEntry {
                        lesson: og.entries@[i].lesson,
                        difficulty: og.entries@[i].difficulty,
                        value: new_v as i64,
                    }
                } else {
                    og.entries@[i]
                });
            } else {
                if i < og.entries@.len() {
                    assert(entries2[i] == og.entries@[i]);
                }
            }
        }
    }
    if og.strategy == Strategy::DecayingQValues || og.strategy == Strategy::TraitSensitivity {
        let dec = decay_entries_spec(entries2, na2, og.decay_counters@);
        assert forall|i: int| 0 <= i < dec.len() implies -(UNIT as int) <= (#[trigger] dec[i]).value
            <= UNIT as int by {
            let k = entries2[i].difficulty.spec_index();
            if decay_fires(na2, og.decay_counters@, k) {
                lemma_tdiv_bounds(entries2[i].value as int, og.decay_counters@[k] as int);
            }
        }
    }
}

/// With a zero exploration rate the policy always exploits; with the full
/// rate it always explores. The draws are uniform in `[0, UNIT)`.
pub proof fn lemma_epsilon_extremes(
    q: QTableAlgorithm,
    cur: DifficultyLevel,
    mastery: Option<Mastery>,
    draw_explore: int,
    draw_next: int,
)
    requires
        0 <= draw_explore < UNIT as int,
        q.wf(),
    ensures
        q.epsilon == 0 ==> !(draw_explore < q.epsilon as int) && (has_at(q.entries@, cur)
            ==> q.exploits(cur, draw_explore)),
        q.epsilon == UNIT ==> draw_explore < q.epsilon as int && !q.exploits(cur, draw_explore)
            && q.selected_index_spec(cur, mastery, draw_explore, draw_next) == if q.strategy
            == Strategy::DecayingQValues || q.strategy == Strategy::TraitSensitivity {
            match q.weakest_attempted_from(0) {
                Some(k) => k,
                None => q.next_index_spec(cur, mastery, draw_next),
            }
        } else {
            q.next_index_spec(cur, mastery, draw_next)
        },
{
}

/// Under plain Q-learning the next-difficulty rule always advances one
/// level, saturating at the top of the scale.
pub proof fn lemma_base_always_advances(
    q: QTableAlgorithm,
    cur: DifficultyLevel,
    mastery: Option<Mastery>,
    draw: int,
)
    requires
        q.strategy == Strategy::BaseQLearning,
    ensures
        q.next_index_spec(cur, mastery, draw) == if cur.spec_index() >= 7 {
            7
        } else {
            cur.spec_index() + 1
        },
{
}

/// From the top of the scale, full mastery keeps the learner at the top:
/// the rule saturates and never overshoots.
pub proof fn lemma_saturates_at_top(q: QTableAlgorithm, draw: int)
    ensures
        q.next_index_spec(DifficultyLevel::Grandmaster, Some(Mastery::Full), draw) == 7,
{
}

/// From the bottom of the scale, the grade below Basic keeps the learner
/// at the bottom: the rule never drops below the lowest level.
pub proof fn lemma_saturates_at_bottom(q: QTableAlgorithm, draw: int)
    requires
        q.strategy != Strategy::BaseQLearning,
    ensures
        q.next_index_spec(DifficultyLevel::VeryEasy, Some(Mastery::NoMastery), draw) == 0,
{
}

impl QTableAlgorithm {
    /// Feed one lesson outcome into the table, drawing the Competent coin
    /// from the given generator. Every fact below holds whatever the
    /// generator produced; the exact table transformation holds for some
    /// draw in `[0, 1.0)`.
    pub fn update(
        &mut self,
        state: (Lesson, DifficultyLevel),
        lesson_result: &LessonResult,
        rng: &mut rand::rngs::StdRng,
    ) -> (r: Option<Mastery>)
        requires
            old(self).wf(),
            old(self).complete(),
            lesson_result.wf(),
        ensures
            final(self).wf(),
            exists|draw: int|
                0 <= draw < UNIT as int && update_relation(
                    *old(self),
                    *final(self),
                    state.0,
                    state.1,
                    *lesson_result,
                    r,
                    draw,
                ),
            r == mastery_spec(old(self).strategy, clamped_reward_spec(*lesson_result, state.1)),
            forall|k: int|
                0 <= k < 8 ==> #[trigger] final(self).decay_counters@[k] <= old(self).decay_counters@[k],
            final(self).consecutive_attempts@[state.1.spec_index()] > 0,
            forall|k: int|
                0 <= k < 8 && k != state.1.spec_index() ==> #[trigger] final(self).consecutive_attempts@[k] == 0,
            final(self).id == old(self).id,
            final(self).epsilon == old(self).epsilon,
            final(self).strategy == old(self).strategy,
    {
        let draw = crate::rng::next_unit(rng);
        self.update_with_draw(state, lesson_result, draw)
    }

    /// Epsilon-greedy action selection, drawing from the given generator.
    /// The selected pair is always one of the table's entries; the exact
    /// selection holds for some pair of draws in `[0, 1.0)`.
    pub fn select_action(
        &self,
        state: &(Lesson, DifficultyLevel),
        mastery_level: Option<Mastery>,
        rng: &mut rand::rngs::StdRng,
    ) -> (r: (Lesson, DifficultyLevel))
        requires
            self.wf(),
            self.complete(),
            self.strategy == Strategy::BaseQLearning || mastery_level is Some,
        ensures
            exists|de: int, dn: int|
                0 <= de < UNIT as int && 0 <= dn < UNIT as int && selection_relation(
                    *self,
                    state.1,
                    mastery_level,
                    r,
                    de,
                    dn,
                ),
            exists|j: int|
                0 <= j < self.entries@.len() && (#[trigger] self.entries@[j]).difficulty == r.1
                    && self.entries@[j].lesson.id@ == r.0.id@,
            0 <= r.1.spec_index() <= 7,
    {
        let draw_explore = crate::rng::next_unit(rng);
        let draw_next = crate::rng::next_unit(rng);
        self.epsilon_greedy_action(state, mastery_level, draw_explore, draw_next)
    }
}

} // verus!

//! Per-entity learning state: memory, pairwise relationships, skills and
//! strategy, together with the learning update applied after every match.
//!
//! All scalar quantities are fixed-point integers:
//! - confidence, risk tolerance and trust levels are in hundredths
//!   (`50` means `0.50`);
//! - skill levels and training intensity are in thousandths and hundredths
//!   respectively (`50_000` means a level of `50.0`);
//! - win rates are in ten-thousandths (`5_000` means `0.5`).
//!
//! Every step the learning rules take (`0.02`, `0.05`, half the intensity,
//! and so on) is a whole number of these units, so the arithmetic below is
//! exact, and saturation at the documented bounds replaces rounding.

use vstd::prelude::*;
use crate::sat_add;
use crate::saturating_add_u64;
use crate::text::{dec_digits, u64_to_string};

verus! {

/// Capacity of the short-term memory; the oldest entry is evicted first.
pub const MAX_SHORT_TERM_MEMORY: usize = 100;

/// Upper bound of `confidence` in hundredths (`1.0`).
pub const MAX_CONFIDENCE: u64 = 100;

/// Bounds of a relationship's `trust_level` in hundredths (`-1.0` and `1.0`).
pub const MIN_TRUST: i64 = -100;

/// See [`MIN_TRUST`].
pub const MAX_TRUST: i64 = 100;

/// Upper bound of a skill level in thousandths (`100.0`).
pub const MAX_SKILL: u64 = 100_000;

/// Level a skill starts from, in thousandths (`50.0`).
pub const DEFAULT_SKILL: u64 = 50_000;

/// Win rate reported when there is no history, in ten-thousandths (`0.5`).
pub const NEUTRAL_RATE: u64 = 5_000;

/// Denominator of the win-rate fixed point.
pub const RATE_SCALE: u64 = 10_000;

/// Competition stance an entity takes for one match.
#[derive(Clone, Copy, Debug, PartialEq, Eq, Structural)]
pub enum Strategy {
    Aggressive,
    Balanced,
    Defensive,
    Adaptive,
}

/// One immutable record of something the entity experienced.
/// `outcome` is a scalar in hundredths.
#[derive(Clone, Debug)]
pub struct MemoryEntry {
    pub timestamp: u64,
    pub event_type: String,
    pub outcome: i64,
    pub context: Vec<(String, String)>,
}

/// Mathematical value of a [`MemoryEntry`].
#[verifier::ext_equal]
pub ghost struct MemoryEntryView {
    pub timestamp: u64,
    pub event_type: Seq<char>,
    pub outcome: i64,
    pub context: Seq<(Seq<char>, Seq<char>)>,
}

impl View for MemoryEntry {
    type V = MemoryEntryView;

    open spec fn view(&self) -> MemoryEntryView {
        MemoryEntryView {
            timestamp: self.timestamp,
            event_type: self.event_type@,
            outcome: self.outcome,
            context: self.context@.map_values(|p: (String, String)| (p.0@, p.1@)),
        }
    }
}

/// One entity's trust and history toward a specific opponent.
/// `trust_level` is in hundredths and stays within `[-1.0, 1.0]`.
#[derive(Clone, Copy, Debug)]
pub struct Relationship {
    pub entity_id: u64,
    pub trust_level: i64,
    pub interactions: u64,
    pub last_interaction: u64,
    pub wins_against: u64,
    pub losses_against: u64,
}

impl Relationship {
    /// Bounded trust, and win/loss counts never ahead of the interaction count.
    pub open spec fn wf(self) -> bool {
        &&& MIN_TRUST <= self.trust_level <= MAX_TRUST
        &&& self.wins_against <= self.interactions
        &&& self.losses_against <= self.interactions
    }
}

/// A relationship as it is first recorded, before any match against the
/// opponent has been counted.
pub open spec fn fresh_rel(entity_id: u64, now: u64) -> Relationship {
    Relationship {
        entity_id,
        trust_level: 0,
        interactions: 0,
        last_interaction: now,
        wins_against: 0,
        losses_against: 0,
    }
}

/// The relationship after one more match.  Winning against an opponent
/// lowers trust in them by `0.05`; losing raises it: growing respect and
/// caution after a loss.  Counters saturate at the numeric limit.
pub open spec fn updated_rel(r: Relationship, won: bool, now: u64) -> Relationship {
    Relationship {
        entity_id: r.entity_id,
        interactions: sat_add(r.interactions, 1),
        last_interaction: now,
        wins_against: if won { sat_add(r.wins_against, 1) } else { r.wins_against },
        losses_against: if won { r.losses_against } else { sat_add(r.losses_against, 1) },
        trust_level: if won {
            if r.trust_level - 5 >= MIN_TRUST { (r.trust_level - 5) as i64 } else { MIN_TRUST }
        } else {
            if r.trust_level + 5 <= MAX_TRUST { (r.trust_level + 5) as i64 } else { MAX_TRUST }
        },
    }
}

/// Win rate of a relationship in ten-thousandths: the neutral prior `0.5`
/// before any interaction, otherwise `wins_against / interactions` rounded
/// down to the grid.
pub open spec fn rel_win_rate(r: Relationship) -> int {
    if r.interactions == 0 {
        NEUTRAL_RATE as int
    } else {
        (RATE_SCALE * r.wins_against) as int / r.interactions as int
    }
}

impl Relationship {
    /// Starts a relationship with neutral trust and no history.
    pub fn new(entity_id: u64, now: u64) -> (r: Relationship)
        ensures
            r == fresh_rel(entity_id, now),
    {
        Relationship {
            entity_id,
            trust_level: 0,
            interactions: 0,
            last_interaction: now,
            wins_against: 0,
            losses_against: 0,
        }
    }

    /// Records one more match against this opponent; see [`updated_rel`]
    /// for the exact update, including the asymmetric trust rule.
    pub fn update_after_match(&mut self, won: bool, now: u64)
        requires
            old(self).wf(),
        ensures
            *final(self) == updated_rel(*old(self), won, now),
            final(self).wf(),
    {
        self.interactions = saturating_add_u64(self.interactions, 1);
        self.last_interaction = now;
        if won {
            self.wins_against = saturating_add_u64(self.wins_against, 1);
            self.trust_level = if self.trust_level - 5 >= MIN_TRUST {
                self.trust_level - 5
            } else {
                MIN_TRUST
            };
        } else {
            self.losses_against = saturating_add_u64(self.losses_against, 1);
            self.trust_level = if self.trust_level + 5 <= MAX_TRUST {
                self.trust_level + 5
            } else {
                MAX_TRUST
            };
        }
    }

    /// Win rate in ten-thousandths; always defined, `0.5` with no history.
    /// The last two clauses pin the fixed-point value to the exact ratio:
    /// `r / 10000` is `wins_against / interactions` rounded down.
    pub fn win_rate(&self) -> (r: u64)
        requires
            self.wf(),
        ensures
            r == rel_win_rate(*self),
            r <= RATE_SCALE,
            self.interactions > 0 ==> r * self.interactions
                <= RATE_SCALE * self.wins_against,
            self.interactions > 0 ==> RATE_SCALE * self.wins_against
                < (r + 1) * self.interactions,
    {
        if self.interactions == 0 {
            NEUTRAL_RATE
        } else {
            let w = self.wins_against;
            let i = self.interactions;
            proof {
                assert((RATE_SCALE * w) as int / i as int <= RATE_SCALE) by (nonlinear_arith)
                    requires
                        0 < i,
                        w <= i,
                        RATE_SCALE == 10_000,
                ;
                let q = (RATE_SCALE * w) as int / i as int;
                assert(q * i <= RATE_SCALE * w < (q + 1) * i) by (nonlinear_arith)
                    requires
                        0 < i,
                        q == (RATE_SCALE * w) as int / i as int,
                ;
            }
            let wide: u128 = (RATE_SCALE as u128) * (w as u128);
            (wide / (i as u128)) as u64
        }
    }
}

/// A longer-term objective an entity pursues.  `progress` is in hundredths.
#[derive(Clone, Debug)]
pub struct Goal {
    pub goal_type: String,
    pub priority: u8,
    pub progress: u64,
    pub deadline: Option<u64>,
}

/// Mathematical value of a [`Goal`].
#[verifier::ext_equal]
pub ghost struct GoalView {
    pub goal_type: Seq<char>,
    pub priority: u8,
    pub progress: u64,
    pub deadline: Option<u64>,
}

impl View for Goal {
    type V = GoalView;

    open spec fn view(&self) -> GoalView {
        GoalView {
            goal_type: self.goal_type@,
            priority: self.priority,
            progress: self.progress,
            deadline: self.deadline,
        }
    }
}

/// Per-entity learning and memory state.  One brain exists per entity and
/// is owned exclusively by the store that spawned it.
///
/// Fixed-point units: `confidence` and `risk_tolerance` in hundredths within
/// `[0, 1.0]`; skill levels in thousandths within `[0, 100.0]`; `earnings`,
/// `net_worth` and `reputation_score` in hundredths.
#[derive(Clone, Debug)]
pub struct EntityBrain {
    pub entity_id: u64,
    pub created_at: u64,
    pub short_term_memory: Vec<MemoryEntry>,
    pub long_term_memory: Vec<(String, i64)>,
    pub relationships: Vec<Relationship>,
    pub experience_points: u64,
    pub total_matches: u64,
    pub wins: u64,
    pub losses: u64,
    pub draws: u64,
    pub skill_levels: Vec<(String, u64)>,
    pub training_sessions: u64,
    pub preferred_strategy: Strategy,
    pub risk_tolerance: u64,
    pub confidence: u64,
    pub goals: Vec<Goal>,
    pub achievement_count: u64,
    pub earnings: u64,
    pub net_worth: u64,
    pub reputation_score: u64,
}

/// Mathematical value of an [`EntityBrain`]: the same fields over sequences
/// and character sequences instead of vectors and strings.
#[verifier::ext_equal]
pub ghost struct BrainView {
    pub entity_id: u64,
    pub created_at: u64,
    pub short_term_memory: Seq<MemoryEntryView>,
    pub long_term_memory: Seq<(Seq<char>, i64)>,
    pub relationships: Seq<Relationship>,
    pub experience_points: u64,
    pub total_matches: u64,
    pub wins: u64,
    pub losses: u64,
    pub draws: u64,
    pub skill_levels: Seq<(Seq<char>, u64)>,
    pub training_sessions: u64,
    pub preferred_strategy: Strategy,
    pub risk_tolerance: u64,
    pub confidence: u64,
    pub goals: Seq<GoalView>,
    pub achievement_count: u64,
    pub earnings: u64,
    pub net_worth: u64,
    pub reputation_score: u64,
}

impl View for EntityBrain {
    type V = BrainView;

    open spec fn view(&self) -> BrainView {
        BrainView {
            entity_id: self.entity_id,
            created_at: self.created_at,
            short_term_memory: self.short_term_memory@.map_values(|m: MemoryEntry| m@),
            long_term_memory: self.long_term_memory@.map_values(|p: (String, i64)| (p.0@, p.1)),
            relationships: self.relationships@,
            experience_points: self.experience_points,
            total_matches: self.total_matches,
            wins: self.wins,
            losses: self.losses,
            draws: self.draws,
            skill_levels: self.skill_levels@.map_values(|p: (String, u64)| (p.0@, p.1)),
            training_sessions: self.training_sessions,
            preferred_strategy: self.preferred_strategy,
            risk_tolerance: self.risk_tolerance,
            confidence: self.confidence,
            goals: self.goals@.map_values(|g: Goal| g@),
            achievement_count: self.achievement_count,
            earnings: self.earnings,
            net_worth: self.net_worth,
            reputation_score: self.reputation_score,
        }
    }
}

/// Index of the relationship toward `opp` in `rels`, or `-1` if none is
/// recorded.  With distinct opponent ids this is the only match.
pub open spec fn rel_index_of(rels: Seq<Relationship>, opp: u64) -> int
    decreases rels.len(),
{
    if rels.len() == 0 {
        -1
    } else if rels[0].entity_id == opp {
        0
    } else if rel_index_of(rels.drop_first(), opp) == -1 {
        -1
    } else {
        rel_index_of(rels.drop_first(), opp) + 1
    }
}

/// `rel_index_of` finds the first match: a valid index pointing at `opp`
/// with no earlier match, or `-1` when no entry matches at all.
pub proof fn lemma_rel_index_of(rels: Seq<Relationship>, opp: u64)
    ensures
        -1 <= rel_index_of(rels, opp) < rels.len(),
        rel_index_of(rels, opp) == -1 ==> forall|k: int|
            0 <= k < rels.len() ==> rels[k].entity_id != opp,
        rel_index_of(rels, opp) >= 0 ==> rels[rel_index_of(rels, opp)].entity_id == opp,
        rel_index_of(rels, opp) >= 0 ==> forall|k: int|
            0 <= k < rel_index_of(rels, opp) ==> rels[k].entity_id != opp,
    decreases rels.len(),
{
    if rels.len() > 0 && rels[0].entity_id != opp {
        lemma_rel_index_of(rels.drop_first(), opp);
        assert(forall|k: int|
            1 <= k < rels.len() ==> rels[k] == rels.drop_first()[k - 1]);
    }
}

/// Index of the skill named `name`, or `-1` if the entity has not seen it.
pub open spec fn skill_index_of(skills: Seq<(Seq<char>, u64)>, name: Seq<char>) -> int
    decreases skills.len(),
{
    if skills.len() == 0 {
        -1
    } else if skills[0].0 == name {
        0
    } else if skill_index_of(skills.drop_first(), name) == -1 {
        -1
    } else {
        skill_index_of(skills.drop_first(), name) + 1
    }
}

/// `skill_index_of` finds the first match, as [`lemma_rel_index_of`] does
/// for relationships.
pub proof fn lemma_skill_index_of(skills: Seq<(Seq<char>, u64)>, name: Seq<char>)
    ensures
        -1 <= skill_index_of(skills, name) < skills.len(),
        skill_index_of(skills, name) == -1 ==> forall|k: int|
            0 <= k < skills.len() ==> skills[k].0 != name,
        skill_index_of(skills, name) >= 0 ==> skills[skill_index_of(skills, name)].0 == name,
        skill_index_of(skills, name) >= 0 ==> forall|k: int|
            0 <= k < skill_index_of(skills, name) ==> skills[k].0 != name,
    decreases skills.len(),
{
    if skills.len() > 0 && skills[0].0 != name {
        lemma_skill_index_of(skills.drop_first(), name);
        assert(forall|k: int|
            1 <= k < skills.len() ==> skills[k] == skills.drop_first()[k - 1]);
    }
}

/// Level of the skill `name`, falling back to the default for a skill the
/// entity has never trained.
pub open spec fn skill_level_of(skills: Seq<(Seq<char>, u64)>, name: Seq<char>) -> int {
    if skill_index_of(skills, name) >= 0 {
        skills[skill_index_of(skills, name)].1 as int
    } else {
        DEFAULT_SKILL as int
    }
}

impl BrainView {
    /// All bounds that every operation preserves: confidence and risk
    /// tolerance within `[0, 1.0]`, every skill within `[0, 100.0]`, every
    /// relationship well formed, keys unique, and the short-term memory
    /// within its capacity.
    pub open spec fn wf(self) -> bool {
        &&& self.confidence <= MAX_CONFIDENCE
        &&& self.risk_tolerance <= MAX_CONFIDENCE
        &&& self.wins <= self.total_matches
        &&& self.losses <= self.total_matches
        &&& self.short_term_memory.len() <= MAX_SHORT_TERM_MEMORY
        &&& forall|k: int| 0 <= k < self.relationships.len() ==> (#[trigger] self.relationships[k]).wf()
        &&& forall|j: int, k: int|
            0 <= j < k < self.relationships.len()
                ==> (#[trigger] self.relationships[j]).entity_id
                != (#[trigger] self.relationships[k]).entity_id
        &&& forall|k: int| 0 <= k < self.skill_levels.len() ==> (#[trigger] self.skill_levels[k]).1 <= MAX_SKILL
        &&& forall|j: int, k: int|
            0 <= j < k < self.skill_levels.len()
                ==> (#[trigger] self.skill_levels[j]).0 != (#[trigger] self.skill_levels[k]).0
        &&& forall|j: int, k: int|
            0 <= j < k < self.long_term_memory.len()
                ==> (#[trigger] self.long_term_memory[j]).0 != (#[trigger] self.long_term_memory[k]).0
    }
}

/// A learning update can never leave the documented bounds: starting from
/// a well-formed brain, confidence stays within `[0, 1.0]` and every
/// relationship's trust level within `[-1.0, 1.0]` — so by induction the
/// bounds hold after any sequence of matches.
pub proof fn lemma_learning_keeps_bounds(b: BrainView, opp: u64, won: bool, now: u64)
    requires
        b.wf(),
    ensures
        spec_learn_from_match(b, opp, won, now).wf(),
        spec_learn_from_match(b, opp, won, now).confidence <= MAX_CONFIDENCE,
        forall|k: int| 0 <= k < spec_learn_from_match(b, opp, won, now).relationships.len()
            ==> MIN_TRUST <= (#[trigger] spec_learn_from_match(
                b,
                opp,
                won,
                now,
            ).relationships[k]).trust_level <= MAX_TRUST,
{
    lemma_rel_index_of(b.relationships, opp);
    let after = spec_learn_from_match(b, opp, won, now);
    assert forall|k: int| 0 <= k < after.relationships.len() implies (
    #[trigger] after.relationships[k]).wf() by {
        let i = rel_index_of(b.relationships, opp);
        if i >= 0 {
            if k != i {
                assert(after.relationships[k] == b.relationships[k]);
            }
        } else {
            if k < b.relationships.len() {
                assert(after.relationships[k] == b.relationships[k]);
            }
        }
    }
}

/// The two win-rate defaults are deliberately different rules: with no
/// history a relationship reports the neutral prior `0.5`, while a brain
/// that has fought no match reports `0.0`.
pub proof fn lemma_win_rate_defaults(r: Relationship, b: BrainView)
    requires
        r.interactions == 0,
        b.total_matches == 0,
    ensures
        rel_win_rate(r) == NEUTRAL_RATE,
        brain_win_rate(b) == 0,
{
}

/// The four skills every entity starts with, each at the default level.
pub open spec fn default_skills() -> Seq<(Seq<char>, u64)> {
    seq![
        ("strength"@, DEFAULT_SKILL),
        ("agility"@, DEFAULT_SKILL),
        ("stamina"@, DEFAULT_SKILL),
        ("skill"@, DEFAULT_SKILL),
    ]
}

/// A freshly spawned brain: default skills, neutral confidence and risk
/// tolerance, a balanced strategy, and no history of any kind.
pub open spec fn spec_new_brain(entity_id: u64, now: u64) -> BrainView {
    BrainView {
        entity_id,
        created_at: now,
        short_term_memory: Seq::empty(),
        long_term_memory: Seq::empty(),
        relationships: Seq::empty(),
        experience_points: 0,
        total_matches: 0,
        wins: 0,
        losses: 0,
        draws: 0,
        skill_levels: default_skills(),
        training_sessions: 0,
        preferred_strategy: Strategy::Balanced,
        risk_tolerance: 50,
        confidence: 50,
        goals: Seq::empty(),
        achievement_count: 0,
        earnings: 0,
        net_worth: 0,
        reputation_score: 5_000,
    }
}

/// The relationship sequence after one more match against `opp`: the entry
/// for `opp` updated in place, or a fresh one recorded and updated.
pub open spec fn learned_rels(
    rels: Seq<Relationship>,
    opp: u64,
    won: bool,
    now: u64,
) -> Seq<Relationship> {
    let i = rel_index_of(rels, opp);
    if i >= 0 {
        rels.update(i, updated_rel(rels[i], won, now))
    } else {
        rels.push(updated_rel(fresh_rel(opp, now), won, now))
    }
}

/// The whole brain after one match: counters and confidence nudged by the
/// outcome, and the relationship toward the opponent updated.  A win adds
/// `0.02` confidence and 10 experience points; a loss takes `0.01`
/// confidence and adds 5, both saturating at the bounds.
pub open spec fn spec_learn_from_match(b: BrainView, opp: u64, won: bool, now: u64) -> BrainView {
    BrainView {
        total_matches: sat_add(b.total_matches, 1),
        wins: if won { sat_add(b.wins, 1) } else { b.wins },
        losses: if won { b.losses } else { sat_add(b.losses, 1) },
        confidence: if won {
            if b.confidence + 2 <= MAX_CONFIDENCE { (b.confidence + 2) as u64 } else { MAX_CONFIDENCE }
        } else {
            if b.confidence >= 1 { (b.confidence - 1) as u64 } else { 0 }
        },
        experience_points: sat_add(b.experience_points, if won { 10 } else { 5 }),
        relationships: learned_rels(b.relationships, opp, won, now),
        ..b
    }
}

/// Strategy decided against `opp` from the exact win rate of the recorded
/// relationship: clearly dominant (`> 0.7`) plays aggressive, clearly
/// dominated (`< 0.3`) plays defensive, anything else — including no
/// history at all, whose neutral rate is `0.5` — falls back to the stored
/// preference.  The thresholds compare the exact ratio (`10 * wins` against
/// `7 * interactions`), not the rounded fixed-point rate.
pub open spec fn spec_decide_strategy(b: BrainView, opp: u64) -> Strategy {
    let i = rel_index_of(b.relationships, opp);
    if i >= 0 {
        let r = b.relationships[i];
        if 10 * r.wins_against > 7 * r.interactions {
            Strategy::Aggressive
        } else if 10 * r.wins_against < 3 * r.interactions {
            Strategy::Defensive
        } else {
            b.preferred_strategy
        }
    } else {
        b.preferred_strategy
    }
}

/// New level of a skill trained at `intensity` (hundredths): half the
/// intensity is added, capped at the maximum level.  In thousandths,
/// half of `intensity / 100` is `5 * intensity`.
pub open spec fn trained_level(level: int, intensity: u64) -> int {
    if level + 5 * intensity <= MAX_SKILL { level + 5 * intensity } else { MAX_SKILL as int }
}

/// The brain after one training session: the named skill raised (or first
/// recorded) and the session and experience counters advanced.  Experience
/// grows by twice the intensity rounded down to a whole point.
pub open spec fn spec_train_skill(b: BrainView, name: Seq<char>, intensity: u64) -> BrainView {
    let i = skill_index_of(b.skill_levels, name);
    BrainView {
        skill_levels: if i >= 0 {
            b.skill_levels.update(i, (b.skill_levels[i].0, trained_level(b.skill_levels[i].1 as int, intensity) as u64))
        } else {
            b.skill_levels.push((name, trained_level(DEFAULT_SKILL as int, intensity) as u64))
        },
        training_sessions: sat_add(b.training_sessions, 1),
        experience_points: sat_add(b.experience_points, (intensity / 50) as u64),
        ..b
    }
}

/// Stat snapshot: every skill level scaled by `1 + confidence / 5`.  With
/// levels in thousandths and confidence in hundredths the scaled values are
/// in millionths: `level * (1000 + 2 * confidence)`.
pub open spec fn spec_stats(b: BrainView) -> Seq<(Seq<char>, u64)> {
    b.skill_levels.map_values(|p: (Seq<char>, u64)| (p.0, (p.1 * (1000 + 2 * b.confidence)) as u64))
}

/// Every stat a well-formed brain reports is at most `120.0` in
/// millionths: the level is at most `100.0` and the confidence factor at
/// most `1.2`.
pub proof fn lemma_stats_bounded(b: BrainView)
    requires
        b.wf(),
    ensures
        spec_stats(b).len() == b.skill_levels.len(),
        forall|k: int| 0 <= k < spec_stats(b).len()
            ==> (#[trigger] spec_stats(b)[k]).1 <= 120_000_000,
{
    assert forall|k: int| 0 <= k < spec_stats(b).len() implies (#[trigger] spec_stats(
        b,
    )[k]).1 <= 120_000_000 by {
        assert(b.skill_levels[k].1 <= MAX_SKILL);
        assert(b.skill_levels[k].1 * (1000 + 2 * b.confidence) <= 120_000_000)
            by (nonlinear_arith)
            requires
                b.skill_levels[k].1 <= 100_000,
                b.confidence <= 100,
        ;
    }
}

/// Overall win rate in ten-thousandths: `0` before the first match (unlike
/// the per-relationship neutral prior of `0.5`), otherwise
/// `wins / total_matches` rounded down to the grid.
pub open spec fn brain_win_rate(b: BrainView) -> int {
    if b.total_matches == 0 {
        0
    } else {
        (RATE_SCALE * b.wins) as int / b.total_matches as int
    }
}

/// The one-line summary of a brain: id, level (a level per hundred
/// experience points), the win-loss-draw record with the win rate as a
/// percentage to one decimal place (rounded down), the confidence as a
/// whole percentage, and the experience points.
pub open spec fn spec_summary(b: BrainView) -> Seq<char> {
    "Entity: "@ + dec_digits(b.entity_id as int) + " | Level: "@ + dec_digits(
        b.experience_points as int / 100,
    ) + " | Record: "@ + dec_digits(b.wins as int) + "-"@ + dec_digits(b.losses as int) + "-"@
        + dec_digits(b.draws as int) + " ("@ + dec_digits(brain_win_rate(b) / 100) + "."@
        + dec_digits(brain_win_rate(b) / 10 % 10) + "%) | Confidence: "@ + dec_digits(
        b.confidence as int,
    ) + "% | XP: "@ + dec_digits(b.experience_points as int)
}

/// The short-term memory after recording `m`: appended, evicting the oldest
/// entry once the capacity is reached.
pub open spec fn spec_record_memory(b: BrainView, m: MemoryEntryView) -> BrainView {
    BrainView {
        short_term_memory: if b.short_term_memory.len() < MAX_SHORT_TERM_MEMORY {
            b.short_term_memory.push(m)
        } else {
            b.short_term_memory.drop_first().push(m)
        },
        ..b
    }
}

impl EntityBrain {
    /// Spawns a brain with the default stats; see [`spec_new_brain`].
    pub fn new(entity_id: u64, now: u64) -> (r: EntityBrain)
        ensures
            r@ == spec_new_brain(entity_id, now),
            r@.wf(),
    {
        let mut skill_levels: Vec<(String, u64)> = Vec::new();
        skill_levels.push(("strength".to_owned(), DEFAULT_SKILL));
        skill_levels.push(("agility".to_owned(), DEFAULT_SKILL));
        skill_levels.push(("stamina".to_owned(), DEFAULT_SKILL));
        skill_levels.push(("skill".to_owned(), DEFAULT_SKILL));
        let r = EntityBrain {
            entity_id,
            created_at: now,
            short_term_memory: Vec::new(),
            long_term_memory: Vec::new(),
            relationships: Vec::new(),
            experience_points: 0,
            total_matches: 0,
            wins: 0,
            losses: 0,
            draws: 0,
            skill_levels,
            training_sessions: 0,
            preferred_strategy: Strategy::Balanced,
            risk_tolerance: 50,
            confidence: 50,
            goals: Vec::new(),
            achievement_count: 0,
            earnings: 0,
            net_worth: 0,
            reputation_score: 5_000,
        };
        proof {
            assert(r@.skill_levels =~= default_skills());
            assert(r@ =~= spec_new_brain(entity_id, now));
            reveal_strlit("strength");
            reveal_strlit("agility");
            reveal_strlit("stamina");
            reveal_strlit("skill");
            assert("strength"@.len() == 8 && "agility"@.len() == 7 && "stamina"@.len() == 7
                && "skill"@.len() == 5);
            assert("agility"@[0] == 'a' && "stamina"@[0] == 's');
            assert(r@.wf());
        }
        r
    }

    /// Index of the recorded relationship toward `opp`, if any.
    pub(crate) fn find_relationship(&self, opp: u64) -> (r: Option<usize>)
        ensures
            match r {
                Some(j) => rel_index_of(self@.relationships, opp) == j
                    && j < self.relationships.len(),
                None => rel_index_of(self@.relationships, opp) == -1,
            },
    {
        let n = self.relationships.len();
        let mut j: usize = 0;
        while j < n
            invariant
                j <= n,
                n == self.relationships.len(),
                forall|k: int| 0 <= k < j ==> self.relationships@[k].entity_id != opp,
            decreases n - j,
        {
            if self.relationships[j].entity_id == opp {
                proof {
                    lemma_rel_index_of(self@.relationships, opp);
                }
                return Some(j);
            }
            j += 1;
        }
        proof {
            lemma_rel_index_of(self@.relationships, opp);
        }
        None
    }

    /// Applies the learning update after a match against `opponent_id`; see
    /// [`spec_learn_from_match`].  `opponent_stats` (a stat snapshot of the
    /// opponent, in millionths) and `score_diff` (the score margin) are
    /// accepted but deliberately do not scale the magnitude of learning;
    /// preserving that is part of the documented behaviour.
    pub fn learn_from_match(
        &mut self,
        opponent_id: u64,
        opponent_stats: &Vec<(String, u64)>,
        won: bool,
        score_diff: u128,
        now: u64,
    )
        requires
            old(self)@.wf(),
        ensures
            final(self)@ == spec_learn_from_match(old(self)@, opponent_id, won, now),
            final(self)@.wf(),
    {
        self.total_matches = saturating_add_u64(self.total_matches, 1);
        if won {
            self.wins = saturating_add_u64(self.wins, 1);
            self.confidence = if self.confidence + 2 <= MAX_CONFIDENCE {
                self.confidence + 2
            } else {
                MAX_CONFIDENCE
            };
            self.experience_points = saturating_add_u64(self.experience_points, 10);
        } else {
            self.losses = saturating_add_u64(self.losses, 1);
            self.confidence = if self.confidence >= 1 { self.confidence - 1 } else { 0 };
            self.experience_points = saturating_add_u64(self.experience_points, 5);
        }
        match self.find_relationship(opponent_id) {
            Some(j) => {
                let mut r = self.relationships[j];
                r.update_after_match(won, now);
                self.relationships.set(j, r);
            }
            None => {
                let mut r = Relationship::new(opponent_id, now);
                r.update_after_match(won, now);
                self.relationships.push(r);
            }
        }
        proof {
            lemma_rel_index_of(old(self)@.relationships, opponent_id);
            assert(self@ =~= spec_learn_from_match(old(self)@, opponent_id, won, now));
        }
    }

    /// Index of the entry for the skill named `name`, if the entity has
    /// trained or started with it.
    fn find_skill(&self, name: &String) -> (r: Option<usize>)
        ensures
            match r {
                Some(j) => skill_index_of(self@.skill_levels, name@) == j
                    && j < self.skill_levels.len(),
                None => skill_index_of(self@.skill_levels, name@) == -1,
            },
    {
        let n = self.skill_levels.len();
        let mut j: usize = 0;
        while j < n
            invariant
                j <= n,
                n == self.skill_levels.len(),
                forall|k: int| 0 <= k < j ==> self.skill_levels@[k].0@ != name@,
            decreases n - j,
        {
            if self.skill_levels[j].0 == *name {
                proof {
                    assert(self@.skill_levels[j as int].0 == name@);
                    lemma_skill_index_of(self@.skill_levels, name@);
                }
                return Some(j);
            }
            j += 1;
        }
        proof {
            lemma_skill_index_of(self@.skill_levels, name@);
        }
        None
    }

    /// Trains one skill at `intensity` (hundredths); see
    /// [`spec_train_skill`].  The named skill never shrinks and never
    /// passes the maximum level.
    pub fn train_skill(&mut self, skill_name: &str, intensity: u64)
        requires
            old(self)@.wf(),
        ensures
            final(self)@ == spec_train_skill(old(self)@, skill_name@, intensity),
            final(self)@.wf(),
            skill_level_of(final(self)@.skill_levels, skill_name@)
                >= skill_level_of(old(self)@.skill_levels, skill_name@),
            skill_level_of(final(self)@.skill_levels, skill_name@) <= MAX_SKILL,
    {
        let key: String = skill_name.to_owned();
        let current: u64 = match self.find_skill(&key) {
            Some(j) => self.skill_levels[j].1,
            None => DEFAULT_SKILL,
        };
        let wide: u128 = (current as u128) + 5 * (intensity as u128);
        let new_level: u64 = if wide <= MAX_SKILL as u128 { wide as u64 } else { MAX_SKILL };
        match self.find_skill(&key) {
            Some(j) => {
                let name = self.skill_levels.remove(j);
                self.skill_levels.insert(j, (name.0, new_level));
                proof {
                    assert(self@.skill_levels =~= old(self)@.skill_levels.update(
                        skill_index_of(old(self)@.skill_levels, skill_name@),
                        (old(self)@.skill_levels[skill_index_of(old(self)@.skill_levels, skill_name@)].0, new_level),
                    ));
                }
            }
            None => {
                self.skill_levels.push((key, new_level));
            }
        }
        self.training_sessions = saturating_add_u64(self.training_sessions, 1);
        self.experience_points = saturating_add_u64(self.experience_points, intensity / 50);
        proof {
            lemma_skill_index_of(old(self)@.skill_levels, skill_name@);
            assert(self@ =~= spec_train_skill(old(self)@, skill_name@, intensity));
            lemma_skill_index_of(self@.skill_levels, skill_name@);
            let oldidx = skill_index_of(old(self)@.skill_levels, skill_name@);
            if oldidx >= 0 {
                assert(self@.skill_levels[oldidx].0 == skill_name@);
                assert(skill_index_of(self@.skill_levels, skill_name@) == oldidx);
                assert(old(self)@.skill_levels[oldidx].1 <= MAX_SKILL);
            } else {
                let last = self@.skill_levels.len() - 1;
                assert(self@.skill_levels[last].0 == skill_name@);
                assert(skill_index_of(self@.skill_levels, skill_name@) == last);
            }
        }
    }

    /// Fresh stat snapshot, recomputed on every call: each skill level
    /// scaled up by the entity's confidence; see [`spec_stats`].  Values
    /// are in millionths.
    pub fn get_stats(&self) -> (r: Vec<(String, u64)>)
        requires
            self@.wf(),
        ensures
            r@.map_values(|p: (String, u64)| (p.0@, p.1)) == spec_stats(self@),
    {
        let factor: u64 = 1000 + 2 * self.confidence;
        let n = self.skill_levels.len();
        let mut r: Vec<(String, u64)> = Vec::new();
        let mut j: usize = 0;
        while j < n
            invariant
                j <= n,
                n == self.skill_levels.len(),
                self@.wf(),
                factor == 1000 + 2 * self@.confidence,
                r@.len() == j,
                forall|k: int| 0 <= k < j ==> (#[trigger] r@[k]).0@ == self@.skill_levels[k].0
                    && r@[k].1 == spec_stats(self@)[k].1,
            decreases n - j,
        {
            let name = self.skill_levels[j].0.clone();
            let level = self.skill_levels[j].1;
            proof {
                assert(self@.skill_levels[j as int].1 == level);
                assert(level <= MAX_SKILL);
                assert(level * factor <= 120_000_000) by (nonlinear_arith)
                    requires
                        level <= 100_000,
                        factor <= 1200,
                ;
            }
            let value = level * factor;
            r.push((name, value));
            j += 1;
        }
        proof {
            assert(r@.map_values(|p: (String, u64)| (p.0@, p.1)) =~= spec_stats(self@));
        }
        r
    }

    /// Overall win rate in ten-thousandths, `0` with no matches; see
    /// [`brain_win_rate`].  The last two clauses pin the fixed-point value
    /// to the exact ratio: `r / 10000` is `wins / total_matches` rounded
    /// down.
    pub fn win_rate(&self) -> (r: u64)
        requires
            self@.wf(),
        ensures
            r == brain_win_rate(self@),
            r <= RATE_SCALE,
            self.total_matches > 0 ==> r * self.total_matches <= RATE_SCALE * self.wins,
            self.total_matches > 0 ==> RATE_SCALE * self.wins < (r + 1) * self.total_matches,
    {
        if self.total_matches == 0 {
            0
        } else {
            let w = self.wins;
            let t = self.total_matches;
            proof {
                assert((RATE_SCALE * w) as int / t as int <= RATE_SCALE) by (nonlinear_arith)
                    requires
                        0 < t,
                        w <= t,
                        RATE_SCALE == 10_000,
                ;
                let q = (RATE_SCALE * w) as int / t as int;
                assert(q * t <= RATE_SCALE * w < (q + 1) * t) by (nonlinear_arith)
                    requires
                        0 < t,
                        q == (RATE_SCALE * w) as int / t as int,
                ;
            }
            let wide: u128 = (RATE_SCALE as u128) * (w as u128);
            (wide / (t as u128)) as u64
        }
    }

    /// Records an event in the short-term memory, evicting the oldest entry
    /// once the capacity of [`MAX_SHORT_TERM_MEMORY`] is reached; see
    /// [`spec_record_memory`].
    pub fn record_memory(&mut self, entry: MemoryEntry)
        requires
            old(self)@.wf(),
        ensures
            final(self)@ == spec_record_memory(old(self)@, entry@),
            final(self)@.wf(),
    {
        if self.short_term_memory.len() >= MAX_SHORT_TERM_MEMORY {
            self.short_term_memory.remove(0);
        }
        self.short_term_memory.push(entry);
        proof {
            assert(self@ =~= spec_record_memory(old(self)@, entry@));
        }
    }

    /// Formats the record-line summary of this brain; see [`spec_summary`].
    pub fn get_summary(&self) -> (r: String)
        requires
            self@.wf(),
        ensures
            r@ == spec_summary(self@),
    {
        let rate = self.win_rate();
        let mut s = "Entity: ".to_owned();
        s.append(u64_to_string(self.entity_id).as_str());
        s.append(" | Level: ");
        s.append(u64_to_string(self.experience_points / 100).as_str());
        s.append(" | Record: ");
        s.append(u64_to_string(self.wins).as_str());
        s.append("-");
        s.append(u64_to_string(self.losses).as_str());
        s.append("-");
        s.append(u64_to_string(self.draws).as_str());
        s.append(" (");
        s.append(u64_to_string(rate / 100).as_str());
        s.append(".");
        s.append(u64_to_string(rate / 10 % 10).as_str());
        s.append("%) | Confidence: ");
        s.append(u64_to_string(self.confidence).as_str());
        s.append("% | XP: ");
        s.append(u64_to_string(self.experience_points).as_str());
        proof {
            assert(s@ =~= spec_summary(self@));
        }
        s
    }

    /// Picks the strategy for a match against `opponent_id`; see
    /// [`spec_decide_strategy`].
    pub fn decide_strategy(&self, opponent_id: u64) -> (s: Strategy)
        ensures
            s == spec_decide_strategy(self@, opponent_id),
    {
        match self.find_relationship(opponent_id) {
            Some(j) => {
                let r = &self.relationships[j];
                if 10 * (r.wins_against as u128) > 7 * (r.interactions as u128) {
                    Strategy::Aggressive
                } else if 10 * (r.wins_against as u128) < 3 * (r.interactions as u128) {
                    Strategy::Defensive
                } else {
                    self.preferred_strategy
                }
            }
            None => self.preferred_strategy,
        }
    }
}

} // verus!

//! The concurrent registry owning every entity brain by id.  A store value
//! is meant to sit behind one coarse lock: every operation takes the whole
//! store exclusively (`&mut self` or `&self`) for its full duration, so a
//! two-entity match is atomic with respect to every other operation, and
//! its read phase completes before either brain is mutated.
//!
//! Ids are assigned from a monotone counter, which is what makes them
//! provably unique; a failed lookup is always reported as
//! [`StoreError::NotFound`], never answered with a default brain.

use vstd::prelude::*;
use crate::brain::{
    BrainView, EntityBrain, Strategy, brain_win_rate, lemma_stats_bounded,
    rel_index_of, rel_win_rate, spec_decide_strategy, spec_learn_from_match, spec_new_brain,
    spec_stats, spec_summary, spec_train_skill,
};
use crate::host::current_timestamp;
use crate::scoring::{
    calculate_score_with_strategy, lemma_sum_u64_bounded, lemma_sum_u64_nonneg,
    spec_strategy_multiplier, stat_values, sum_u64,
};

verus! {

/// The one failure the store knows: the named entity id is not registered.
#[derive(Clone, Copy, Debug, PartialEq, Eq, Structural)]
pub enum StoreError {
    NotFound(u64),
}

/// What one entity holds about another, as reported at the boundary.
/// `trust_level` is in hundredths, `win_rate` in ten-thousandths.  An
/// opponent never faced yields the zeroed snapshot rather than an error.
#[derive(Clone, Copy, Debug, PartialEq, Eq, Structural)]
pub struct RelationshipSnapshot {
    pub trust_level: i64,
    pub interactions: u64,
    pub wins_against: u64,
    pub losses_against: u64,
    pub win_rate: u64,
}

/// Result of a store-driven match.  Scores are adjusted scores in
/// ten-millionths; `winner` is `1` for the first named entity and `2` for
/// the second, and a tie goes to the second (the winner needs a strictly
/// greater score).
#[derive(Clone, Copy, Debug, PartialEq, Eq, Structural)]
pub struct MatchOutcome {
    pub score_a: u128,
    pub score_b: u128,
    pub winner: u8,
}

/// Mathematical value of a [`BrainStore`].
#[verifier::ext_equal]
pub ghost struct StoreView {
    pub brains: Seq<BrainView>,
    pub next_id: u64,
}

/// Index of the brain with id `id`, or `-1` if none is registered.
pub open spec fn brain_index_of(brains: Seq<BrainView>, id: u64) -> int
    decreases brains.len(),
{
    if brains.len() == 0 {
        -1
    } else if brains[0].entity_id == id {
        0
    } else if brain_index_of(brains.drop_first(), id) == -1 {
        -1
    } else {
        brain_index_of(brains.drop_first(), id) + 1
    }
}

/// `brain_index_of` finds the first match, and with distinct ids the only
/// one.
pub proof fn lemma_brain_index_of(brains: Seq<BrainView>, id: u64)
    ensures
        -1 <= brain_index_of(brains, id) < brains.len(),
        brain_index_of(brains, id) == -1 ==> forall|k: int|
            0 <= k < brains.len() ==> brains[k].entity_id != id,
        brain_index_of(brains, id) >= 0 ==> brains[brain_index_of(brains, id)].entity_id == id,
        brain_index_of(brains, id) >= 0 ==> forall|k: int|
            0 <= k < brain_index_of(brains, id) ==> brains[k].entity_id != id,
    decreases brains.len(),
{
    if brains.len() > 0 && brains[0].entity_id != id {
        lemma_brain_index_of(brains.drop_first(), id);
        assert(forall|k: int|
            1 <= k < brains.len() ==> brains[k] == brains.drop_first()[k - 1]);
    }
}

/// Whether an entity with this id is registered.
pub open spec fn contains_id(s: StoreView, id: u64) -> bool {
    brain_index_of(s.brains, id) >= 0
}

impl StoreView {
    /// Every registered brain is well formed, ids are distinct, and every
    /// id was assigned below the counter (which is what keeps the next one
    /// fresh).
    pub open spec fn wf(self) -> bool {
        &&& forall|k: int| 0 <= k < self.brains.len() ==> (#[trigger] self.brains[k]).wf()
        &&& forall|j: int, k: int|
            0 <= j < k < self.brains.len()
                ==> (#[trigger] self.brains[j]).entity_id != (#[trigger] self.brains[k]).entity_id
        &&& forall|k: int| 0 <= k < self.brains.len()
            ==> (#[trigger] self.brains[k]).entity_id < self.next_id
    }
}

/// The snapshot reported for `other`: the recorded relationship's fields
/// and rounded win rate, or all zeroes when no history exists.
pub open spec fn spec_relationship_snapshot(b: BrainView, other: u64) -> RelationshipSnapshot {
    let i = rel_index_of(b.relationships, other);
    if i >= 0 {
        let r = b.relationships[i];
        RelationshipSnapshot {
            trust_level: r.trust_level,
            interactions: r.interactions,
            wins_against: r.wins_against,
            losses_against: r.losses_against,
            win_rate: rel_win_rate(r) as u64,
        }
    } else {
        RelationshipSnapshot {
            trust_level: 0,
            interactions: 0,
            wins_against: 0,
            losses_against: 0,
            win_rate: 0,
        }
    }
}

/// Adjusted score an entity brings to a store-driven match against the
/// opponent id `opp`: the sum of its confidence-scaled stats times the
/// multiplier of the strategy it decides against `opp`.
pub open spec fn spec_store_score(b: BrainView, opp: u64) -> int {
    sum_u64(stat_values(spec_stats(b))) * spec_strategy_multiplier(spec_decide_strategy(b, opp))
}

/// The store after a match between `id_a` and `id_b`: the first brain
/// learns from the outcome, then the second learns from the opposite
/// outcome.  Both decisions rest on the scores read before either brain
/// changed.
pub open spec fn spec_simulate_match(s: StoreView, id_a: u64, id_b: u64, now: u64) -> StoreView {
    let ia = brain_index_of(s.brains, id_a);
    let ib = brain_index_of(s.brains, id_b);
    let a_won = spec_store_score(s.brains[ia], id_b) > spec_store_score(s.brains[ib], id_a);
    let once = s.brains.update(ia, spec_learn_from_match(s.brains[ia], id_b, a_won, now));
    let twice = once.update(ib, spec_learn_from_match(once[ib], id_a, !a_won, now));
    StoreView { brains: twice, ..s }
}

/// Registry of every spawned brain.  Meant to be owned by one lock; see
/// the module documentation.
pub struct BrainStore {
    pub brains: Vec<EntityBrain>,
    pub next_id: u64,
}

impl View for BrainStore {
    type V = StoreView;

    open spec fn view(&self) -> StoreView {
        StoreView {
            brains: self.brains@.map_values(|b: EntityBrain| b@),
            next_id: self.next_id,
        }
    }
}

impl BrainStore {
    /// An empty store; ids start at one.
    pub fn new() -> (r: BrainStore)
        ensures
            r@.wf(),
            r@.brains.len() == 0,
            r@.next_id == 1,
    {
        let r = BrainStore { brains: Vec::new(), next_id: 1 };
        proof {
            assert(r@.brains =~= Seq::<BrainView>::empty());
        }
        r
    }

    /// Index of the brain registered under `id`, if any.
    fn find_brain(&self, id: u64) -> (r: Option<usize>)
        ensures
            match r {
                Some(j) => brain_index_of(self@.brains, id) == j && j < self.brains.len(),
                None => brain_index_of(self@.brains, id) == -1,
            },
    {
        let n = self.brains.len();
        let mut j: usize = 0;
        while j < n
            invariant
                j <= n,
                n == self.brains.len(),
                forall|k: int| 0 <= k < j ==> self.brains@[k].entity_id != id,
            decreases n - j,
        {
            if self.brains[j].entity_id == id {
                proof {
                    assert(self@.brains[j as int].entity_id == id);
                    lemma_brain_index_of(self@.brains, id);
                }
                return Some(j);
            }
            j += 1;
        }
        proof {
            lemma_brain_index_of(self@.brains, id);
        }
        None
    }

    /// Count of registered entities.
    pub fn alive_count(&self) -> (r: usize)
        ensures
            r == self@.brains.len(),
    {
        self.brains.len()
    }

    /// Creates a fresh brain with the default stats, registers it under a
    /// freshly assigned id and returns that id.  `name` and `entity_type`
    /// are identity the learning rules never read; a host layer that wants
    /// them keeps them beside the id.  The id bound is a machine limit on
    /// the id counter.
    pub fn spawn(&mut self, name: &str, entity_type: &str) -> (r: u64)
        requires
            old(self)@.wf(),
            old(self)@.next_id < u64::MAX,
        ensures
            final(self)@.wf(),
            r == old(self)@.next_id,
            final(self)@.next_id == old(self)@.next_id + 1,
            contains_id(final(self)@, r),
            exists|now: u64|
                final(self)@.brains == old(self)@.brains.push(spec_new_brain(r, now)),
    {
        let id = self.next_id;
        self.next_id = self.next_id + 1;
        let now = current_timestamp();
        let brain = EntityBrain::new(id, now);
        self.brains.push(brain);
        proof {
            assert(self@.brains =~= old(self)@.brains.push(spec_new_brain(id, now)));
            assert(self@.brains[self@.brains.len() - 1].entity_id == id);
            lemma_brain_index_of(self@.brains, id);
        }
        id
    }

    /// Removes the named brain, the inverse of [`BrainStore::spawn`]; its
    /// id is not reissued.  Fails, changing nothing, exactly when `id` is
    /// unknown.
    pub fn despawn(&mut self, id: u64) -> (r: Result<(), StoreError>)
        requires
            old(self)@.wf(),
        ensures
            final(self)@.wf(),
            match r {
                Ok(_) => {
                    &&& contains_id(old(self)@, id)
                    &&& final(self)@.next_id == old(self)@.next_id
                    &&& final(self)@.brains == old(self)@.brains.remove(
                        brain_index_of(old(self)@.brains, id),
                    )
                },
                Err(e) => {
                    &&& !contains_id(old(self)@, id)
                    &&& e == StoreError::NotFound(id)
                    &&& final(self)@ == old(self)@
                },
            },
    {
        match self.find_brain(id) {
            Some(j) => {
                self.brains.remove(j);
                proof {
                    let before = old(self)@.brains;
                    let after = self@.brains;
                    assert(after =~= before.remove(j as int));
                    assert(forall|k: int| 0 <= k < j ==> after[k] == before[k]);
                    assert(forall|k: int|
                        j <= k < after.len() ==> after[k] == before[k + 1]);
                }
                Ok(())
            }
            None => Err(StoreError::NotFound(id)),
        }
    }

    /// Trains one skill of the named entity; see
    /// [`spec_train_skill`].  Fails, changing nothing, exactly when `id`
    /// is unknown.
    pub fn train_skill(&mut self, id: u64, skill_name: &str, intensity: u64) -> (r: Result<
        (),
        StoreError,
    >)
        requires
            old(self)@.wf(),
        ensures
            final(self)@.wf(),
            match r {
                Ok(_) => {
                    &&& contains_id(old(self)@, id)
                    &&& final(self)@.next_id == old(self)@.next_id
                    &&& final(self)@.brains == old(self)@.brains.update(
                        brain_index_of(old(self)@.brains, id),
                        spec_train_skill(
                            old(self)@.brains[brain_index_of(old(self)@.brains, id)],
                            skill_name@,
                            intensity,
                        ),
                    )
                },
                Err(e) => {
                    &&& !contains_id(old(self)@, id)
                    &&& e == StoreError::NotFound(id)
                    &&& final(self)@ == old(self)@
                },
            },
    {
        match self.find_brain(id) {
            Some(j) => {
                self.brains[j].train_skill(skill_name, intensity);
                proof {
                    assert(self@.brains =~= old(self)@.brains.update(
                        j as int,
                        spec_train_skill(old(self)@.brains[j as int], skill_name@, intensity),
                    ));
                }
                Ok(())
            }
            None => Err(StoreError::NotFound(id)),
        }
    }

    /// Record-line summary of the named entity; see
    /// [`crate::brain::spec_summary`].
    pub fn get_summary(&self, id: u64) -> (r: Result<String, StoreError>)
        requires
            self@.wf(),
        ensures
            match r {
                Ok(s) => contains_id(self@, id) && s@ == spec_summary(
                    self@.brains[brain_index_of(self@.brains, id)],
                ),
                Err(e) => !contains_id(self@, id) && e == StoreError::NotFound(id),
            },
    {
        match self.find_brain(id) {
            Some(j) => {
                proof {
                    assert(self.brains@[j as int]@ == self@.brains[j as int]);
                    assert(self@.brains[j as int].wf());
                }
                Ok(self.brains[j].get_summary())
            }
            None => Err(StoreError::NotFound(id)),
        }
    }

    /// Confidence of the named entity, in hundredths.
    pub fn get_confidence(&self, id: u64) -> (r: Result<u64, StoreError>)
        ensures
            match r {
                Ok(c) => contains_id(self@, id) && c == self@.brains[brain_index_of(
                    self@.brains,
                    id,
                )].confidence,
                Err(e) => !contains_id(self@, id) && e == StoreError::NotFound(id),
            },
    {
        match self.find_brain(id) {
            Some(j) => Ok(self.brains[j].confidence),
            None => Err(StoreError::NotFound(id)),
        }
    }

    /// Strategy the named entity would decide against `opponent_id`.
    pub fn get_strategy(&self, id: u64, opponent_id: u64) -> (r: Result<Strategy, StoreError>)
        ensures
            match r {
                Ok(s) => contains_id(self@, id) && s == spec_decide_strategy(
                    self@.brains[brain_index_of(self@.brains, id)],
                    opponent_id,
                ),
                Err(e) => !contains_id(self@, id) && e == StoreError::NotFound(id),
            },
    {
        match self.find_brain(id) {
            Some(j) => Ok(self.brains[j].decide_strategy(opponent_id)),
            None => Err(StoreError::NotFound(id)),
        }
    }

    /// Overall win rate of the named entity, in ten-thousandths.
    pub fn get_win_rate(&self, id: u64) -> (r: Result<u64, StoreError>)
        requires
            self@.wf(),
        ensures
            match r {
                Ok(w) => contains_id(self@, id) && w == brain_win_rate(
                    self@.brains[brain_index_of(self@.brains, id)],
                ),
                Err(e) => !contains_id(self@, id) && e == StoreError::NotFound(id),
            },
    {
        match self.find_brain(id) {
            Some(j) => {
                proof {
                    assert(self.brains@[j as int]@ == self@.brains[j as int]);
                    assert(self@.brains[j as int].wf());
                }
                Ok(self.brains[j].win_rate())
            }
            None => Err(StoreError::NotFound(id)),
        }
    }

    /// Confidence-scaled stat snapshot of the named entity, in millionths.
    pub fn get_stats(&self, id: u64) -> (r: Result<Vec<(String, u64)>, StoreError>)
        requires
            self@.wf(),
        ensures
            match r {
                Ok(v) => contains_id(self@, id) && v@.map_values(|p: (String, u64)| (p.0@, p.1))
                    == spec_stats(self@.brains[brain_index_of(self@.brains, id)]),
                Err(e) => !contains_id(self@, id) && e == StoreError::NotFound(id),
            },
    {
        match self.find_brain(id) {
            Some(j) => {
                proof {
                    assert(self.brains@[j as int]@ == self@.brains[j as int]);
                    assert(self@.brains[j as int].wf());
                }
                Ok(self.brains[j].get_stats())
            }
            None => Err(StoreError::NotFound(id)),
        }
    }

    /// What the named entity holds about `other_id`; an opponent never
    /// faced yields the zeroed snapshot, not an error.
    pub fn get_relationship(&self, id: u64, other_id: u64) -> (r: Result<
        RelationshipSnapshot,
        StoreError,
    >)
        requires
            self@.wf(),
        ensures
            match r {
                Ok(s) => contains_id(self@, id) && s == spec_relationship_snapshot(
                    self@.brains[brain_index_of(self@.brains, id)],
                    other_id,
                ),
                Err(e) => !contains_id(self@, id) && e == StoreError::NotFound(id),
            },
    {
        match self.find_brain(id) {
            Some(j) => {
                let brain = &self.brains[j];
                match brain.find_relationship(other_id) {
                    Some(k) => {
                        let rel = brain.relationships[k];
                        proof {
                            assert(self@.brains[j as int].relationships[k as int].wf());
                        }
                        Ok(RelationshipSnapshot {
                            trust_level: rel.trust_level,
                            interactions: rel.interactions,
                            wins_against: rel.wins_against,
                            losses_against: rel.losses_against,
                            win_rate: rel.win_rate(),
                        })
                    }
                    None => Ok(RelationshipSnapshot {
                        trust_level: 0,
                        interactions: 0,
                        wins_against: 0,
                        losses_against: 0,
                        win_rate: 0,
                    }),
                }
            }
            None => Err(StoreError::NotFound(id)),
        }
    }

    /// Runs one store-driven match between the two named entities: decides
    /// both strategies, snapshots both confidence-scaled stats, scores
    /// them through the scoring adapter, then lets both brains learn from
    /// the outcome — all reads completed before either brain is mutated.
    /// The winner needs a strictly greater score, so a tie is reported for
    /// the second entity.  Fails, changing nothing, exactly when an id is
    /// unknown, the first id being reported first.
    pub fn simulate_match(&mut self, id_a: u64, id_b: u64) -> (r: Result<MatchOutcome, StoreError>)
        requires
            old(self)@.wf(),
        ensures
            final(self)@.wf(),
            match r {
                Ok(out) => {
                    &&& contains_id(old(self)@, id_a)
                    &&& contains_id(old(self)@, id_b)
                    &&& out.score_a == spec_store_score(
                        old(self)@.brains[brain_index_of(old(self)@.brains, id_a)],
                        id_b,
                    )
                    &&& out.score_b == spec_store_score(
                        old(self)@.brains[brain_index_of(old(self)@.brains, id_b)],
                        id_a,
                    )
                    &&& out.winner == if out.score_a > out.score_b { 1u8 } else { 2u8 }
                    &&& exists|now: u64|
                        final(self)@ == spec_simulate_match(old(self)@, id_a, id_b, now)
                },
                Err(e) => {
                    &&& final(self)@ == old(self)@
                    &&& ((e == StoreError::NotFound(id_a) && !contains_id(old(self)@, id_a))
                        || (e == StoreError::NotFound(id_b) && contains_id(old(self)@, id_a)
                        && !contains_id(old(self)@, id_b)))
                },
            },
    {
        let ia = match self.find_brain(id_a) {
            Some(i) => i,
            None => { return Err(StoreError::NotFound(id_a)); },
        };
        let ib = match self.find_brain(id_b) {
            Some(i) => i,
            None => { return Err(StoreError::NotFound(id_b)); },
        };
        let ghost ba = self@.brains[ia as int];
        let ghost bb = self@.brains[ib as int];
        proof {
            assert(self.brains@[ia as int]@ == ba && self.brains@[ib as int]@ == bb);
            assert(ba.wf() && bb.wf());
        }
        // Read phase: both strategies and both stat snapshots, before any
        // mutation.
        let strategy_a = self.brains[ia].decide_strategy(id_b);
        let strategy_b = self.brains[ib].decide_strategy(id_a);
        let stats_a = self.brains[ia].get_stats();
        let stats_b = self.brains[ib].get_stats();
        let na = stats_a.len();
        let nb = stats_b.len();
        proof {
            lemma_stats_bounded(ba);
            lemma_stats_bounded(bb);
            assert(stats_a@.map_values(|p: (String, u64)| p.1) =~= stat_values(spec_stats(ba)));
            assert(stats_b@.map_values(|p: (String, u64)| p.1) =~= stat_values(spec_stats(bb)));
            lemma_sum_u64_bounded(stat_values(spec_stats(ba)), 120_000_000);
            lemma_sum_u64_bounded(stat_values(spec_stats(bb)), 120_000_000);
            lemma_sum_u64_nonneg(stat_values(spec_stats(ba)));
            lemma_sum_u64_nonneg(stat_values(spec_stats(bb)));
            let la = stat_values(spec_stats(ba)).len() as int;
            let lb = stat_values(spec_stats(bb)).len() as int;
            assert(la == na && lb == nb);
            assert(sum_u64(stat_values(spec_stats(ba))) * 12 <= u128::MAX
                && sum_u64(stat_values(spec_stats(bb))) * 12 <= u128::MAX) by (nonlinear_arith)
                requires
                    0 <= sum_u64(stat_values(spec_stats(ba))) <= la * 120_000_000,
                    0 <= sum_u64(stat_values(spec_stats(bb))) <= lb * 120_000_000,
                    0 <= la <= u64::MAX,
                    0 <= lb <= u64::MAX,
            ;
        }
        let score_a = calculate_score_with_strategy(&stats_a, strategy_a);
        let score_b = calculate_score_with_strategy(&stats_b, strategy_b);
        let a_won = score_a > score_b;
        let score_diff = if a_won { score_a - score_b } else { score_b - score_a };
        let now = current_timestamp();
        // Write phase: both brains learn from the scores read above.
        self.brains[ia].learn_from_match(id_b, &stats_b, a_won, score_diff, now);
        self.brains[ib].learn_from_match(id_a, &stats_a, !a_won, score_diff, now);
        proof {
            assert(self@ =~= spec_simulate_match(old(self)@, id_a, id_b, now));
        }
        Ok(MatchOutcome { score_a, score_b, winner: if a_won { 1 } else { 2 } })
    }
}

} // verus!

//! The pure match simulator: a fixed rating formula over four attributes,
//! scores scaled by the number of rounds, and a winner chosen with ties
//! resolved in favour of the first participant.
//!
//! Attributes are in hundredths, so ratings and scores come out in
//! ten-thousandths (`3_500_000` means a score of `350.0`).

use vstd::prelude::*;
use crate::host::fresh_id;

verus! {

/// A match participant.  The four attributes are in hundredths
/// (`7_000` means `70.0`).
#[derive(Clone, Debug)]
pub struct Athlete {
    pub id: String,
    pub name: String,
    pub sport: String,
    pub strength: u32,
    pub agility: u32,
    pub stamina: u32,
    pub skill: u32,
}

/// Rating of an athlete: the weighted attribute sum
/// `0.25 * strength + 0.20 * agility + 0.20 * stamina + 0.35 * skill`.
/// With attributes in hundredths the rating is in ten-thousandths.
pub open spec fn spec_rating(a: Athlete) -> int {
    25 * a.strength + 20 * a.agility + 20 * a.stamina + 35 * a.skill
}

impl Athlete {
    /// Makes an athlete with a freshly generated id.
    pub fn new(name: &str, sport: &str, strength: u32, agility: u32, stamina: u32, skill: u32)
        -> (r: Athlete)
        ensures
            r.name@ == name@,
            r.sport@ == sport@,
            r.strength == strength,
            r.agility == agility,
            r.stamina == stamina,
            r.skill == skill,
    {
        Athlete {
            id: fresh_id(),
            name: name.to_owned(),
            sport: sport.to_owned(),
            strength,
            agility,
            stamina,
            skill,
        }
    }

    /// Rating in ten-thousandths; see [`spec_rating`].
    pub fn rating(&self) -> (r: u64)
        ensures
            r == spec_rating(*self),
    {
        25 * (self.strength as u64) + 20 * (self.agility as u64) + 20 * (self.stamina as u64)
            + 35 * (self.skill as u64)
    }
}

/// Outcome of one simulated match.  Scores and performances are in
/// ten-thousandths; `performance_x` is the per-round score, which equals
/// the rating.
#[derive(Clone, Debug)]
pub struct MatchResult {
    pub id: String,
    pub winner_id: String,
    pub score_a: u128,
    pub score_b: u128,
    pub upset: bool,
    pub performance_a: u64,
    pub performance_b: u64,
}

/// Pure, stateless simulator; `rounds` scales ratings into scores.
pub struct MatchSimulator {
    pub rounds: u32,
}

/// The first participant wins whenever the scores tie: the winner is `a`
/// exactly when `score_a >= score_b`.
pub open spec fn spec_a_wins(sim: MatchSimulator, a: Athlete, b: Athlete) -> bool {
    spec_rating(a) * sim.rounds >= spec_rating(b) * sim.rounds
}

/// An upset: the winner differs from the athlete the ratings favoured.
/// Both are named by id, so the flag can only be set when the ids differ.
pub open spec fn spec_upset(sim: MatchSimulator, a: Athlete, b: Athlete) -> bool {
    (spec_a_wins(sim, a, b) != (spec_rating(a) >= spec_rating(b))) && a.id@ != b.id@
}

impl MatchSimulator {
    /// A simulator over the standard five rounds.
    pub fn new() -> (s: MatchSimulator)
        ensures
            s.rounds == 5,
    {
        MatchSimulator { rounds: 5 }
    }

    /// Simulates one match: each score is the rating times the number of
    /// rounds, the winner is `a` on a tie (`>=`), the expected winner is
    /// the higher-rated athlete, and `upset` records a winner the ratings
    /// did not favour.
    pub fn simulate(&self, a: &Athlete, b: &Athlete) -> (r: MatchResult)
        ensures
            r.score_a == spec_rating(*a) * self.rounds,
            r.score_b == spec_rating(*b) * self.rounds,
            r.winner_id@ == if spec_a_wins(*self, *a, *b) { a.id@ } else { b.id@ },
            r.upset == spec_upset(*self, *a, *b),
            r.performance_a == spec_rating(*a),
            r.performance_b == spec_rating(*b),
    {
        let ra = a.rating();
        let rb = b.rating();
        proof {
            assert((ra as int) * (self.rounds as int) <= u128::MAX
                && (rb as int) * (self.rounds as int) <= u128::MAX) by (nonlinear_arith)
                requires
                    ra <= u64::MAX,
                    rb <= u64::MAX,
                    self.rounds <= u32::MAX,
            ;
        }
        let score_a: u128 = (ra as u128) * (self.rounds as u128);
        let score_b: u128 = (rb as u128) * (self.rounds as u128);
        let a_wins = score_a >= score_b;
        let expected_a = ra >= rb;
        let winner = if a_wins { a.id.clone() } else { b.id.clone() };
        let expected = if expected_a { a.id.clone() } else { b.id.clone() };
        let upset = !(winner == expected);
        proof {
            assert((score_a >= score_b) == spec_a_wins(*self, *a, *b)) by (nonlinear_arith)
                requires
                    score_a == (ra as int) * (self.rounds as int),
                    score_b == (rb as int) * (self.rounds as int),
                    ra == spec_rating(*a),
                    rb == spec_rating(*b),
                    spec_a_wins(*self, *a, *b) == (spec_rating(*a) * self.rounds
                        >= spec_rating(*b) * self.rounds),
            ;
        }
        MatchResult {
            id: fresh_id(),
            winner_id: winner,
            score_a,
            score_b,
            upset,
            performance_a: ra,
            performance_b: rb,
        }
    }
}

/// The simulator is deterministic: two athletes with the same attributes
/// and ids, simulated over the same number of rounds, get the same scores,
/// the same winner and the same upset flag.  No other input reaches the
/// outcome.
pub proof fn lemma_simulate_deterministic(
    s1: MatchSimulator,
    s2: MatchSimulator,
    a1: Athlete,
    b1: Athlete,
    a2: Athlete,
    b2: Athlete,
)
    requires
        s1.rounds == s2.rounds,
        a1.strength == a2.strength,
        a1.agility == a2.agility,
        a1.stamina == a2.stamina,
        a1.skill == a2.skill,
        a1.id@ == a2.id@,
        b1.strength == b2.strength,
        b1.agility == b2.agility,
        b1.stamina == b2.stamina,
        b1.skill == b2.skill,
        b1.id@ == b2.id@,
    ensures
        spec_rating(a1) * s1.rounds == spec_rating(a2) * s2.rounds,
        spec_rating(b1) * s1.rounds == spec_rating(b2) * s2.rounds,
        spec_a_wins(s1, a1, b1) == spec_a_wins(s2, a2, b2),
        spec_upset(s1, a1, b1) == spec_upset(s2, a2, b2),
{
}

} // verus!

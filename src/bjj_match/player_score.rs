use vstd::prelude::*;

verus! {

/// One of the three counters a competitor carries.
#[derive(Debug, Clone, Copy, PartialEq, Eq, Structural)]
pub enum ScoreField {
    Points,
    Advantages,
    Penalties,
}

/// A change applied to one competitor's counters.
#[derive(Debug, Clone, Copy, PartialEq, Eq, Structural)]
pub enum ScoreOp {
    AddPoints(usize),
    AddAdvantage,
    AddPenalty,
    Subtract(ScoreField),
}

/// The counters of one competitor.
#[derive(Debug, Clone, Copy, PartialEq, Eq, Structural)]
pub struct PlayerScore {
    pub points: usize,
    pub advantages: usize,
    pub penalties: usize,
}

/// Counters as mathematical integers: (points, advantages, penalties).
pub type ScoreView = (int, int, int);

/// Decrement by one, never going below zero.
pub open spec fn floor_dec(v: int) -> int {
    if v > 0 {
        v - 1
    } else {
        0
    }
}

/// The counters after one operation, over unbounded integers.
pub open spec fn score_step(v: ScoreView, op: ScoreOp) -> ScoreView {
    match op {
        ScoreOp::AddPoints(n) => (v.0 + n, v.1, v.2),
        ScoreOp::AddAdvantage => (v.0, v.1 + 1, v.2),
        ScoreOp::AddPenalty => (v.0, v.1, v.2 + 1),
        ScoreOp::Subtract(ScoreField::Points) => (floor_dec(v.0), v.1, v.2),
        ScoreOp::Subtract(ScoreField::Advantages) => (v.0, floor_dec(v.1), v.2),
        ScoreOp::Subtract(ScoreField::Penalties) => (v.0, v.1, floor_dec(v.2)),
    }
}

/// The counters after a sequence of operations, applied in order.
pub open spec fn score_replay(v: ScoreView, ops: Seq<ScoreOp>) -> ScoreView
    decreases ops.len(),
{
    if ops.len() == 0 {
        v
    } else {
        score_step(score_replay(v, ops.drop_last()), ops.last())
    }
}

pub open spec fn non_negative(v: ScoreView) -> bool {
    v.0 >= 0 && v.1 >= 0 && v.2 >= 0
}

impl View for PlayerScore {
    type V = ScoreView;

    open spec fn view(&self) -> ScoreView {
        (self.points as int, self.advantages as int, self.penalties as int)
    }
}

impl PlayerScore {
    /// Whether `op` can be applied without a counter leaving `usize`.
    pub open spec fn fits(self, op: ScoreOp) -> bool {
        match op {
            ScoreOp::AddPoints(n) => self.points + n <= usize::MAX,
            ScoreOp::AddAdvantage => self.advantages + 1 <= usize::MAX,
            ScoreOp::AddPenalty => self.penalties + 1 <= usize::MAX,
            ScoreOp::Subtract(_) => true,
        }
    }

    pub open spec fn field(self, field: ScoreField) -> usize {
        match field {
            ScoreField::Points => self.points,
            ScoreField::Advantages => self.advantages,
            ScoreField::Penalties => self.penalties,
        }
    }

    /// Adds `op` to the counters; `Subtract` floors at zero.
    pub fn apply(&mut self, op: ScoreOp)
        requires
            old(self).fits(op),
        ensures
            final(self)@ == score_step(old(self)@, op),
    {
        match op {
            ScoreOp::AddPoints(n) => self.points = self.points + n,
            ScoreOp::AddAdvantage => self.advantages = self.advantages + 1,
            ScoreOp::AddPenalty => self.penalties = self.penalties + 1,
            ScoreOp::Subtract(field) => self.subtract(field),
        }
    }

    /// Decrements one counter by one; a counter already at zero stays at zero.
    pub fn subtract(&mut self, field: ScoreField)
        ensures
            final(self)@ == score_step(old(self)@, ScoreOp::Subtract(field)),
    {
        match field {
            ScoreField::Points => {
                if self.points > 0 {
                    self.points -= 1;
                }
            },
            ScoreField::Advantages => {
                if self.advantages > 0 {
                    self.advantages -= 1;
                }
            },
            ScoreField::Penalties => {
                if self.penalties > 0 {
                    self.penalties -= 1;
                }
            },
        }
    }
}

impl Default for PlayerScore {
    fn default() -> (r: PlayerScore)
        ensures
            r@ == (0int, 0int, 0int),
    {
        PlayerScore { points: 0, advantages: 0, penalties: 0 }
    }
}

/// Counters that start non-negative stay non-negative after every prefix of
/// any sequence of additions and floored subtractions.
pub proof fn lemma_scores_stay_non_negative(v: ScoreView, ops: Seq<ScoreOp>)
    requires
        non_negative(v),
    ensures
        forall|i: int| 0 <= i <= ops.len() ==> non_negative(#[trigger] score_replay(v, ops.take(i))),
    decreases ops.len(),
{
    if ops.len() > 0 {
        lemma_scores_stay_non_negative(v, ops.drop_last());
        assert forall|i: int| 0 <= i <= ops.len() implies non_negative(
            #[trigger] score_replay(v, ops.take(i)),
        ) by {
            if i < ops.len() {
                assert(ops.take(i) =~= ops.drop_last().take(i));
            } else {
                let prev = ops.drop_last();
                assert(ops.take(i) =~= ops);
                assert(prev.take(prev.len() as int) =~= prev);
                assert(non_negative(score_replay(v, prev.take(prev.len() as int))));
            }
        }
    }
}

/// Subtracting from a counter at zero leaves every counter as it was.
pub proof fn lemma_subtract_at_zero_is_identity(v: ScoreView, field: ScoreField)
    requires
        non_negative(v),
        match field {
            ScoreField::Points => v.0 == 0,
            ScoreField::Advantages => v.1 == 0,
            ScoreField::Penalties => v.2 == 0,
        },
    ensures
        score_step(v, ScoreOp::Subtract(field)) == v,
{
}

} // verus!

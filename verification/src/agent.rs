use vstd::prelude::*;

use crate::snake::{Direction, TickResult};

verus! {

/// An episode is cut off once it has run this many steps, which keeps its
/// score comfortably inside a 64-bit integer.
pub const MAX_EPISODE_STEPS: usize = 0x0100_0000;

/// The action chosen for a row of four action values, one per direction in
/// the order up, down, left, right: the direction whose value strictly
/// exceeds the other three, or up when no strict winner exists.
pub open spec fn spec_select_action(a: Seq<u64>) -> Direction {
    if a[0] > a[1] && a[0] > a[2] && a[0] > a[3] {
        Direction::Up
    } else if a[1] > a[0] && a[1] > a[2] && a[1] > a[3] {
        Direction::Down
    } else if a[2] > a[0] && a[2] > a[1] && a[2] > a[3] {
        Direction::Left
    } else if a[3] > a[0] && a[3] > a[1] && a[3] > a[2] {
        Direction::Right
    } else {
        Direction::Up
    }
}

/// Selects the move for the network's output row, handed over by rank:
/// only comparisons decide the choice, so any strictly increasing encoding
/// of the four output values leaves it unchanged.
pub fn select_action(values: &Vec<u64>) -> (d: Direction)
    requires
        values.len() == 4,
    ensures
        d == spec_select_action(values@),
{
    if values[0] > values[1] && values[0] > values[2] && values[0] > values[3] {
        Direction::Up
    } else if values[1] > values[0] && values[1] > values[2] && values[1] > values[3] {
        Direction::Down
    } else if values[2] > values[0] && values[2] > values[1] && values[2] > values[3] {
        Direction::Left
    } else if values[3] > values[0] && values[3] > values[1] && values[3] > values[2] {
        Direction::Right
    } else {
        Direction::Up
    }
}

/// The reward a step earns: losing the game costs ten, reaching an apple
/// earns twenty, anything else earns one.
pub open spec fn spec_reward(t: TickResult) -> int {
    match t {
        TickResult::GameOver => -10,
        TickResult::Apple => 20,
        TickResult::Moved => 1,
    }
}

pub fn reward_for(t: &TickResult) -> (r: i32)
    ensures
        r == spec_reward(*t),
{
    match t {
        TickResult::GameOver => -10,
        TickResult::Apple => 20,
        _ => 1,
    }
}

/// The output entry that belongs to an action.
pub open spec fn spec_action_index(d: Direction) -> int {
    match d {
        Direction::Up => 0,
        Direction::Down => 1,
        Direction::Left => 2,
        Direction::Right => 3,
    }
}

pub fn action_index(d: Direction) -> (i: usize)
    ensures
        i == spec_action_index(d),
{
    match d {
        Direction::Up => 0,
        Direction::Down => 1,
        Direction::Left => 2,
        Direction::Right => 3,
    }
}

/// Builds the training target for one step: the network's own prediction
/// with the entry of the chosen action overwritten by the step's q-value.
/// Every other entry keeps its predicted value.
pub fn build_target_row<T: Copy>(prediction: &Vec<T>, chosen: Direction, q_value: T) -> (t: Vec<
    T,
>)
    requires
        prediction.len() == 4,
    ensures
        t@ == prediction@.update(spec_action_index(chosen), q_value),
{
    let mut row: Vec<T> = Vec::new();
    row.push(prediction[0]);
    row.push(prediction[1]);
    row.push(prediction[2]);
    row.push(prediction[3]);

    let idx = action_index(chosen);
    row[idx] = q_value;

    proof {
        assert(row@ =~= prediction@.update(spec_action_index(chosen), q_value));
    }
    row
}

/// Law: the target row agrees with the prediction everywhere but at the
/// chosen action, where it holds the q-value — so when the output row is
/// compared against the target, every non-chosen entry contributes an
/// error of prediction minus prediction.
pub proof fn lemma_target_touches_only_chosen_action<T>(
    prediction: Seq<T>,
    chosen: Direction,
    q_value: T,
)
    requires
        prediction.len() == 4,
    ensures
        forall|i: int|
            0 <= i < 4 && i != spec_action_index(chosen) ==> prediction.update(
                spec_action_index(chosen),
                q_value,
            )[i] == prediction[i],
        prediction.update(spec_action_index(chosen), q_value)[spec_action_index(chosen)]
            == q_value,
{
}

/// One recorded step of an episode: the action taken and the reward the
/// environment assigned to the transition.
#[derive(Debug, Clone, Copy, PartialEq, Eq, Structural)]
pub struct EpisodeStep {
    pub action: Direction,
    pub reward: i32,
}

/// The sum of the recorded rewards.
pub open spec fn spec_score(steps: Seq<EpisodeStep>) -> int
    decreases steps.len(),
{
    if steps.len() == 0 {
        0
    } else {
        spec_score(steps.drop_last()) + steps.last().reward
    }
}

/// Every reward lies between the losing and the apple reward.
pub open spec fn rewards_in_range(steps: Seq<EpisodeStep>) -> bool {
    forall|i: int| 0 <= i < steps.len() ==> -10 <= (#[trigger] steps[i]).reward <= 20
}

proof fn lemma_score_bounds(steps: Seq<EpisodeStep>)
    requires
        rewards_in_range(steps),
    ensures
        -10 * steps.len() <= spec_score(steps) <= 20 * steps.len(),
    decreases steps.len(),
{
    if steps.len() > 0 {
        assert(rewards_in_range(steps.drop_last()));
        lemma_score_bounds(steps.drop_last());
    }
}

/// The trajectory of one episode and its running score.
#[derive(Debug, Clone)]
pub struct Episode {
    pub steps: Vec<EpisodeStep>,
    pub score: i64,
}

impl Episode {
    /// The score is exactly the sum of the recorded rewards, each of which
    /// is one of the three the environment hands out.
    pub open spec fn wf(self) -> bool {
        &&& self.score == spec_score(self.steps@)
        &&& rewards_in_range(self.steps@)
    }

    pub fn new() -> (e: Self)
        ensures
            e.wf(),
            e.steps@ == Seq::<EpisodeStep>::empty(),
            e.score == 0,
    {
        Episode { steps: Vec::new(), score: 0 }
    }

    /// Classifies the step's outcome into its reward, records action and
    /// reward, accumulates the score, and reports whether the episode is
    /// over.
    pub fn record_step(&mut self, action: Direction, tick: &TickResult) -> (done: bool)
        requires
            old(self).wf(),
            old(self).steps.len() < MAX_EPISODE_STEPS,
        ensures
            final(self).wf(),
            final(self).steps@ == old(self).steps@.push(
                (EpisodeStep { action, reward: spec_reward(*tick) as i32 }),
            ),
            final(self).score == old(self).score + spec_reward(*tick),
            done == (*tick == TickResult::GameOver),
    {
        let reward = reward_for(tick);
        proof {
            lemma_score_bounds(self.steps@);
        }
        self.steps.push(EpisodeStep { action, reward });
        proof {
            assert(self.steps@.drop_last() =~= old(self).steps@);
        }
        self.score = self.score + reward as i64;

        match tick {
            TickResult::GameOver => true,
            _ => false,
        }
    }
}

} // verus!

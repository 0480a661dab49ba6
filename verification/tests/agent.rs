use snake_rl::agent::{action_index, build_target_row, reward_for, select_action, Episode};
use snake_rl::snake::{Direction, TickResult};

/// Maps a finite float to an unsigned key with the same ordering, the way
/// the training driver feeds network outputs to `select_action`.
fn rank(x: f64) -> u64 {
    let bits = x.to_bits() as i64;
    if bits < 0 {
        !(bits as u64)
    } else {
        (bits as u64) | 0x8000_0000_0000_0000
    }
}

fn ranks(row: [f64; 4]) -> Vec<u64> {
    row.iter().map(|x| rank(*x)).collect()
}

#[test]
fn all_equal_outputs_default_to_up() {
    assert_eq!(select_action(&ranks([0.5, 0.5, 0.5, 0.5])), Direction::Up);
}

#[test]
fn a_strict_winner_is_chosen() {
    assert_eq!(select_action(&ranks([1.0, 0.2, 0.3, 0.4])), Direction::Up);
    assert_eq!(select_action(&ranks([0.1, 0.2, 0.9, 0.3])), Direction::Left);
    assert_eq!(select_action(&ranks([0.1, 0.8, 0.2, 0.3])), Direction::Down);
    assert_eq!(select_action(&ranks([-0.5, -0.2, -0.3, -0.1])), Direction::Right);
}

#[test]
fn a_two_way_tie_for_the_top_defaults_to_up() {
    assert_eq!(select_action(&ranks([0.2, 0.9, 0.9, 0.1])), Direction::Up);
}

#[test]
fn rewards_follow_the_outcome() {
    assert_eq!(reward_for(&TickResult::Moved), 1);
    assert_eq!(reward_for(&TickResult::Apple), 20);
    assert_eq!(reward_for(&TickResult::GameOver), -10);
}

#[test]
fn actions_map_to_output_entries_in_order() {
    assert_eq!(action_index(Direction::Up), 0);
    assert_eq!(action_index(Direction::Down), 1);
    assert_eq!(action_index(Direction::Left), 2);
    assert_eq!(action_index(Direction::Right), 3);
}

#[test]
fn target_row_overwrites_only_the_chosen_action() {
    let prediction: Vec<f64> = vec![0.1, 0.2, 0.3, 0.4];

    let target = build_target_row(&prediction, Direction::Left, -6.2);

    assert_eq!(target.len(), 4);
    assert_eq!(target[0], 0.1);
    assert_eq!(target[1], 0.2);
    assert_eq!(target[2], -6.2);
    assert_eq!(target[3], 0.4);
}

#[test]
fn an_episode_sums_its_rewards() {
    let mut episode = Episode::new();

    assert!(!episode.record_step(Direction::Down, &TickResult::Moved));
    assert!(!episode.record_step(Direction::Down, &TickResult::Moved));
    assert!(episode.record_step(Direction::Left, &TickResult::GameOver));

    assert_eq!(episode.score, -8);
    assert_eq!(episode.steps.len(), 3);
    assert_eq!(episode.steps[0].reward, 1);
    assert_eq!(episode.steps[1].reward, 1);
    assert_eq!(episode.steps[2].reward, -10);
    assert_eq!(episode.steps[0].action, Direction::Down);
    assert_eq!(episode.steps[2].action, Direction::Left);
}

#[test]
fn an_apple_raises_the_score_by_twenty() {
    let mut episode = Episode::new();

    assert!(!episode.record_step(Direction::Up, &TickResult::Apple));
    assert!(!episode.record_step(Direction::Up, &TickResult::Moved));

    assert_eq!(episode.score, 21);
}

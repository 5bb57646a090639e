use db_seeder::db::batch::{BatchAction, BatchState, StoreReply};

fn run(size: usize, replies: &[StoreReply]) -> (BatchState, Vec<BatchAction>) {
    let mut state = BatchState::start();
    let mut actions = vec![state.action()];
    for reply in replies {
        state = state.step(size, *reply);
        actions.push(state.action());
    }
    (state, actions)
}

#[test]
fn batch_starts_by_opening_the_transaction() {
    assert_eq!(BatchState::start(), BatchState::Opening);
    assert_eq!(BatchState::start().action(), BatchAction::Begin);
}

#[test]
fn batch_of_three_executes_three_statements_in_order_and_commits() {
    let (state, actions) = run(3, &[StoreReply::Done; 5]);
    assert_eq!(state, BatchState::Committed);
    assert_eq!(
        actions,
        vec![
            BatchAction::Begin,
            BatchAction::Execute(0),
            BatchAction::Execute(1),
            BatchAction::Execute(2),
            BatchAction::Commit,
            BatchAction::Succeed,
        ]
    );
}

#[test]
fn empty_batch_commits_without_executing_a_statement() {
    let (state, actions) = run(0, &[StoreReply::Done; 2]);
    assert_eq!(state, BatchState::Committed);
    assert_eq!(actions, vec![BatchAction::Begin, BatchAction::Commit, BatchAction::Succeed]);
}

#[test]
fn failed_statement_ends_the_batch_without_a_commit() {
    let replies = [StoreReply::Done, StoreReply::Done, StoreReply::Failed];
    let (state, actions) = run(3, &replies);
    assert_eq!(state, BatchState::Failed);
    assert_eq!(
        actions,
        vec![
            BatchAction::Begin,
            BatchAction::Execute(0),
            BatchAction::Execute(1),
            BatchAction::Fail,
        ]
    );
    assert!(!actions.contains(&BatchAction::Commit));
}

#[test]
fn failure_at_every_position_never_commits() {
    let size = 4;
    for failing in 0..=size {
        let mut replies = vec![StoreReply::Done; size + 2];
        replies[failing] = StoreReply::Failed;
        let (state, actions) = run(size, &replies);
        assert_eq!(state, BatchState::Failed);
        assert!(!actions.contains(&BatchAction::Commit));
        assert!(!actions.contains(&BatchAction::Succeed));
    }
}

#[test]
fn failed_opening_fails_the_batch() {
    let (state, actions) = run(2, &[StoreReply::Failed]);
    assert_eq!(state, BatchState::Failed);
    assert_eq!(actions, vec![BatchAction::Begin, BatchAction::Fail]);
}

#[test]
fn failed_commit_fails_the_batch() {
    let replies = [StoreReply::Done, StoreReply::Done, StoreReply::Failed];
    let (state, actions) = run(1, &replies);
    assert_eq!(state, BatchState::Failed);
    assert_eq!(
        actions,
        vec![BatchAction::Begin, BatchAction::Execute(0), BatchAction::Commit, BatchAction::Fail]
    );
}

#[test]
fn final_states_stay_as_they_are() {
    assert_eq!(BatchState::Committed.step(3, StoreReply::Failed), BatchState::Committed);
    assert_eq!(BatchState::Committed.step(3, StoreReply::Done), BatchState::Committed);
    assert_eq!(BatchState::Failed.step(3, StoreReply::Done), BatchState::Failed);
    assert_eq!(BatchState::Failed.step(3, StoreReply::Failed), BatchState::Failed);
}

#[test]
fn last_statement_is_followed_by_the_commit() {
    assert_eq!(BatchState::Executing(2).step(3, StoreReply::Done), BatchState::Committing);
    assert_eq!(BatchState::Executing(1).step(3, StoreReply::Done), BatchState::Executing(2));
    assert_eq!(BatchState::Committing.step(3, StoreReply::Done), BatchState::Committed);
    assert_eq!(
        BatchState::Executing(usize::MAX).step(usize::MAX, StoreReply::Done),
        BatchState::Committing
    );
}

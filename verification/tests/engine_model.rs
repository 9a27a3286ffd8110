use raft_client::engine::EngineState;
use raft_client::messages::AppCommand;
use raft_client::messages::Proposal;
use raft_client::messages::ProposalOutcome;
use raft_client::messages::ResponseMode;

#[test]
fn duplicate_initial_members_collapse() {
    let engine = EngineState::new(&vec![1, 1, 2, 2, 2]);
    assert!(engine.contains_member(1));
    assert!(engine.contains_member(2));
    assert_eq!(engine.members.len(), 2);
}

#[test]
fn init_with_config_replaces_membership() {
    let mut engine = EngineState::new(&vec![1]);
    engine.init_with_config(&vec![2, 3]);
    assert!(!engine.contains_member(1));
    assert!(engine.contains_member(2));
    assert!(engine.contains_member(3));
}

#[test]
fn proposals_append_to_the_log_only() {
    let mut engine = EngineState::new(&vec![1]);
    let outcome = engine.propose(Proposal { entry: AppCommand::Data(5), mode: ResponseMode::Applied });
    assert_eq!(outcome, ProposalOutcome::Applied);
    let outcome = engine.propose(Proposal { entry: AppCommand::AddMember(9), mode: ResponseMode::Applied });
    assert_eq!(outcome, ProposalOutcome::Applied);
    assert_eq!(engine.log, vec![AppCommand::Data(5), AppCommand::AddMember(9)]);
    // Ordinary log entries never touch the membership table.
    assert!(!engine.contains_member(9));
    assert_eq!(engine.members, vec![1]);
}

#[test]
fn removal_wins_within_a_single_change() {
    let mut engine = EngineState::new(&vec![1]);
    engine.propose_config_change(&vec![3], &vec![3]);
    assert!(!engine.contains_member(3));
    assert!(engine.contains_member(1));
}

#[test]
fn config_change_adds_and_removes_in_one_step() {
    let mut engine = EngineState::new(&vec![1, 2]);
    engine.propose_config_change(&vec![3], &vec![1]);
    assert!(!engine.contains_member(1));
    assert!(engine.contains_member(2));
    assert!(engine.contains_member(3));
    assert!(engine.log.is_empty());
}

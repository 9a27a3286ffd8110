use raft_client::client::BootstrapStep;
use raft_client::client::Dispatch;
use raft_client::client::HandlerKind;
use raft_client::client::HandlerTarget;
use raft_client::client::InitError;
use raft_client::client::RaftClient;
use raft_client::engine::EngineState;
use raft_client::messages::AppCommand;
use raft_client::messages::ClientRequest;
use raft_client::messages::InitRaft;
use raft_client::messages::NodeId;

/// Drive one node through the bootstrap steps its initialization returned,
/// the way the runtime would: build the engine, then run each step.
fn run_bootstrap(client: &RaftClient, members: &Vec<NodeId>, steps: &[BootstrapStep], leader: NodeId) -> EngineState {
    let mut engine = EngineState::new(members);
    for step in steps {
        match *step {
            BootstrapStep::Settle => {}
            BootstrapStep::InitCluster => engine.init_with_config(members),
            BootstrapStep::RecordSelf(id) => {
                let msg = ClientRequest(AppCommand::AddMember(id));
                match client.route_client_request(msg, leader) {
                    Dispatch::Local(p) => {
                        engine.propose(p);
                    }
                    Dispatch::Remote(_, _) => panic!("founding node must submit locally"),
                }
            }
        }
    }
    engine
}

#[test]
fn founding_single_node_cluster() {
    let mut client = RaftClient::new(1);
    let effects = client
        .handle_init(InitRaft { nodes: vec![1], join_mode: false })
        .expect("first init is accepted");

    assert_eq!(effects.members, vec![1]);
    assert_eq!(
        effects.bootstrap,
        vec![
            BootstrapStep::Settle,
            BootstrapStep::InitCluster,
            BootstrapStep::Settle,
            BootstrapStep::RecordSelf(1),
        ]
    );

    let engine = run_bootstrap(&client, &effects.members, &effects.bootstrap, 1);
    assert!(engine.contains_member(1));
    assert_eq!(engine.members.len(), 1);
    assert_eq!(engine.log, vec![AppCommand::AddMember(1)]);
}

#[test]
fn joining_node_starts_as_singleton() {
    let mut client = RaftClient::new(2);
    let effects = client
        .handle_init(InitRaft { nodes: vec![1, 2, 3], join_mode: true })
        .expect("first init is accepted");

    assert_eq!(effects.members, vec![2]);
    assert!(effects.bootstrap.is_empty());

    let engine = EngineState::new(&effects.members);
    assert!(engine.contains_member(2));
    assert!(!engine.contains_member(1));
    assert!(!engine.contains_member(3));
    assert!(engine.log.is_empty());
}

#[test]
fn second_initialization_is_rejected() {
    let mut client = RaftClient::new(7);
    client
        .handle_init(InitRaft { nodes: vec![7, 8], join_mode: false })
        .expect("first init is accepted");
    let again = client.handle_init(InitRaft { nodes: vec![9], join_mode: false });
    assert_eq!(again.unwrap_err(), InitError::AlreadyInitialized);
    assert!(client.initialized);
    assert_eq!(client.id, 7);
}

#[test]
fn registrations_bind_config_changes_to_the_core() {
    let mut client = RaftClient::new(3);
    let effects = client
        .handle_init(InitRaft { nodes: vec![3], join_mode: false })
        .expect("first init is accepted");

    let kinds: Vec<HandlerKind> = effects.registrations.iter().map(|r| r.kind).collect();
    assert_eq!(
        kinds,
        vec![
            HandlerKind::AppendEntries,
            HandlerKind::Vote,
            HandlerKind::InstallSnapshot,
            HandlerKind::ConfigChange,
            HandlerKind::ClientPayload,
        ]
    );
    for r in &effects.registrations {
        if r.kind == HandlerKind::ConfigChange {
            assert_eq!(r.target, HandlerTarget::Core);
        } else {
            assert_eq!(r.target, HandlerTarget::Engine);
        }
    }
}

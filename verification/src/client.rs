//! The protocol core: per-node coordinator that routes client requests and
//! membership changes to the local consensus engine or to the current leader.
//!
//! Every function here is a decision: it takes the core's state together with
//! the answers the environment has already produced (the believed leader, an
//! engine outcome) and returns what must happen next.  The embedding runtime
//! performs the sends, delays and engine calls those decisions name, and
//! hands each reply back in.

use vstd::prelude::*;
use crate::messages::AddNode;
use crate::messages::AppCommand;
use crate::messages::ChangeRaftClusterConfig;
use crate::messages::ClientRequest;
use crate::messages::InitRaft;
use crate::messages::NodeId;
use crate::messages::Proposal;
use crate::messages::ProposalOutcome;
use crate::messages::RemoveNode;
use crate::messages::ResponseMode;

verus! {

/// The consensus wire-message kinds a node must dispatch.
#[derive(Clone, Copy, PartialEq, Eq, Structural, Hash, Debug)]
pub enum HandlerKind {
    /// Log-replication traffic.
    AppendEntries,
    /// Leader-election vote requests.
    Vote,
    /// Snapshot installation.
    InstallSnapshot,
    /// Membership change requests.
    ConfigChange,
    /// Client proposals forwarded from other nodes.
    ClientPayload,
}

/// Who handles a message kind on this node.
#[derive(Clone, Copy, PartialEq, Eq, Structural, Debug)]
pub enum HandlerTarget {
    /// The local consensus engine instance.
    Engine,
    /// The protocol core itself.
    Core,
}

/// One registry entry: a message kind bound to its handler.
#[derive(Clone, Copy, PartialEq, Eq, Structural, Debug)]
pub struct Registration {
    pub kind: HandlerKind,
    pub target: HandlerTarget,
}

/// One step of the founding node's two-phase bootstrap sequence.
#[derive(Clone, Copy, PartialEq, Eq, Structural, Debug)]
pub enum BootstrapStep {
    /// A fixed settling delay that lets peer network links establish.
    Settle,
    /// Engine-level "initialize with configuration" using the effective
    /// membership list.
    InitCluster,
    /// Submit the client request that records the given node as a member in
    /// the replicated log.
    RecordSelf(NodeId),
}

/// Everything a successful initialization asks the runtime to do: build the
/// engine with `members`, enter `registrations` in the shared registry, then
/// run the `bootstrap` steps in order.
#[derive(Clone, PartialEq, Eq, Debug)]
pub struct InitEffects {
    pub members: Vec<NodeId>,
    pub registrations: Vec<Registration>,
    pub bootstrap: Vec<BootstrapStep>,
}

/// A second initialization command is rejected: the engine and dispatcher
/// handles are set at most once.
#[derive(Clone, Copy, PartialEq, Eq, Structural, Debug)]
pub enum InitError {
    AlreadyInitialized,
}

/// Where one client request attempt goes.
#[derive(Clone, Copy, PartialEq, Eq, Structural, Debug)]
pub enum Dispatch {
    /// The local node is the leader: submit to the local engine directly.
    Local(Proposal),
    /// Forward the proposal over the network to the given leader.
    Remote(NodeId, Proposal),
}

/// Where one membership change request goes.
#[derive(Clone, PartialEq, Eq, Debug)]
pub enum ConfigDispatch {
    /// The local node is the leader: propose the change (nodes to add, nodes
    /// to remove) to the local engine.
    Propose(Vec<NodeId>, Vec<NodeId>),
    /// Forward the raw config-change message to the given leader.
    Forward(NodeId, ChangeRaftClusterConfig),
}

/// What one client request does after its outcome arrives.
#[derive(Clone, Copy, PartialEq, Eq, Structural, Debug)]
pub enum Followup {
    /// Success: nothing further happens.
    Done,
    /// Recoverable failure: resubmit this same request from the top.
    Retry(ClientRequest),
    /// Application-level failure: reported with its code and dropped.
    Dropped(u64),
}

/// The per-node protocol core.  `initialized` says whether the one-time
/// initialization command has installed the engine instance and the network
/// dispatcher handle; both are installed together, exactly once.
#[derive(Clone, Copy, PartialEq, Eq, Structural, Debug)]
pub struct RaftClient {
    pub id: NodeId,
    pub initialized: bool,
}

/// The effective initial membership of the local engine: a node joining an
/// existing cluster starts as a one-member group holding only itself and is
/// reconfigured later by that cluster's leader; a founding node takes the
/// full supplied list.
pub open spec fn effective_members_spec(id: NodeId, nodes: Seq<NodeId>, join_mode: bool) -> Seq<NodeId> {
    if join_mode {
        seq![id]
    } else {
        nodes
    }
}

/// The registry entries every node installs: the engine handles all
/// consensus wire traffic and client proposals; the core itself handles
/// config-change messages.
pub open spec fn registration_plan_spec() -> Seq<Registration> {
    seq![
        (Registration { kind: HandlerKind::AppendEntries, target: HandlerTarget::Engine }),
        (Registration { kind: HandlerKind::Vote, target: HandlerTarget::Engine }),
        (Registration { kind: HandlerKind::InstallSnapshot, target: HandlerTarget::Engine }),
        (Registration { kind: HandlerKind::ConfigChange, target: HandlerTarget::Core }),
        (Registration { kind: HandlerKind::ClientPayload, target: HandlerTarget::Engine }),
    ]
}

/// The founding bootstrap sequence: settle, initialize the engine with the
/// effective configuration, settle again, then record the local node in the
/// replicated log through the ordinary add-member request path.  A joining
/// node runs no bootstrap step at all.
pub open spec fn bootstrap_plan_spec(id: NodeId, join_mode: bool) -> Seq<BootstrapStep> {
    if join_mode {
        Seq::empty()
    } else {
        seq![
            BootstrapStep::Settle,
            BootstrapStep::InitCluster,
            BootstrapStep::Settle,
            BootstrapStep::RecordSelf(id),
        ]
    }
}

/// How one client request attempt is dispatched: submitted to the local
/// engine exactly when the believed leader is the local node, otherwise
/// forwarded to that leader; either way the command is wrapped in exactly
/// one proposal that waits until the command is applied.
pub open spec fn route_spec(c: RaftClient, cmd: AppCommand, leader: NodeId) -> Dispatch {
    let p = Proposal { entry: cmd, mode: ResponseMode::Applied };
    if leader == c.id {
        Dispatch::Local(p)
    } else {
        Dispatch::Remote(leader, p)
    }
}

/// How one membership change is dispatched: proposed to the local engine
/// exactly when the believed leader is the local node, otherwise forwarded
/// unwrapped, as its own wire message type.
pub open spec fn config_route_spec(c: RaftClient, msg: ChangeRaftClusterConfig, leader: NodeId) -> ConfigDispatch {
    if leader == c.id {
        ConfigDispatch::Propose(msg.0, msg.1)
    } else {
        ConfigDispatch::Forward(leader, msg)
    }
}

/// What a client request does once its outcome is known: success ends it, a
/// recoverable outcome (internal engine error or stale-leader redirect)
/// resubmits the identical request, an application error is dropped.
pub open spec fn followup_spec(res: ProposalOutcome, msg: ClientRequest) -> Followup {
    match res {
        ProposalOutcome::Applied => Followup::Done,
        ProposalOutcome::Internal => Followup::Retry(msg),
        ProposalOutcome::Application(code) => Followup::Dropped(code),
        ProposalOutcome::ForwardToLeader => Followup::Retry(msg),
    }
}

/// Whether an outcome is recoverable: such an outcome causes immediate,
/// unconditional resubmission of the same request.
pub open spec fn recoverable_spec(res: ProposalOutcome) -> bool {
    res is Internal || res is ForwardToLeader
}

/// How many attempts a request makes when its successive attempts would
/// meet these outcomes: it stops at the first outcome that is not
/// recoverable; while every outcome is recoverable it keeps going.
pub open spec fn attempts_taken(outcomes: Seq<ProposalOutcome>) -> int
    decreases outcomes.len(),
{
    if outcomes.len() == 0 {
        0
    } else if !recoverable_spec(outcomes[0]) {
        1
    } else {
        1 + attempts_taken(outcomes.skip(1))
    }
}

/// The followup standing after those attempts: what the settling outcome
/// decides once one arrives, and a retry of the identical request while
/// every outcome so far was recoverable.
pub open spec fn request_fate(msg: ClientRequest, outcomes: Seq<ProposalOutcome>) -> Followup
    decreases outcomes.len(),
{
    if outcomes.len() == 0 {
        Followup::Retry(msg)
    } else if !recoverable_spec(outcomes[0]) {
        followup_spec(outcomes[0], msg)
    } else {
        request_fate(msg, outcomes.skip(1))
    }
}

/// The add-member recording requests that follow a locally proposed config
/// change: one per added node, in order, and only if the engine accepted the
/// change.
pub open spec fn add_notifications_spec(added: Seq<NodeId>, accepted: bool) -> Seq<AddNode> {
    if accepted {
        Seq::new(added.len(), |i: int| AddNode(added[i]))
    } else {
        Seq::empty()
    }
}

impl RaftClient {
    /// A fresh core for node `id`, before its initialization command.
    pub fn new(id: NodeId) -> (c: RaftClient)
        ensures
            c.id == id,
            !c.initialized,
    {
        RaftClient { id, initialized: false }
    }

    /// Handle the one-time initialization command.  A second command is
    /// rejected and changes nothing.  Otherwise the core becomes
    /// initialized and returns the effects the runtime must enact: the
    /// effective membership for the new engine, the handler registrations,
    /// and the bootstrap steps (none when joining an existing cluster).
    pub fn handle_init(&mut self, msg: InitRaft) -> (r: Result<InitEffects, InitError>)
        ensures
            old(self).initialized ==> {
                &&& r matches Err(e) && e == InitError::AlreadyInitialized
                &&& *final(self) == *old(self)
            },
            !old(self).initialized ==> {
                &&& final(self).id == old(self).id
                &&& final(self).initialized
                &&& r matches Ok(eff)
                    && eff.members@ == effective_members_spec(old(self).id, msg.nodes@, msg.join_mode)
                    && eff.registrations@ == registration_plan_spec()
                    && eff.bootstrap@ == bootstrap_plan_spec(old(self).id, msg.join_mode)
            },
    {
        if self.initialized {
            return Err(InitError::AlreadyInitialized);
        }
        self.initialized = true;

        let members: Vec<NodeId> = if msg.join_mode {
            let mut singleton: Vec<NodeId> = Vec::new();
            singleton.push(self.id);
            proof {
                assert(singleton@ =~= effective_members_spec(self.id, msg.nodes@, true));
            }
            singleton
        } else {
            msg.nodes
        };

        let registrations = registration_plan();

        let mut bootstrap: Vec<BootstrapStep> = Vec::new();
        if !msg.join_mode {
            bootstrap.push(BootstrapStep::Settle);
            bootstrap.push(BootstrapStep::InitCluster);
            bootstrap.push(BootstrapStep::Settle);
            bootstrap.push(BootstrapStep::RecordSelf(self.id));
        }
        proof {
            assert(bootstrap@ =~= bootstrap_plan_spec(self.id, msg.join_mode));
        }

        Ok(InitEffects { members, registrations, bootstrap })
    }

    /// Decide where one client request attempt goes.  Requires an
    /// initialized core: before initialization there is neither a network
    /// dispatcher to forward through nor an engine to submit to.
    pub fn route_client_request(&self, msg: ClientRequest, leader: NodeId) -> (d: Dispatch)
        requires
            self.initialized,
        ensures
            d == route_spec(*self, msg.0, leader),
    {
        let p = Proposal::applied(msg.0);
        if leader == self.id {
            Dispatch::Local(p)
        } else {
            Dispatch::Remote(leader, p)
        }
    }

    /// Decide where one membership change request goes.
    pub fn route_config_change(&self, msg: ChangeRaftClusterConfig, leader: NodeId) -> (d: ConfigDispatch)
        requires
            self.initialized,
        ensures
            d == config_route_spec(*self, msg, leader),
    {
        if leader == self.id {
            ConfigDispatch::Propose(msg.0, msg.1)
        } else {
            ConfigDispatch::Forward(leader, msg)
        }
    }
}

/// The registry entries every node installs, as a list the runtime can walk.
pub fn registration_plan() -> (r: Vec<Registration>)
    ensures
        r@ == registration_plan_spec(),
{
    let mut r: Vec<Registration> = Vec::new();
    r.push(Registration { kind: HandlerKind::AppendEntries, target: HandlerTarget::Engine });
    r.push(Registration { kind: HandlerKind::Vote, target: HandlerTarget::Engine });
    r.push(Registration { kind: HandlerKind::InstallSnapshot, target: HandlerTarget::Engine });
    r.push(Registration { kind: HandlerKind::ConfigChange, target: HandlerTarget::Core });
    r.push(Registration { kind: HandlerKind::ClientPayload, target: HandlerTarget::Engine });
    proof {
        assert(r@ =~= registration_plan_spec());
    }
    r
}

/// Evaluate the outcome of one client request attempt and decide what
/// follows: nothing on success, the identical request again on a
/// recoverable failure, a report-and-drop on an application error.
pub fn handle_client_response(res: ProposalOutcome, msg: ClientRequest) -> (f: Followup)
    ensures
        f == followup_spec(res, msg),
{
    match res {
        ProposalOutcome::Applied => Followup::Done,
        ProposalOutcome::Internal => Followup::Retry(msg),
        ProposalOutcome::Application(code) => Followup::Dropped(code),
        ProposalOutcome::ForwardToLeader => Followup::Retry(msg),
    }
}

/// The client request recording the addition of the node named by an
/// add-node command.
pub fn handle_add_node(msg: AddNode) -> (r: ClientRequest)
    ensures
        r == ClientRequest(AppCommand::AddMember(msg.0)),
{
    ClientRequest(crate::messages::add_node(msg.0))
}

/// A message the core sends itself while carrying out a composite command.
#[derive(Clone, PartialEq, Eq, Debug)]
pub enum OutMsg {
    /// A client request appending one record to the replicated log.
    Request(ClientRequest),
    /// A membership change handed to the config-change protocol.
    Config(ChangeRaftClusterConfig),
}

/// Handle a remove-node command.  Removal is composite, and the order is
/// part of the protocol: first the client request that records the removal
/// in the replicated log, then the config change that drops the node from
/// the engine's active membership set.  The two steps are not transactional;
/// a crash between them is reconciled by the next leader.
pub fn handle_remove_node(msg: RemoveNode) -> (r: Vec<OutMsg>)
    ensures
        r@.len() == 2,
        r@[0] == OutMsg::Request(ClientRequest(AppCommand::RemoveMember(msg.0))),
        r@[1] matches OutMsg::Config(change)
            && change.0@ == Seq::<NodeId>::empty()
            && change.1@ == seq![msg.0],
{
    let mut r: Vec<OutMsg> = Vec::new();
    r.push(OutMsg::Request(ClientRequest(crate::messages::remove_node(msg.0))));
    let mut removed: Vec<NodeId> = Vec::new();
    removed.push(msg.0);
    proof {
        assert(removed@ =~= seq![msg.0]);
    }
    r.push(OutMsg::Config(ChangeRaftClusterConfig(Vec::new(), removed)));
    r
}

/// The add-member recording requests that follow a local config-change
/// proposal: one per added node, in order, and only when the engine
/// accepted the change.
pub fn config_change_followup(added: &Vec<NodeId>, accepted: bool) -> (r: Vec<AddNode>)
    ensures
        r@ == add_notifications_spec(added@, accepted),
{
    let mut r: Vec<AddNode> = Vec::new();
    if accepted {
        let mut i: usize = 0;
        while i < added.len()
            invariant
                0 <= i <= added@.len(),
                r@.len() == i,
                forall|j: int| 0 <= j < i ==> r@[j] == AddNode(added@[j]),
            decreases added@.len() - i,
        {
            r.push(AddNode(added[i]));
            i += 1;
        }
        proof {
            assert(r@ =~= add_notifications_spec(added@, true));
        }
    }
    proof {
        assert(r@ =~= add_notifications_spec(added@, accepted));
    }
    r
}

/// Replay a request's retry loop against the outcomes its successive
/// attempts would meet.  Returns how many attempts were made and the
/// followup left standing: the loop runs until an outcome that is not
/// recoverable settles the request, and while only recoverable outcomes
/// arrive the identical request stays in flight.
pub fn drive_request(msg: ClientRequest, outcomes: &Vec<ProposalOutcome>) -> (r: (usize, Followup))
    ensures
        r.0 == attempts_taken(outcomes@),
        r.1 == request_fate(msg, outcomes@),
{
    let mut i: usize = 0;
    proof {
        assert(outcomes@.skip(0) =~= outcomes@);
    }
    while i < outcomes.len()
        invariant
            0 <= i <= outcomes@.len(),
            attempts_taken(outcomes@) == i + attempts_taken(outcomes@.skip(i as int)),
            request_fate(msg, outcomes@) == request_fate(msg, outcomes@.skip(i as int)),
        decreases outcomes@.len() - i,
    {
        let ghost rest = outcomes@.skip(i as int);
        proof {
            assert(rest[0] == outcomes@[i as int]);
            assert(rest.skip(1) =~= outcomes@.skip(i + 1 as int));
        }
        let followup = handle_client_response(outcomes[i], msg);
        match followup {
            Followup::Retry(_) => {
                proof {
                    assert(recoverable_spec(outcomes@[i as int]));
                }
                i += 1;
            }
            _ => {
                proof {
                    assert(!recoverable_spec(outcomes@[i as int]));
                    assert(attempts_taken(rest) == 1);
                }
                return (i + 1, followup);
            }
        }
    }
    proof {
        assert(outcomes@.skip(outcomes@.len() as int) =~= Seq::<ProposalOutcome>::empty());
    }
    (outcomes.len(), Followup::Retry(msg))
}

} // verus!

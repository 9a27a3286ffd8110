//! Commands and messages exchanged with the protocol core.

use vstd::prelude::*;

verus! {

/// Identifier of a cluster member: opaque, globally unique and orderable.
pub type NodeId = u64;

/// A command stored in the replicated log: either an opaque application-level
/// mutation, or one of the two reserved membership records.
#[derive(Clone, Copy, PartialEq, Eq, Structural, Debug)]
pub enum AppCommand {
    /// An opaque application-level mutation.
    Data(u64),
    /// Record that the node was added to the cluster.
    AddMember(NodeId),
    /// Record that the node was removed from the cluster.
    RemoveMember(NodeId),
}

/// How long the caller wants to wait for a proposal's outcome.
#[derive(Clone, Copy, PartialEq, Eq, Structural, Debug)]
pub enum ResponseMode {
    /// Answer once the entry is durably committed.
    Committed,
    /// Answer once the entry is applied to the state machine.
    Applied,
    /// Fire and forget.
    FireAndForget,
}

/// A command wrapped with its response mode: the unit submitted to the
/// consensus engine.  Proposals are ephemeral, created per request.
#[derive(Clone, Copy, PartialEq, Eq, Structural, Debug)]
pub struct Proposal {
    pub entry: AppCommand,
    pub mode: ResponseMode,
}

impl Proposal {
    /// Wrap `entry` for submission, waiting until it is applied.
    pub fn applied(entry: AppCommand) -> (p: Proposal)
        ensures
            p == (Proposal { entry, mode: ResponseMode::Applied }),
    {
        Proposal { entry, mode: ResponseMode::Applied }
    }
}

/// The outcome the engine (or the remote leader) reports for one proposal.
#[derive(Clone, Copy, PartialEq, Eq, Structural, Debug)]
pub enum ProposalOutcome {
    /// The command was committed and applied.
    Applied,
    /// Transient engine failure: the request is to be resubmitted.
    Internal,
    /// State-machine-level failure with an opaque application code: reported
    /// and dropped, never retried.
    Application(u64),
    /// The receiving node was not the leader: the request is to be
    /// resubmitted so routing can find the current leader.
    ForwardToLeader,
}

/// One-time initialization command: the target membership list and whether
/// the node joins an existing cluster instead of founding a new one.
#[derive(Clone, PartialEq, Eq, Debug)]
pub struct InitRaft {
    pub nodes: Vec<NodeId>,
    pub join_mode: bool,
}

/// Ask the core to record the addition of a node in the replicated log.
#[derive(Clone, Copy, PartialEq, Eq, Structural, Debug)]
pub struct AddNode(pub NodeId);

/// Ask the core to remove a node: first a log record, then a config change.
#[derive(Clone, Copy, PartialEq, Eq, Structural, Debug)]
pub struct RemoveNode(pub NodeId);

/// A membership change request: the nodes to add and the nodes to remove.
/// Distinct from an [`AppCommand`]: it targets the engine's membership
/// protocol directly, and travels over the wire as its own message type.
#[derive(Clone, PartialEq, Eq, Debug)]
pub struct ChangeRaftClusterConfig(pub Vec<NodeId>, pub Vec<NodeId>);

/// A client request carrying one application command.  Fire-and-forget for
/// its caller: the outcome is observed through retries and the log only.
#[derive(Clone, Copy, PartialEq, Eq, Structural, Debug)]
pub struct ClientRequest(pub AppCommand);

/// The log record for adding `id` to the cluster.
pub fn add_node(id: NodeId) -> (c: AppCommand)
    ensures
        c == AppCommand::AddMember(id),
{
    AppCommand::AddMember(id)
}

/// The log record for removing `id` from the cluster.
pub fn remove_node(id: NodeId) -> (c: AppCommand)
    ensures
        c == AppCommand::RemoveMember(id),
{
    AppCommand::RemoveMember(id)
}

} // verus!

//! The protocol's guarantees, stated and proved over the routing and
//! response specifications of [`crate::client`] and the engine model of
//! [`crate::engine`].

use vstd::prelude::*;
use crate::client::ConfigDispatch;
use crate::client::Dispatch;
use crate::client::Followup;
use crate::client::RaftClient;
use crate::client::attempts_taken;
use crate::client::config_route_spec;
use crate::client::followup_spec;
use crate::client::recoverable_spec;
use crate::client::request_fate;
use crate::client::route_spec;
use crate::engine::EngineState;
use crate::engine::member_after;
use crate::messages::AppCommand;
use crate::messages::ChangeRaftClusterConfig;
use crate::messages::ClientRequest;
use crate::messages::NodeId;
use crate::messages::Proposal;
use crate::messages::ProposalOutcome;
use crate::messages::ResponseMode;

verus! {

/// One externally visible action of a single client request attempt.
pub enum AttemptEvent {
    /// The proposal is submitted to the local engine.
    SubmitProposal(Proposal),
    /// The proposal is forwarded over the network to the given leader.
    ForwardProposal(NodeId, Proposal),
}

/// The actions one routing decision gives rise to.
pub open spec fn attempt_events(d: Dispatch) -> Seq<AttemptEvent> {
    match d {
        Dispatch::Local(p) => seq![AttemptEvent::SubmitProposal(p)],
        Dispatch::Remote(l, p) => seq![AttemptEvent::ForwardProposal(l, p)],
    }
}

/// One externally visible action of a single config-change attempt.
pub enum ConfigEvent {
    /// The change (nodes to add, nodes to remove) is proposed to the local
    /// engine.
    ProposeToEngine(Seq<NodeId>, Seq<NodeId>),
    /// The raw config-change message is forwarded to the given leader.
    ForwardConfig(NodeId, Seq<NodeId>, Seq<NodeId>),
}

/// The actions one config-change routing decision gives rise to.
pub open spec fn config_events(d: ConfigDispatch) -> Seq<ConfigEvent> {
    match d {
        ConfigDispatch::Propose(a, r) => seq![ConfigEvent::ProposeToEngine(a@, r@)],
        ConfigDispatch::Forward(l, m) => seq![ConfigEvent::ForwardConfig(l, m.0@, m.1@)],
    }
}

/// A client request handled while the local node is the leader results in
/// exactly one direct engine submission of the command, wrapped to wait
/// until applied, and in no network hop.
pub proof fn lemma_leader_request_goes_local(c: RaftClient, cmd: AppCommand, leader: NodeId)
    requires
        leader == c.id,
    ensures
        attempt_events(route_spec(c, cmd, leader)) =~= seq![
            AttemptEvent::SubmitProposal((Proposal { entry: cmd, mode: ResponseMode::Applied })),
        ],
        forall|i: int| 0 <= i < attempt_events(route_spec(c, cmd, leader)).len()
            ==> !(attempt_events(route_spec(c, cmd, leader))[i] is ForwardProposal),
{
}

/// A client request handled while the local node is not the leader results
/// in exactly one message forwarded to the believed leader per attempt, and
/// in no direct engine submission.
pub proof fn lemma_non_leader_request_forwarded(c: RaftClient, cmd: AppCommand, leader: NodeId)
    requires
        leader != c.id,
    ensures
        attempt_events(route_spec(c, cmd, leader)) =~= seq![
            AttemptEvent::ForwardProposal(leader, (Proposal { entry: cmd, mode: ResponseMode::Applied })),
        ],
        forall|i: int| 0 <= i < attempt_events(route_spec(c, cmd, leader)).len()
            ==> !(attempt_events(route_spec(c, cmd, leader))[i] is SubmitProposal),
{
}

/// A request is resubmitted exactly when its outcome is recoverable — an
/// internal engine error or a stale-leader redirect — and what is
/// resubmitted is the identical request.  Success ends the request, and an
/// application-level error drops it without retry.
pub proof fn lemma_retry_exactly_on_recoverable(res: ProposalOutcome, msg: ClientRequest)
    ensures
        (followup_spec(res, msg) is Retry) <==> (res is Internal || res is ForwardToLeader),
        followup_spec(res, msg) matches Followup::Retry(again) ==> again == msg,
        (followup_spec(res, msg) is Done) <==> res is Applied,
        (followup_spec(res, msg) is Dropped) <==> res is Application,
{
}

/// Resubmitting an identical request routes it exactly as the first
/// attempt did under the same leader belief: retries repeat the attempt,
/// they never change what is attempted.
pub proof fn lemma_retry_repeats_attempt(c: RaftClient, msg: ClientRequest, leader: NodeId, res: ProposalOutcome)
    requires
        followup_spec(res, msg) is Retry,
    ensures
        followup_spec(res, msg) matches Followup::Retry(again)
            ==> route_spec(c, again.0, leader) == route_spec(c, msg.0, leader),
{
}

/// No run of recoverable outcomes can end a request or change what it
/// submits: after any number of them, the identical request is still in
/// flight, one attempt per outcome met.
pub proof fn lemma_recoverable_outcomes_keep_request_identical(msg: ClientRequest, outcomes: Seq<ProposalOutcome>)
    requires
        forall|j: int| 0 <= j < outcomes.len() ==> recoverable_spec(#[trigger] outcomes[j]),
    ensures
        request_fate(msg, outcomes) == Followup::Retry(msg),
        attempts_taken(outcomes) == outcomes.len(),
    decreases outcomes.len(),
{
    if outcomes.len() > 0 {
        assert(recoverable_spec(outcomes[0]));
        let rest = outcomes.skip(1);
        assert forall|j: int| 0 <= j < rest.len() implies recoverable_spec(#[trigger] rest[j]) by {
            assert(rest[j] == outcomes[j + 1]);
        }
        lemma_recoverable_outcomes_keep_request_identical(msg, rest);
    }
}

/// Repeated delivery of the identical membership change is idempotent for
/// the membership set: applying the same change twice leaves a node's
/// membership exactly as applying it once does.
pub proof fn lemma_repeat_config_change_idempotent(before: bool, added: bool, removed: bool)
    ensures
        member_after(member_after(before, added, removed), added, removed)
            == member_after(before, added, removed),
{
}

/// Once the leader proposes a config change that adds node `n` (and does
/// not also remove it) and the engine applies the change, `n` is a member
/// of the engine's membership set.
pub proof fn lemma_added_node_becomes_member(
    c: RaftClient,
    msg: ChangeRaftClusterConfig,
    leader: NodeId,
    before: EngineState,
    after: EngineState,
    n: NodeId,
)
    requires
        leader == c.id,
        msg.0@.contains(n),
        !msg.1@.contains(n),
        forall|m: NodeId| after.is_member(m) == member_after(
            before.is_member(m),
            msg.0@.contains(m),
            msg.1@.contains(m),
        ),
    ensures
        config_route_spec(c, msg, leader) is Propose,
        after.is_member(n),
{
    assert(after.is_member(n) == member_after(before.is_member(n), true, false));
}

/// A config change handled while the local node is not the leader results
/// in exactly one forwarded config-change message to the believed leader,
/// carrying the change unaltered, and in zero direct engine proposals.
pub proof fn lemma_non_leader_config_forwarded(c: RaftClient, msg: ChangeRaftClusterConfig, leader: NodeId)
    requires
        leader != c.id,
    ensures
        config_events(config_route_spec(c, msg, leader)) =~= seq![
            ConfigEvent::ForwardConfig(leader, msg.0@, msg.1@),
        ],
        forall|i: int| 0 <= i < config_events(config_route_spec(c, msg, leader)).len()
            ==> !(config_events(config_route_spec(c, msg, leader))[i] is ProposeToEngine),
{
}

} // verus!

//! A model of the consensus engine at its interface boundary: the membership
//! set it recognizes and the replicated log of committed commands.
//!
//! The engine's internals — leader election, log replication, snapshots —
//! are an external collaborator and out of scope; what is modeled is exactly
//! what the protocol core observes of a correct engine through its
//! interface: initialization with a configuration, proposals that append to
//! the replicated log, and config changes that rewrite the membership set.

use vstd::prelude::*;
use crate::messages::AppCommand;
use crate::messages::NodeId;
use crate::messages::Proposal;
use crate::messages::ProposalOutcome;

verus! {

broadcast use vstd::seq_lib::group_seq_properties;

/// Whether a node is a member after one config change, from whether it was a
/// member before, whether the change adds it, and whether it removes it.
/// Removal wins over addition within a single change.
pub open spec fn member_after(before: bool, added: bool, removed: bool) -> bool {
    (before || added) && !removed
}

/// The engine state the protocol core can observe: the current membership
/// set (held as a duplicate-free list) and the replicated log.
pub struct EngineState {
    pub members: Vec<NodeId>,
    pub log: Vec<AppCommand>,
}

impl EngineState {
    /// Abstract membership: whether `n` is currently a full member.
    pub open spec fn is_member(self, n: NodeId) -> bool {
        self.members@.contains(n)
    }

    /// The replicated log of committed commands, oldest first.
    pub open spec fn log_view(self) -> Seq<AppCommand> {
        self.log@
    }

    /// Well-formed: the member list holds each node at most once, so it
    /// faithfully represents a set.
    pub open spec fn inv(self) -> bool {
        self.members@.no_duplicates()
    }

    /// A fresh engine bound to the given initial membership, with an empty
    /// log.  Duplicates in the supplied list collapse: membership is a set.
    pub fn new(members: &Vec<NodeId>) -> (e: EngineState)
        ensures
            e.inv(),
            forall|n: NodeId| e.is_member(n) <==> members@.contains(n),
            e.log_view() == Seq::<AppCommand>::empty(),
    {
        let list = dedup_members(members);
        EngineState { members: list, log: Vec::new() }
    }

    /// Engine-level "initialize with configuration": the membership set
    /// becomes exactly the supplied list; the log is untouched.
    pub fn init_with_config(&mut self, members: &Vec<NodeId>)
        ensures
            final(self).inv(),
            forall|n: NodeId| final(self).is_member(n) <==> members@.contains(n),
            final(self).log_view() == old(self).log_view(),
    {
        let list = dedup_members(members);
        self.members = list;
    }

    /// Submit one proposal: a correct engine reachable from its leader
    /// commits the entry, appends it to the replicated log, and reports it
    /// applied.  Membership is never touched by an ordinary log entry.
    /// Failure outcomes arrive from remote or faulty engines and are
    /// exercised through the protocol core's response handling.
    pub fn propose(&mut self, p: Proposal) -> (r: ProposalOutcome)
        ensures
            final(self).log_view() == old(self).log_view().push(p.entry),
            final(self).members == old(self).members,
            r == ProposalOutcome::Applied,
    {
        self.log.push(p.entry);
        ProposalOutcome::Applied
    }

    /// Apply one membership change: every node in `add` becomes a member,
    /// then every node in `remove` ceases to be one.  The replicated log is
    /// untouched: config changes travel the engine's own reconfiguration
    /// protocol, not the log.
    pub fn propose_config_change(&mut self, add: &Vec<NodeId>, remove: &Vec<NodeId>)
        requires
            old(self).inv(),
        ensures
            final(self).inv(),
            forall|n: NodeId| final(self).is_member(n) == member_after(
                old(self).is_member(n),
                add@.contains(n),
                remove@.contains(n),
            ),
            final(self).log_view() == old(self).log_view(),
    {
        let widened = append_members(&self.members, add);
        let kept = retain_absent(&widened, remove);
        self.members = kept;
    }

    /// Whether `n` is currently a member, as executable code.
    pub fn contains_member(&self, n: NodeId) -> (b: bool)
        ensures
            b == self.is_member(n),
    {
        member_list_contains(&self.members, n)
    }
}

/// Linear membership test on a node list.
fn member_list_contains(v: &Vec<NodeId>, x: NodeId) -> (b: bool)
    ensures
        b == v@.contains(x),
{
    let mut i: usize = 0;
    while i < v.len()
        invariant
            0 <= i <= v@.len(),
            forall|j: int| 0 <= j < i ==> v@[j] != x,
        decreases v@.len() - i,
    {
        if v[i] == x {
            proof {
                assert(v@[i as int] == x);
            }
            return true;
        }
        i += 1;
    }
    false
}

/// The supplied list with duplicates dropped: same membership, each node at
/// most once.
fn dedup_members(members: &Vec<NodeId>) -> (list: Vec<NodeId>)
    ensures
        list@.no_duplicates(),
        forall|n: NodeId| list@.contains(n) <==> members@.contains(n),
{
    let mut list: Vec<NodeId> = Vec::new();
    let mut i: usize = 0;
    while i < members.len()
        invariant
            0 <= i <= members@.len(),
            list@.no_duplicates(),
            forall|n: NodeId| list@.contains(n) <==> members@.take(i as int).contains(n),
        decreases members@.len() - i,
    {
        let m = members[i];
        if !member_list_contains(&list, m) {
            proof {
                lemma_push_fresh_keeps_no_duplicates(list@, m);
            }
            list.push(m);
        }
        proof {
            assert(members@.take(i + 1 as int) =~= members@.take(i as int).push(members@[i as int]));
        }
        i += 1;
    }
    proof {
        assert(members@.take(members@.len() as int) =~= members@);
    }
    list
}

/// `base` widened by `add`, still duplicate-free: a node is in the result
/// exactly when it is in `base` or in `add`.
fn append_members(base: &Vec<NodeId>, add: &Vec<NodeId>) -> (list: Vec<NodeId>)
    requires
        base@.no_duplicates(),
    ensures
        list@.no_duplicates(),
        forall|n: NodeId| list@.contains(n) <==> (base@.contains(n) || add@.contains(n)),
{
    let mut list: Vec<NodeId> = Vec::new();
    let mut i: usize = 0;
    while i < base.len()
        invariant
            0 <= i <= base@.len(),
            list@ == base@.take(i as int),
        decreases base@.len() - i,
    {
        list.push(base[i]);
        proof {
            assert(base@.take(i + 1 as int) =~= base@.take(i as int).push(base@[i as int]));
        }
        i += 1;
    }
    proof {
        assert(base@.take(base@.len() as int) =~= base@);
    }

    let mut j: usize = 0;
    while j < add.len()
        invariant
            0 <= j <= add@.len(),
            list@.no_duplicates(),
            forall|n: NodeId| list@.contains(n) <==> (base@.contains(n) || add@.take(j as int).contains(n)),
        decreases add@.len() - j,
    {
        let a = add[j];
        if !member_list_contains(&list, a) {
            proof {
                lemma_push_fresh_keeps_no_duplicates(list@, a);
            }
            list.push(a);
        }
        proof {
            assert(add@.take(j + 1 as int) =~= add@.take(j as int).push(add@[j as int]));
        }
        j += 1;
    }
    proof {
        assert(add@.take(add@.len() as int) =~= add@);
    }
    list
}

/// The nodes of `v` that `gone` does not name, still duplicate-free.
fn retain_absent(v: &Vec<NodeId>, gone: &Vec<NodeId>) -> (kept: Vec<NodeId>)
    requires
        v@.no_duplicates(),
    ensures
        kept@.no_duplicates(),
        forall|n: NodeId| kept@.contains(n) <==> (v@.contains(n) && !gone@.contains(n)),
{
    let mut kept: Vec<NodeId> = Vec::new();
    let mut i: usize = 0;
    while i < v.len()
        invariant
            0 <= i <= v@.len(),
            v@.no_duplicates(),
            kept@.no_duplicates(),
            forall|n: NodeId| kept@.contains(n) <==> (v@.take(i as int).contains(n) && !gone@.contains(n)),
        decreases v@.len() - i,
    {
        let m = v[i];
        if !member_list_contains(gone, m) {
            proof {
                assert(!kept@.contains(m)) by {
                    lemma_no_duplicates_take_excludes(v@, i as int);
                }
                lemma_push_fresh_keeps_no_duplicates(kept@, m);
            }
            kept.push(m);
        }
        proof {
            assert(v@.take(i + 1 as int) =~= v@.take(i as int).push(v@[i as int]));
        }
        i += 1;
    }
    proof {
        assert(v@.take(v@.len() as int) =~= v@);
    }
    kept
}

/// Pushing a value that a duplicate-free sequence does not contain keeps it
/// duplicate-free.
proof fn lemma_push_fresh_keeps_no_duplicates(s: Seq<NodeId>, x: NodeId)
    requires
        s.no_duplicates(),
        !s.contains(x),
    ensures
        s.push(x).no_duplicates(),
{
    let t = s.push(x);
    assert forall|i: int, j: int| (0 <= i < t.len() && 0 <= j < t.len() && i != j)
        implies t[i] != t[j] by {
        if i < s.len() && j < s.len() {
            assert(s[i] == t[i] && s[j] == t[j]);
        } else if i < s.len() && j == s.len() {
            assert(t[i] == s[i] && t[j] == x);
            assert(s.contains(s[i]));
        } else if j < s.len() && i == s.len() {
            assert(t[j] == s[j] && t[i] == x);
            assert(s.contains(s[j]));
        }
    }
}

/// In a duplicate-free sequence, the element at position `i` does not occur
/// among the first `i` elements.
proof fn lemma_no_duplicates_take_excludes(s: Seq<NodeId>, i: int)
    requires
        s.no_duplicates(),
        0 <= i < s.len(),
    ensures
        !s.take(i).contains(s[i]),
{
    if s.take(i).contains(s[i]) {
        let k = choose|k: int| 0 <= k < i && s.take(i)[k] == s[i];
        assert(s[k] == s[i]);
    }
}

} // verus!

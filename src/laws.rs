use crate::accumulator::signers_after;
use crate::crypto::{lemma_le_bytes_len, lemma_u64_bytes_injective, u64_bytes};
use crate::node::{aggregate_well_formed, node_encoding, CertifiedNode, DagError, Node, NodeCertificate};
use crate::validator::{lemma_distinct, Author, ValidatorVerifier};
use vstd::prelude::*;

verus! {

/// Two nodes built from the same fields carry the same digest.
pub proof fn lemma_digest_deterministic(a: Node, b: Node)
    requires
        a.metadata.digest@ == a.expected_digest(),
        b.metadata.digest@ == b.expected_digest(),
        a.metadata.node_id == b.metadata.node_id,
        a.metadata.timestamp == b.metadata.timestamp,
        a.payload@ == b.payload@,
        a.parents@ == b.parents@,
    ensures
        a.metadata.digest@ == b.metadata.digest@,
{
}

/// A round-0 node with a correct digest verifies exactly when it has no parents,
/// and is otherwise rejected for its genesis parents.
pub proof fn lemma_genesis(node: Node, verifier: ValidatorVerifier)
    requires
        node.metadata.node_id.round == 0,
        node.metadata.digest@ == node.expected_digest(),
    ensures
        node.parents@.len() == 0 ==> node.verify_outcome(node.expected_digest(), verifier) is Ok,
        node.parents@.len() > 0 ==> node.verify_outcome(node.expected_digest(), verifier)
            == Err::<(), DagError>(DagError::InvalidGenesisParents),
{
}

/// A later-round node with a correct digest and a parent from any round but
/// the previous one is rejected for its parent round.
pub proof fn lemma_parent_round(node: Node, verifier: ValidatorVerifier, i: int)
    requires
        node.metadata.node_id.round > 0,
        node.metadata.digest@ == node.expected_digest(),
        0 <= i < node.parents@.len(),
        node.parents@[i].metadata.node_id.round != node.metadata.node_id.round - 1,
    ensures
        node.verify_outcome(node.expected_digest(), verifier) == Err::<(), DagError>(
            DagError::InvalidParentRound,
        ),
{
    assert(!node.parent_rounds_ok());
}

/// A later-round node with a correct digest and parents all from the previous
/// round verifies exactly when the set of its parents' authors, each counted
/// once, reaches the quorum.
pub proof fn lemma_quorum_gating(node: Node, verifier: ValidatorVerifier)
    requires
        node.metadata.node_id.round > 0,
        node.metadata.digest@ == node.expected_digest(),
        node.parent_rounds_ok(),
    ensures
        node.distinct_parent_authors().no_duplicates(),
        node.distinct_parent_authors().to_set() == node.parent_authors().to_set(),
        verifier.quorum_of(node.distinct_parent_authors()) ==> node.verify_outcome(node.expected_digest(), verifier) is Ok,
        !verifier.quorum_of(node.distinct_parent_authors()) ==> node.verify_outcome(node.expected_digest(), verifier)
            == Err::<(), DagError>(DagError::InsufficientParentVotingPower),
{
    lemma_distinct(node.parent_authors());
}

/// A peer that has already signed or acknowledged adds nothing when it does
/// so again: the set of counted peers, and so the quorum, stays the same.
pub proof fn lemma_repeated_peer_not_counted(verifier: ValidatorVerifier, peers: Seq<Author>, peer: Author)
    requires
        peers.contains(peer),
    ensures
        signers_after(peers, peer) == peers,
        verifier.quorum_of(signers_after(peers, peer)) == verifier.quorum_of(peers),
{
}

/// The peers counted after acknowledgments from `acks`, in order, starting from `start`.
pub open spec fn counted_after(start: Seq<Author>, acks: Seq<Author>) -> Seq<Author>
    decreases acks.len(),
{
    if acks.len() == 0 {
        start
    } else {
        signers_after(counted_after(start, acks.drop_last()), acks.last())
    }
}

/// Counting distinct peers from none counts each once, so an ack counter for
/// `n` validators completes on the `n`-th distinct peer and not before.
pub proof fn lemma_distinct_acks_counted(acks: Seq<Author>)
    requires
        acks.no_duplicates(),
    ensures
        counted_after(seq![], acks) =~= acks,
        counted_after(seq![], acks).len() == acks.len(),
    decreases acks.len(),
{
    if acks.len() > 0 {
        let prefix = acks.drop_last();
        assert(prefix.no_duplicates());
        lemma_distinct_acks_counted(prefix);
        assert(!prefix.contains(acks.last()));
        assert(acks =~= prefix.push(acks.last()));
    }
}

/// A certified node whose digest matches its fields and whose aggregate is
/// well formed and cryptographically valid passes verification.
pub proof fn lemma_certified_node_verifies(cn: CertifiedNode, verifier: ValidatorVerifier)
    requires
        cn.node.metadata.digest@ == cn.node.expected_digest(),
        aggregate_well_formed(cn.signatures, verifier),
    ensures
        cn.verify_outcome(cn.node.expected_digest(), verifier, true) is Ok,
        cn.verify_outcome(cn.node.expected_digest(), verifier, false) == Err::<(), DagError>(
            DagError::SignatureInvalid,
        ),
{
}

/// Changing a node's epoch, round, author, timestamp or payload changes the
/// bytes that its digest is computed over.
pub proof fn lemma_digest_input_field_sensitive(
    e1: u64, r1: u64, a1: Author, t1: u64, p1: Seq<u8>,
    e2: u64, r2: u64, a2: Author, t2: u64, p2: Seq<u8>,
    parents: Seq<NodeCertificate>,
)
    requires
        p1.len() <= u64::MAX,
        p2.len() <= u64::MAX,
        e1 != e2 || r1 != r2 || a1 != a2 || t1 != t2 || p1 != p2,
    ensures
        node_encoding(e1, r1, a1, t1, p1, parents) != node_encoding(e2, r2, a2, t2, p2, parents),
{
    let x = node_encoding(e1, r1, a1, t1, p1, parents);
    let y = node_encoding(e2, r2, a2, t2, p2, parents);
    lemma_le_bytes_len(e1 as nat, 8);
    lemma_le_bytes_len(r1 as nat, 8);
    lemma_le_bytes_len(a1 as nat, 8);
    lemma_le_bytes_len(t1 as nat, 8);
    lemma_le_bytes_len(p1.len(), 8);
    lemma_le_bytes_len(e2 as nat, 8);
    lemma_le_bytes_len(r2 as nat, 8);
    lemma_le_bytes_len(a2 as nat, 8);
    lemma_le_bytes_len(t2 as nat, 8);
    lemma_le_bytes_len(p2.len(), 8);
    if x == y {
        assert(x.subrange(0, 8) =~= u64_bytes(e1));
        assert(y.subrange(0, 8) =~= u64_bytes(e2));
        assert(x.subrange(8, 16) =~= u64_bytes(r1));
        assert(y.subrange(8, 16) =~= u64_bytes(r2));
        assert(x.subrange(16, 24) =~= u64_bytes(a1));
        assert(y.subrange(16, 24) =~= u64_bytes(a2));
        assert(x.subrange(24, 32) =~= u64_bytes(t1));
        assert(y.subrange(24, 32) =~= u64_bytes(t2));
        assert(x.subrange(32, 40) =~= u64_bytes(p1.len() as u64));
        assert(y.subrange(32, 40) =~= u64_bytes(p2.len() as u64));
        if e1 != e2 {
            lemma_u64_bytes_injective(e1, e2);
        } else if r1 != r2 {
            lemma_u64_bytes_injective(r1, r2);
        } else if a1 != a2 {
            lemma_u64_bytes_injective(a1, a2);
        } else if t1 != t2 {
            lemma_u64_bytes_injective(t1, t2);
        } else if p1.len() != p2.len() {
            lemma_u64_bytes_injective(p1.len() as u64, p2.len() as u64);
        } else {
            assert(x.subrange(40, 40 + p1.len() as int) =~= p1);
            assert(y.subrange(40, 40 + p2.len() as int) =~= p2);
        }
    }
}

} // verus!

use crate::crypto::Signature;
use crate::node::{
    aggregate_well_formed,
    same_aggregate, same_metadata, signature_views, AggregateSignature, copy_signatures, DagError,
    NodeCertificate, NodeDigestSignature, NodeMetadata,
};
use crate::validator::{position_of, Author, ValidatorVerifier};
use vstd::prelude::*;

verus! {

/// The signers after `peer` signs: unchanged if it had signed already.
pub open spec fn signers_after(signers: Seq<Author>, peer: Author) -> Seq<Author> {
    if signers.contains(peer) {
        signers
    } else {
        signers.push(peer)
    }
}

/// Collects the validators' signatures over one node's digest until their
/// voting power reaches the quorum.
pub struct SignatureBuilder {
    pub metadata: NodeMetadata,
    pub signers: Vec<Author>,
    pub signatures: Vec<Signature>,
    pub verifier: ValidatorVerifier,
}

impl SignatureBuilder {
    /// Signers are distinct and `signatures[i]` belongs to `signers[i]`.
    pub open spec fn wf(&self) -> bool {
        self.signers@.no_duplicates() && self.signers@.len() == self.signatures@.len()
    }

    pub fn new(metadata: NodeMetadata, verifier: ValidatorVerifier) -> (r: SignatureBuilder)
        ensures
            r.wf(),
            same_metadata(r.metadata, metadata),
            r.signers@.len() == 0,
            r.verifier.validators@ == verifier.validators@,
            r.verifier.quorum_voting_power == verifier.quorum_voting_power,
    {
        SignatureBuilder { metadata, signers: Vec::new(), signatures: Vec::new(), verifier }
    }

    /// Records `peer`'s signature over the tracked digest (replacing an earlier
    /// one from the same peer) and returns the certificate once the signers
    /// reach the quorum. An acknowledgment for another digest is rejected and
    /// leaves the builder unchanged.
    pub fn add(&mut self, peer: Author, ack: NodeDigestSignature) -> (r: Result<Option<NodeCertificate>, DagError>)
        requires
            old(self).wf(),
        ensures
            final(self).wf(),
            same_metadata(final(self).metadata, old(self).metadata),
            final(self).verifier == old(self).verifier,
            ack.digest@ != old(self).metadata.digest@ ==> {
                &&& r == Err::<Option<NodeCertificate>, DagError>(DagError::AccumulatorDigestMismatch)
                &&& final(self).signers@ == old(self).signers@
                &&& signature_views(final(self).signatures@) == signature_views(old(self).signatures@)
            },
            ack.digest@ == old(self).metadata.digest@ ==> {
                &&& final(self).signers@ == signers_after(old(self).signers@, peer)
                &&& (exists|k: int|
                    0 <= k < final(self).signers@.len() && final(self).signers@[k] == peer
                        && (#[trigger] final(self).signatures@[k])@ == ack.signature@)
                &&& forall|k: int|
                    0 <= k < old(self).signers@.len() && old(self).signers@[k] != peer
                        ==> (#[trigger] final(self).signatures@[k])@ == old(self).signatures@[k]@
                &&& r is Ok
                &&& (r->Ok_0 is Some <==> final(self).verifier.quorum_of(final(self).signers@))
                &&& r->Ok_0 matches Some(c) ==> same_metadata(c.metadata, old(self).metadata)
                    && c.signatures.signers@ == final(self).signers@
                    && signature_views(c.signatures.signatures@) == signature_views(final(self).signatures@)
                    && aggregate_well_formed(c.signatures, final(self).verifier)
            },
    {
        if !self.metadata.digest.same_as(&ack.digest) {
            return Err(DagError::AccumulatorDigestMismatch);
        }
        match position_of(&self.signers, peer) {
            Some(i) => {
                self.signatures.set(i, ack.signature);
                assert(self.signatures@[i as int]@ == ack.signature@);
            },
            None => {
                self.signers.push(peer);
                self.signatures.push(ack.signature);
                let ghost k = self.signers@.len() - 1;
                assert(self.signers@[k] == peer);
                assert(self.signatures@[k]@ == ack.signature@);
                assert(self.signers@.no_duplicates()) by {
                    assert(forall|j: int| 0 <= j < self.signers@.len() - 1 ==> self.signers@[j] == old(self).signers@[j]);
                }
            },
        }
        if self.verifier.check_voting_power(&self.signers) {
            let signers = self.signers.clone();
            assert(signers@ =~= self.signers@);
            let aggregated = AggregateSignature::new(signers, copy_signatures(&self.signatures));
            assert(signature_views(aggregated.signatures@).len() == signature_views(self.signatures@).len());
            Ok(Some(NodeCertificate::new(self.metadata.duplicate(), aggregated)))
        } else {
            Ok(None)
        }
    }
}

/// Acknowledges that a certified node was received and verified.
#[derive(Clone, Copy, PartialEq, Eq, Structural, Debug)]
pub struct CertifiedAck {
    pub epoch: u64,
}

impl CertifiedAck {
    pub fn new(epoch: u64) -> (r: CertifiedAck)
        ensures
            r.epoch == epoch,
    {
        CertifiedAck { epoch }
    }
}

/// Counts the distinct validators that acknowledged a certified node, until
/// every validator has.
pub struct CertificateAckState {
    pub num_validators: usize,
    pub received: Vec<Author>,
}

impl CertificateAckState {
    /// Each peer is recorded once.
    pub open spec fn wf(&self) -> bool {
        self.received@.no_duplicates()
    }

    pub fn new(num_validators: usize) -> (r: CertificateAckState)
        ensures
            r.wf(),
            r.num_validators == num_validators,
            r.received@.len() == 0,
    {
        CertificateAckState { num_validators, received: Vec::new() }
    }

    /// Records `peer`; completes when the number of distinct peers equals the
    /// number of validators.
    pub fn add(&mut self, peer: Author, ack: CertifiedAck) -> (r: Result<Option<()>, DagError>)
        requires
            old(self).wf(),
        ensures
            final(self).wf(),
            final(self).num_validators == old(self).num_validators,
            final(self).received@ == signers_after(old(self).received@, peer),
            r == Ok::<Option<()>, DagError>(
                if final(self).received@.len() == final(self).num_validators {
                    Some(())
                } else {
                    None
                },
            ),
    {
        if position_of(&self.received, peer).is_none() {
            self.received.push(peer);
            assert(self.received@.no_duplicates()) by {
                assert(forall|j: int| 0 <= j < self.received@.len() - 1 ==> self.received@[j] == old(self).received@[j]);
            }
        }
        if self.received.len() == self.num_validators {
            Ok(Some(()))
        } else {
            Ok(None)
        }
    }
}

} // verus!

use crate::crypto::{
    HASH_LENGTH,
    length_prefixed, push_bytes, push_u64, sha3_256, sha3_256_of, u64_bytes, HashValue, Signature,
};
use crate::validator::{distinct, distinct_authors, Author, ValidatorVerifier};
use vstd::prelude::*;

verus! {

pub type Round = u64;

/// Why a message, node or acknowledgment was rejected.
#[derive(Clone, Copy, PartialEq, Eq, Structural, Debug)]
pub enum DagError {
    DigestMismatch,
    InvalidGenesisParents,
    InvalidParentRound,
    InsufficientParentVotingPower,
    SignatureInvalid,
    AccumulatorDigestMismatch,
    UnsupportedField,
    DeserializationFailure,
    UnimplementedVerification,
}

/// Natural key of a node.
#[derive(Clone, Copy, PartialEq, Eq, Structural, Debug, Hash)]
pub struct NodeId {
    pub epoch: u64,
    pub round: Round,
    pub author: Author,
}

impl NodeId {
    pub fn new(epoch: u64, round: Round, author: Author) -> (r: NodeId)
        ensures
            r == (NodeId { epoch, round, author }),
    {
        NodeId { epoch, round, author }
    }

    pub fn epoch(&self) -> (r: u64)
        ensures
            r == self.epoch,
    {
        self.epoch
    }

    pub fn round(&self) -> (r: Round)
        ensures
            r == self.round,
    {
        self.round
    }

    pub fn author(&self) -> (r: Author)
        ensures
            r == self.author,
    {
        self.author
    }
}

/// A node's identity, timestamp and digest, without payload or parents.
pub struct NodeMetadata {
    pub node_id: NodeId,
    pub timestamp: u64,
    pub digest: HashValue,
}

/// Two metadata values describe the same node.
pub open spec fn same_metadata(a: NodeMetadata, b: NodeMetadata) -> bool {
    a.node_id == b.node_id && a.timestamp == b.timestamp && a.digest@ == b.digest@
}

impl NodeMetadata {
    pub fn new_for_test(epoch: u64, round: Round, author: Author, timestamp: u64, digest: HashValue) -> (r: NodeMetadata)
        ensures
            r.node_id == (NodeId { epoch, round, author }),
            r.timestamp == timestamp,
            r.digest@ == digest@,
    {
        NodeMetadata { node_id: NodeId { epoch, round, author }, timestamp, digest }
    }

    pub fn digest(&self) -> (r: &HashValue)
        ensures
            r@ == self.digest@,
    {
        &self.digest
    }

    pub fn round(&self) -> (r: Round)
        ensures
            r == self.node_id.round,
    {
        self.node_id.round
    }

    pub fn author(&self) -> (r: Author)
        ensures
            r == self.node_id.author,
    {
        self.node_id.author
    }

    pub fn epoch(&self) -> (r: u64)
        ensures
            r == self.node_id.epoch,
    {
        self.node_id.epoch
    }

    pub fn timestamp(&self) -> (r: u64)
        ensures
            r == self.timestamp,
    {
        self.timestamp
    }

    /// The identity key that this metadata extends.
    pub fn node_id(&self) -> (r: NodeId)
        ensures
            r == self.node_id,
    {
        self.node_id
    }

    pub fn duplicate(&self) -> (r: NodeMetadata)
        ensures
            same_metadata(r, *self),
    {
        NodeMetadata { node_id: self.node_id, timestamp: self.timestamp, digest: self.digest.duplicate() }
    }
}

/// The byte views of a sequence of signatures.
pub open spec fn signature_views(s: Seq<Signature>) -> Seq<Seq<u8>> {
    s.map_values(|x: Signature| x@)
}

pub fn copy_signatures(s: &Vec<Signature>) -> (r: Vec<Signature>)
    ensures
        signature_views(r@) == signature_views(s@),
{
    let mut r: Vec<Signature> = Vec::new();
    let mut i: usize = 0;
    while i < s.len()
        invariant
            i <= s@.len(),
            r@.len() == i,
            forall|j: int| 0 <= j < i ==> (#[trigger] r@[j])@ == s@[j]@,
        decreases s@.len() - i,
    {
        r.push(s[i].duplicate());
        i += 1;
    }
    assert(signature_views(r@) =~= signature_views(s@));
    r
}

/// Signatures of a set of validators over one digest: `signatures[i]` is the
/// signature of `signers[i]`.
pub struct AggregateSignature {
    pub signers: Vec<Author>,
    pub signatures: Vec<Signature>,
}

/// Two aggregates hold the same signers and signatures.
pub open spec fn same_aggregate(a: AggregateSignature, b: AggregateSignature) -> bool {
    a.signers@ == b.signers@ && signature_views(a.signatures@) == signature_views(b.signatures@)
}

impl AggregateSignature {
    pub fn new(signers: Vec<Author>, signatures: Vec<Signature>) -> (r: AggregateSignature)
        ensures
            r.signers@ == signers@,
            signature_views(r.signatures@) == signature_views(signatures@),
    {
        AggregateSignature { signers, signatures }
    }

    pub fn empty() -> (r: AggregateSignature)
        ensures
            r.signers@.len() == 0,
            r.signatures@.len() == 0,
    {
        AggregateSignature { signers: Vec::new(), signatures: Vec::new() }
    }

    pub fn duplicate(&self) -> (r: AggregateSignature)
        ensures
            same_aggregate(r, *self),
    {
        let signers = self.signers.clone();
        assert(signers@ =~= self.signers@);
        AggregateSignature { signers, signatures: copy_signatures(&self.signatures) }
    }
}

/// A certified predecessor: its metadata and the quorum's signatures over its digest.
pub struct NodeCertificate {
    pub metadata: NodeMetadata,
    pub signatures: AggregateSignature,
}

impl NodeCertificate {
    pub fn new(metadata: NodeMetadata, signatures: AggregateSignature) -> (r: NodeCertificate)
        ensures
            same_metadata(r.metadata, metadata),
            same_aggregate(r.signatures, signatures),
    {
        NodeCertificate { metadata, signatures }
    }

    pub fn metadata(&self) -> (r: &NodeMetadata)
        ensures
            same_metadata(*r, self.metadata),
    {
        &self.metadata
    }

    /// The validators whose signatures the certificate carries.
    pub fn signers(&self) -> (r: Vec<Author>)
        ensures
            r@ == self.signatures.signers@,
    {
        self.signatures.duplicate().signers
    }

    pub fn signatures(&self) -> (r: &AggregateSignature)
        ensures
            same_aggregate(*r, self.signatures),
    {
        &self.signatures
    }
}

/// Canonical encoding of a node's metadata.
pub open spec fn metadata_encoding(m: NodeMetadata) -> Seq<u8> {
    u64_bytes(m.node_id.epoch) + u64_bytes(m.node_id.round) + u64_bytes(m.node_id.author)
        + u64_bytes(m.timestamp) + length_prefixed(m.digest@)
}

/// Canonical encoding of a list of authors, each as a `u64`.
pub open spec fn authors_encoding(s: Seq<Author>) -> Seq<u8>
    decreases s.len(),
{
    if s.len() == 0 {
        seq![]
    } else {
        authors_encoding(s.drop_last()) + u64_bytes(s.last())
    }
}

/// Canonical encoding of a list of signatures, each length-prefixed.
pub open spec fn signatures_encoding(s: Seq<Seq<u8>>) -> Seq<u8>
    decreases s.len(),
{
    if s.len() == 0 {
        seq![]
    } else {
        signatures_encoding(s.drop_last()) + length_prefixed(s.last())
    }
}

/// Canonical encoding of an aggregate: the signers, then the signatures,
/// each list preceded by its length.
pub open spec fn aggregate_encoding(a: AggregateSignature) -> Seq<u8> {
    u64_bytes(a.signers@.len() as u64) + authors_encoding(a.signers@) + u64_bytes(
        a.signatures@.len() as u64,
    ) + signatures_encoding(signature_views(a.signatures@))
}

/// Canonical encoding of a certificate: its metadata, then its signatures.
pub open spec fn certificate_encoding(c: NodeCertificate) -> Seq<u8> {
    metadata_encoding(c.metadata) + aggregate_encoding(c.signatures)
}

/// Canonical encoding of a parent list, in order, each parent a full certificate.
pub open spec fn parents_encoding(ps: Seq<NodeCertificate>) -> Seq<u8>
    decreases ps.len(),
{
    if ps.len() == 0 {
        seq![]
    } else {
        parents_encoding(ps.drop_last()) + certificate_encoding(ps.last())
    }
}

/// Canonical encoding of every field of a node but its digest.
pub open spec fn node_encoding(
    epoch: u64,
    round: Round,
    author: Author,
    timestamp: u64,
    payload: Seq<u8>,
    parents: Seq<NodeCertificate>,
) -> Seq<u8> {
    u64_bytes(epoch) + u64_bytes(round) + u64_bytes(author) + u64_bytes(timestamp)
        + length_prefixed(payload) + u64_bytes(parents.len() as u64) + parents_encoding(parents)
}

/// The digest of a node with these fields.
pub open spec fn node_digest(
    epoch: u64,
    round: Round,
    author: Author,
    timestamp: u64,
    payload: Seq<u8>,
    parents: Seq<NodeCertificate>,
) -> Seq<u8> {
    sha3_256_of(node_encoding(epoch, round, author, timestamp, payload, parents))
}

fn push_aggregate(out: &mut Vec<u8>, a: &AggregateSignature)
    ensures
        final(out)@ == old(out)@ + aggregate_encoding(*a),
{
    push_u64(out, a.signers.len() as u64);
    let ghost head = out@;
    let mut i: usize = 0;
    while i < a.signers.len()
        invariant
            i <= a.signers@.len(),
            out@ == head + authors_encoding(a.signers@.subrange(0, i as int)),
        decreases a.signers@.len() - i,
    {
        push_u64(out, a.signers[i]);
        i += 1;
        assert(a.signers@.subrange(0, i as int).drop_last() =~= a.signers@.subrange(0, i as int - 1));
        assert(out@ =~= head + authors_encoding(a.signers@.subrange(0, i as int)));
    }
    assert(a.signers@.subrange(0, i as int) =~= a.signers@);
    push_u64(out, a.signatures.len() as u64);
    let ghost mid = out@;
    let ghost views = signature_views(a.signatures@);
    let mut j: usize = 0;
    while j < a.signatures.len()
        invariant
            j <= a.signatures@.len(),
            views == signature_views(a.signatures@),
            out@ == mid + signatures_encoding(views.subrange(0, j as int)),
        decreases a.signatures@.len() - j,
    {
        push_bytes(out, &a.signatures[j].bytes);
        j += 1;
        assert(views.subrange(0, j as int).drop_last() =~= views.subrange(0, j as int - 1));
        assert(views.subrange(0, j as int).last() == a.signatures@[j - 1]@);
        assert(out@ =~= mid + signatures_encoding(views.subrange(0, j as int)));
    }
    assert(views.subrange(0, j as int) =~= views);
    assert(final(out)@ =~= old(out)@ + aggregate_encoding(*a));
}

fn push_certificate(out: &mut Vec<u8>, c: &NodeCertificate)
    ensures
        final(out)@ == old(out)@ + certificate_encoding(*c),
{
    push_metadata(out, &c.metadata);
    push_aggregate(out, &c.signatures);
    assert(final(out)@ =~= old(out)@ + certificate_encoding(*c));
}

fn push_metadata(out: &mut Vec<u8>, m: &NodeMetadata)
    ensures
        final(out)@ == old(out)@ + metadata_encoding(*m),
{
    push_u64(out, m.node_id.epoch);
    push_u64(out, m.node_id.round);
    push_u64(out, m.node_id.author);
    push_u64(out, m.timestamp);
    push_bytes(out, &m.digest.bytes);
    assert(final(out)@ =~= old(out)@ + metadata_encoding(*m));
}

/// The bytes that a node's digest is computed over.
pub fn encode_node_fields(
    epoch: u64,
    round: Round,
    author: Author,
    timestamp: u64,
    payload: &Vec<u8>,
    parents: &Vec<NodeCertificate>,
) -> (r: Vec<u8>)
    ensures
        r@ == node_encoding(epoch, round, author, timestamp, payload@, parents@),
{
    let mut out: Vec<u8> = Vec::new();
    push_u64(&mut out, epoch);
    push_u64(&mut out, round);
    push_u64(&mut out, author);
    push_u64(&mut out, timestamp);
    push_bytes(&mut out, payload);
    push_u64(&mut out, parents.len() as u64);
    let ghost head = out@;
    let mut i: usize = 0;
    while i < parents.len()
        invariant
            i <= parents@.len(),
            out@ == head + parents_encoding(parents@.subrange(0, i as int)),
        decreases parents@.len() - i,
    {
        push_certificate(&mut out, &parents[i]);
        i += 1;
        assert(parents@.subrange(0, i as int).drop_last() =~= parents@.subrange(0, i as int - 1));
        assert(out@ =~= head + parents_encoding(parents@.subrange(0, i as int)));
    }
    assert(parents@.subrange(0, i as int) =~= parents@);
    assert(out@ =~= node_encoding(epoch, round, author, timestamp, payload@, parents@));
    out
}

/// A DAG vertex: metadata, application payload and certified parents.
pub struct Node {
    pub metadata: NodeMetadata,
    pub payload: Vec<u8>,
    pub parents: Vec<NodeCertificate>,
}

/// The digest of a node's hash input into a 32-byte hash.
pub fn calculate_digest_internal(
    epoch: u64,
    round: Round,
    author: Author,
    timestamp: u64,
    payload: &Vec<u8>,
    parents: &Vec<NodeCertificate>,
) -> (r: HashValue)
    ensures
        r@ == node_digest(epoch, round, author, timestamp, payload@, parents@),
        r@.len() == HASH_LENGTH,
{
    let bytes = encode_node_fields(epoch, round, author, timestamp, payload, parents);
    HashValue::new(sha3_256(&bytes))
}

impl Node {
    /// The digest that this node's fields call for.
    pub open spec fn expected_digest(&self) -> Seq<u8> {
        node_digest(
            self.metadata.node_id.epoch,
            self.metadata.node_id.round,
            self.metadata.node_id.author,
            self.metadata.timestamp,
            self.payload@,
            self.parents@,
        )
    }

    /// Every parent belongs to the round just before this node's.
    pub open spec fn parent_rounds_ok(&self) -> bool {
        forall|i: int|
            0 <= i < self.parents@.len() ==> (#[trigger] self.parents@[i]).metadata.node_id.round
                == self.metadata.node_id.round - 1
    }

    pub open spec fn parent_authors(&self) -> Seq<Author> {
        self.parents@.map_values(|p: NodeCertificate| p.metadata.node_id.author)
    }

    /// The set of parent authors, each once.
    pub open spec fn distinct_parent_authors(&self) -> Seq<Author> {
        distinct(self.parent_authors())
    }

    /// The outcome of verifying this node against `verifier`, given the
    /// digest recomputed from its fields.
    pub open spec fn verify_outcome(&self, computed: Seq<u8>, verifier: ValidatorVerifier) -> Result<(), DagError> {
        if self.metadata.digest@ != computed {
            Err(DagError::DigestMismatch)
        } else if self.metadata.node_id.round == 0 {
            if self.parents@.len() == 0 {
                Ok(())
            } else {
                Err(DagError::InvalidGenesisParents)
            }
        } else if !self.parent_rounds_ok() {
            Err(DagError::InvalidParentRound)
        } else if !verifier.quorum_of(self.distinct_parent_authors()) {
            Err(DagError::InsufficientParentVotingPower)
        } else {
            Ok(())
        }
    }

    pub fn new(
        epoch: u64,
        round: Round,
        author: Author,
        timestamp: u64,
        payload: Vec<u8>,
        parents: Vec<NodeCertificate>,
    ) -> (r: Node)
        ensures
            r.metadata.node_id == (NodeId { epoch, round, author }),
            r.metadata.timestamp == timestamp,
            r.payload@ == payload@,
            r.parents@ == parents@,
            r.metadata.digest@ == node_digest(epoch, round, author, timestamp, payload@, parents@),
            r.metadata.digest@.len() == HASH_LENGTH,
    {
        let digest = calculate_digest_internal(epoch, round, author, timestamp, &payload, &parents);
        Node {
            metadata: NodeMetadata { node_id: NodeId { epoch, round, author }, timestamp, digest },
            payload,
            parents,
        }
    }

    /// A node from received parts; its digest is taken as given and is
    /// checked only by `verify`.
    pub fn from_parts(metadata: NodeMetadata, payload: Vec<u8>, parents: Vec<NodeCertificate>) -> (r: Node)
        ensures
            same_metadata(r.metadata, metadata),
            r.payload@ == payload@,
            r.parents@ == parents@,
    {
        Node { metadata, payload, parents }
    }

    pub fn new_for_test(metadata: NodeMetadata, payload: Vec<u8>, parents: Vec<NodeCertificate>) -> (r: Node)
        ensures
            same_metadata(r.metadata, metadata),
            r.payload@ == payload@,
            r.parents@ == parents@,
    {
        Node { metadata, payload, parents }
    }

    /// Recomputes the digest from the node's fields.
    pub fn calculate_digest(&self) -> (r: HashValue)
        ensures
            r@ == self.expected_digest(),
            r@.len() == HASH_LENGTH,
    {
        calculate_digest_internal(
            self.metadata.node_id.epoch,
            self.metadata.node_id.round,
            self.metadata.node_id.author,
            self.metadata.timestamp,
            &self.payload,
            &self.parents,
        )
    }

    pub fn digest(&self) -> (r: HashValue)
        ensures
            r@ == self.metadata.digest@,
    {
        self.metadata.digest.duplicate()
    }

    pub fn metadata(&self) -> (r: &NodeMetadata)
        ensures
            same_metadata(*r, self.metadata),
    {
        &self.metadata
    }

    pub fn parents(&self) -> (r: &[NodeCertificate])
        ensures
            r@ == self.parents@,
    {
        self.parents.as_slice()
    }

    pub fn payload(&self) -> (r: &Vec<u8>)
        ensures
            r@ == self.payload@,
    {
        &self.payload
    }

    pub fn author(&self) -> (r: Author)
        ensures
            r == self.metadata.node_id.author,
    {
        self.metadata.node_id.author
    }

    pub fn round(&self) -> (r: Round)
        ensures
            r == self.metadata.node_id.round,
    {
        self.metadata.node_id.round
    }

    /// The authors of the parents, in order.
    pub fn parent_authors_vec(&self) -> (r: Vec<Author>)
        ensures
            r@ == self.parent_authors(),
    {
        let mut r: Vec<Author> = Vec::new();
        let mut i: usize = 0;
        while i < self.parents.len()
            invariant
                i <= self.parents@.len(),
                r@ == self.parent_authors().subrange(0, i as int),
            decreases self.parents@.len() - i,
        {
            r.push(self.parents[i].metadata.node_id.author);
            i += 1;
            assert(r@ =~= self.parent_authors().subrange(0, i as int));
        }
        assert(self.parent_authors().subrange(0, i as int) =~= self.parent_authors());
        r
    }

    /// The structural checks of node verification, given the digest
    /// recomputed from the node's fields; they stop at the first failure.
    pub fn verify_with_digest(&self, computed: &HashValue, verifier: &ValidatorVerifier) -> (r: Result<(), DagError>)
        ensures
            r == self.verify_outcome(computed@, *verifier),
    {
        if !self.metadata.digest.same_as(computed) {
            return Err(DagError::DigestMismatch);
        }
        let current_round = self.metadata.node_id.round;
        if current_round == 0 {
            if self.parents.len() == 0 {
                return Ok(());
            }
            return Err(DagError::InvalidGenesisParents);
        }
        let prev_round = current_round - 1;
        let mut i: usize = 0;
        while i < self.parents.len()
            invariant
                i <= self.parents@.len(),
                prev_round == self.metadata.node_id.round - 1,
                self.metadata.digest@ == computed@,
                forall|j: int| 0 <= j < i ==> (#[trigger] self.parents@[j]).metadata.node_id.round == prev_round,
            decreases self.parents@.len() - i,
        {
            if self.parents[i].metadata.node_id.round != prev_round {
                assert(!self.parent_rounds_ok()) by {
                    assert(self.parents@[i as int].metadata.node_id.round != prev_round);
                }
                return Err(DagError::InvalidParentRound);
            }
            i += 1;
        }
        let authors = distinct_authors(&self.parent_authors_vec());
        if !verifier.check_voting_power(&authors) {
            return Err(DagError::InsufficientParentVotingPower);
        }
        Ok(())
    }

    /// Checks the node as a receiver must before signing its digest: the
    /// digest, then the genesis or parent-round rule, then the parents' quorum.
    pub fn verify(&self, verifier: &ValidatorVerifier) -> (r: Result<(), DagError>)
        ensures
            r == self.verify_outcome(self.expected_digest(), *verifier),
    {
        let computed = self.calculate_digest();
        self.verify_with_digest(&computed, verifier)
    }
}

/// The value that validators sign for a node: its digest.
pub struct NodeDigest {
    pub digest: HashValue,
}

impl NodeDigest {
    pub fn new(digest: HashValue) -> (r: NodeDigest)
        ensures
            r.digest@ == digest@,
    {
        NodeDigest { digest }
    }

    /// The signed value's hash is the node digest itself.
    pub fn hash(&self) -> (r: HashValue)
        ensures
            r@ == self.digest@,
    {
        self.digest.duplicate()
    }
}

/// `v` holds no author twice.
pub fn has_duplicates(v: &Vec<Author>) -> (r: bool)
    ensures
        r == !v@.no_duplicates(),
{
    let mut i: usize = 0;
    while i < v.len()
        invariant
            i <= v@.len(),
            forall|a: int, b: int| 0 <= a < b < v@.len() && a < i ==> v@[a] != v@[b],
        decreases v@.len() - i,
    {
        let mut j: usize = i + 1;
        while j < v.len()
            invariant
                i < v@.len(),
                i < j <= v@.len(),
                forall|a: int, b: int| 0 <= a < b < v@.len() && a < i ==> v@[a] != v@[b],
                forall|b: int| i < b < j ==> v@[i as int] != v@[b],
            decreases v@.len() - j,
        {
            if v[i] == v[j] {
                return true;
            }
            j += 1;
        }
        i += 1;
    }
    false
}

/// An aggregate whose signers are distinct, match its signatures one for
/// one, and together satisfy the quorum of `verifier`.
pub open spec fn aggregate_well_formed(agg: AggregateSignature, verifier: ValidatorVerifier) -> bool {
    &&& agg.signers@.no_duplicates()
    &&& agg.signers@.len() == agg.signatures@.len()
    &&& verifier.quorum_of(agg.signers@)
}

/// Whether `agg` is well formed with respect to `verifier`.
pub fn check_aggregate(agg: &AggregateSignature, verifier: &ValidatorVerifier) -> (r: bool)
    ensures
        r == aggregate_well_formed(*agg, *verifier),
{
    if agg.signers.len() != agg.signatures.len() {
        return false;
    }
    if has_duplicates(&agg.signers) {
        return false;
    }
    verifier.check_voting_power(&agg.signers)
}

/// A full node together with the quorum's signatures over its digest.
pub struct CertifiedNode {
    pub node: Node,
    pub signatures: AggregateSignature,
}

impl CertifiedNode {
    pub fn new(node: Node, signatures: AggregateSignature) -> (r: CertifiedNode)
        ensures
            same_metadata(r.node.metadata, node.metadata),
            r.node.payload@ == node.payload@,
            r.node.parents@ == node.parents@,
            same_aggregate(r.signatures, signatures),
    {
        CertifiedNode { node, signatures }
    }

    pub fn signatures(&self) -> (r: &AggregateSignature)
        ensures
            same_aggregate(*r, self.signatures),
    {
        &self.signatures
    }

    /// The node that this certifies.
    pub fn node(&self) -> (r: &Node)
        ensures
            same_metadata(r.metadata, self.node.metadata),
            r.payload@ == self.node.payload@,
            r.parents@ == self.node.parents@,
    {
        &self.node
    }

    /// The certificate that references this node as a parent.
    pub fn certificate(&self) -> (r: NodeCertificate)
        ensures
            same_metadata(r.metadata, self.node.metadata),
            same_aggregate(r.signatures, self.signatures),
    {
        NodeCertificate::new(self.node.metadata.duplicate(), self.signatures.duplicate())
    }

    /// The outcome of verifying this certified node, given the digest
    /// recomputed from its fields and whether its signatures are valid
    /// signatures over that digest.
    pub open spec fn verify_outcome(
        &self,
        computed: Seq<u8>,
        verifier: ValidatorVerifier,
        signatures_valid: bool,
    ) -> Result<(), DagError> {
        if self.node.metadata.digest@ != computed {
            Err(DagError::DigestMismatch)
        } else if signatures_valid && aggregate_well_formed(self.signatures, verifier) {
            Ok(())
        } else {
            Err(DagError::SignatureInvalid)
        }
    }

    /// Checks the digest, then the certification: the signatures' validity,
    /// distinct signers and their quorum.
    pub fn verify_with_digest(
        &self,
        computed: &HashValue,
        verifier: &ValidatorVerifier,
        signatures_valid: bool,
    ) -> (r: Result<(), DagError>)
        ensures
            r == self.verify_outcome(computed@, *verifier, signatures_valid),
    {
        if !self.node.metadata.digest.same_as(computed) {
            return Err(DagError::DigestMismatch);
        }
        if signatures_valid && check_aggregate(&self.signatures, verifier) {
            Ok(())
        } else {
            Err(DagError::SignatureInvalid)
        }
    }

    /// Checks a certified node as a receiver must before acknowledging it.
    /// `signatures_valid` is the outcome of the cryptographic check of each
    /// signature over the node's digest.
    pub fn verify(&self, verifier: &ValidatorVerifier, signatures_valid: bool) -> (r: Result<(), DagError>)
        ensures
            r == self.verify_outcome(self.node.expected_digest(), *verifier, signatures_valid),
    {
        let computed = self.node.calculate_digest();
        self.verify_with_digest(&computed, verifier, signatures_valid)
    }
}

/// One validator's signature over one node's digest.
pub struct NodeDigestSignature {
    pub epoch: u64,
    pub digest: HashValue,
    pub signature: Signature,
}

impl NodeDigestSignature {
    pub fn new(epoch: u64, digest: HashValue, signature: Signature) -> (r: NodeDigestSignature)
        ensures
            r.epoch == epoch,
            r.digest@ == digest@,
            r.signature@ == signature@,
    {
        NodeDigestSignature { epoch, digest, signature }
    }

    pub fn signature(&self) -> (r: &Signature)
        ensures
            r@ == self.signature@,
    {
        &self.signature
    }
}

} // verus!

use dag_types::accumulator::{CertificateAckState, CertifiedAck, SignatureBuilder};
use dag_types::crypto::{HashValue, Signature};
use dag_types::message::{DAGMessage, FetchResponse, RemoteFetchRequest};
use dag_types::node::{
    check_aggregate, encode_node_fields, has_duplicates, AggregateSignature, CertifiedNode,
    DagError, Node, NodeCertificate, NodeDigestSignature, NodeMetadata,
};
use dag_types::validator::{ValidatorInfo, ValidatorVerifier};

const A: u64 = 10;
const B: u64 = 11;
const C: u64 = 12;
const D: u64 = 13;

fn four_validators() -> ValidatorVerifier {
    let validators = vec![
        ValidatorInfo { author: A, voting_power: 1 },
        ValidatorInfo { author: B, voting_power: 1 },
        ValidatorInfo { author: C, voting_power: 1 },
        ValidatorInfo { author: D, voting_power: 1 },
    ];
    ValidatorVerifier::new(validators, 3)
}

fn certificate(epoch: u64, round: u64, author: u64) -> NodeCertificate {
    let node = Node::new(epoch, round, author, 100 + round, vec![author as u8], vec![]);
    let signers = vec![A, B, C];
    let sigs = vec![Signature::new(vec![1]), Signature::new(vec![2]), Signature::new(vec![3])];
    NodeCertificate::new(node.metadata().duplicate(), AggregateSignature::new(signers, sigs))
}

fn digest_sig(node: &Node, byte: u8) -> NodeDigestSignature {
    NodeDigestSignature::new(1, node.digest(), Signature::new(vec![byte]))
}

#[test]
fn scenario_round_one_with_three_parents_verifies() {
    let v = four_validators();
    let parents = vec![certificate(1, 0, A), certificate(1, 0, B), certificate(1, 0, C)];
    let node = Node::new(1, 1, D, 200, vec![9, 9], parents);
    assert_eq!(node.verify(&v), Ok(()));
}

#[test]
fn scenario_round_one_with_two_parents_is_short_of_quorum() {
    let v = four_validators();
    let parents = vec![certificate(1, 0, A), certificate(1, 0, B)];
    let node = Node::new(1, 1, D, 200, vec![9, 9], parents);
    assert_eq!(node.verify(&v), Err(DagError::InsufficientParentVotingPower));
}

#[test]
fn genesis_without_parents_verifies() {
    let node = Node::new(1, 0, A, 5, vec![1, 2, 3], vec![]);
    assert_eq!(node.verify(&four_validators()), Ok(()));
}

#[test]
fn genesis_with_parents_is_rejected() {
    let node = Node::new(1, 0, A, 5, vec![], vec![certificate(1, 0, B)]);
    assert_eq!(node.verify(&four_validators()), Err(DagError::InvalidGenesisParents));
}

#[test]
fn parent_from_wrong_round_is_rejected() {
    let parents = vec![certificate(1, 1, A), certificate(1, 0, B), certificate(1, 0, C)];
    let node = Node::new(1, 2, D, 5, vec![], parents);
    assert_eq!(node.verify(&four_validators()), Err(DagError::InvalidParentRound));
}

#[test]
fn unknown_parent_author_fails_quorum() {
    let parents = vec![certificate(1, 0, A), certificate(1, 0, B), certificate(1, 0, 99)];
    let node = Node::new(1, 1, D, 5, vec![], parents);
    assert_eq!(node.verify(&four_validators()), Err(DagError::InsufficientParentVotingPower));
}

#[test]
fn tampered_digest_is_rejected() {
    let node = Node::new(1, 0, A, 5, vec![1], vec![]);
    let meta = NodeMetadata::new_for_test(1, 0, A, 5, HashValue::new(vec![0; 32]));
    let forged = Node::new_for_test(meta, vec![1], vec![]);
    assert_eq!(forged.verify(&four_validators()), Err(DagError::DigestMismatch));
    let tampered = Node::new_for_test(node.metadata().duplicate(), vec![2], vec![]);
    assert_eq!(tampered.verify(&four_validators()), Err(DagError::DigestMismatch));
}

#[test]
fn digest_is_deterministic_and_field_sensitive() {
    let p = || vec![certificate(1, 0, A), certificate(1, 0, B)];
    let base = Node::new(1, 1, C, 7, vec![4, 5], p());
    let again = Node::new(1, 1, C, 7, vec![4, 5], p());
    assert_eq!(base.digest().bytes, again.digest().bytes);
    assert_eq!(base.digest().bytes, base.calculate_digest().bytes);
    assert_eq!(base.digest().bytes.len(), 32);
    let variants = vec![
        Node::new(2, 1, C, 7, vec![4, 5], p()),
        Node::new(1, 2, C, 7, vec![4, 5], p()),
        Node::new(1, 1, D, 7, vec![4, 5], p()),
        Node::new(1, 1, C, 8, vec![4, 5], p()),
        Node::new(1, 1, C, 7, vec![4, 6], p()),
        Node::new(1, 1, C, 7, vec![4, 5], vec![certificate(1, 0, B), certificate(1, 0, A)]),
    ];
    for other in variants {
        assert_ne!(base.digest().bytes, other.digest().bytes);
    }
}

fn certificate_signed_by(author: u64, signers: Vec<u64>) -> NodeCertificate {
    let node = Node::new(1, 0, author, 100, vec![author as u8], vec![]);
    let sigs = signers.iter().map(|s| Signature::new(vec![*s as u8])).collect();
    NodeCertificate::new(node.metadata().duplicate(), AggregateSignature::new(signers, sigs))
}

#[test]
fn digest_covers_parent_signatures() {
    let one = Node::new(1, 1, C, 7, vec![], vec![certificate_signed_by(A, vec![A, B, C])]);
    let two = Node::new(1, 1, C, 7, vec![], vec![certificate_signed_by(A, vec![A, B, D])]);
    assert_ne!(one.digest().bytes, two.digest().bytes);
    let mut changed = certificate_signed_by(A, vec![A, B, C]);
    changed.signatures.signatures[0] = Signature::new(vec![0xff]);
    let three = Node::new(1, 1, C, 7, vec![], vec![changed]);
    assert_ne!(one.digest().bytes, three.digest().bytes);
}

#[test]
fn swapping_parents_with_equal_metadata_changes_digest() {
    let x = || certificate_signed_by(A, vec![A, B, C]);
    let y = || certificate_signed_by(A, vec![B, C, D]);
    let first = Node::new(1, 1, C, 7, vec![], vec![x(), y()]);
    let second = Node::new(1, 1, C, 7, vec![], vec![y(), x()]);
    assert_ne!(first.digest().bytes, second.digest().bytes);
}

#[test]
fn repeated_parent_author_counts_once() {
    let v = ValidatorVerifier::new(vec![ValidatorInfo { author: A, voting_power: 2 }], 3);
    let parents = vec![certificate(1, 0, A), certificate(1, 0, A)];
    let node = Node::new(1, 1, A, 5, vec![], parents);
    assert_eq!(node.verify(&v), Err(DagError::InsufficientParentVotingPower));
    let w = ValidatorVerifier::new(vec![ValidatorInfo { author: A, voting_power: 3 }], 3);
    assert_eq!(node.verify(&w), Ok(()));
}

#[test]
fn node_encoding_layout() {
    let bytes = encode_node_fields(1, 2, 3, 4, &vec![0xaa, 0xbb], &vec![]);
    let mut expected = vec![1, 0, 0, 0, 0, 0, 0, 0];
    expected.extend_from_slice(&[2, 0, 0, 0, 0, 0, 0, 0]);
    expected.extend_from_slice(&[3, 0, 0, 0, 0, 0, 0, 0]);
    expected.extend_from_slice(&[4, 0, 0, 0, 0, 0, 0, 0]);
    expected.extend_from_slice(&[2, 0, 0, 0, 0, 0, 0, 0, 0xaa, 0xbb]);
    expected.extend_from_slice(&[0, 0, 0, 0, 0, 0, 0, 0]);
    assert_eq!(bytes, expected);
}

#[test]
fn signature_builder_progression() {
    let v = four_validators();
    let node = Node::new(1, 0, A, 5, vec![1], vec![]);
    let mut builder = SignatureBuilder::new(node.metadata().duplicate(), v);
    assert!(matches!(builder.add(A, digest_sig(&node, 1)), Ok(None)));
    // the same peer again does not count twice
    assert!(matches!(builder.add(A, digest_sig(&node, 7)), Ok(None)));
    assert!(matches!(builder.add(B, digest_sig(&node, 2)), Ok(None)));
    // a signature over another digest is rejected and changes nothing
    let other = Node::new(1, 0, A, 6, vec![1], vec![]);
    assert!(matches!(builder.add(C, digest_sig(&other, 3)), Err(DagError::AccumulatorDigestMismatch)));
    assert_eq!(builder.signers, vec![A, B]);
    let cert = match builder.add(C, digest_sig(&node, 3)) {
        Ok(Some(c)) => c,
        _ => panic!("quorum reached"),
    };
    assert_eq!(cert.signers(), vec![A, B, C]);
    assert_eq!(cert.signatures().signatures[0].bytes, vec![7]);
    assert_eq!(cert.metadata().digest().bytes, node.digest().bytes);
    assert!(matches!(builder.add(D, digest_sig(&node, 4)), Ok(Some(_))));
}

#[test]
fn ack_counter_completes_on_last_distinct_peer() {
    let mut state = CertificateAckState::new(4);
    assert_eq!(state.add(A, CertifiedAck::new(1)), Ok(None));
    assert_eq!(state.add(B, CertifiedAck::new(1)), Ok(None));
    assert_eq!(state.add(B, CertifiedAck::new(1)), Ok(None));
    assert_eq!(state.add(C, CertifiedAck::new(1)), Ok(None));
    assert_eq!(state.add(C, CertifiedAck::new(1)), Ok(None));
    assert_eq!(state.add(D, CertifiedAck::new(1)), Ok(Some(())));
}

#[test]
fn certified_node_round_trip() {
    let v = four_validators();
    let node = Node::new(1, 0, A, 5, vec![1, 2], vec![]);
    let mut builder = SignatureBuilder::new(node.metadata().duplicate(), four_validators());
    let _ = builder.add(A, digest_sig(&node, 1));
    let _ = builder.add(B, digest_sig(&node, 2));
    let cert = match builder.add(C, digest_sig(&node, 3)) {
        Ok(Some(c)) => c,
        _ => panic!("quorum reached"),
    };
    let payload = node.payload().clone();
    let certified = CertifiedNode::new(node, cert.signatures().duplicate());
    assert_eq!(certified.verify(&v, true), Ok(()));
    assert_eq!(certified.verify(&v, false), Err(DagError::SignatureInvalid));
    assert_eq!(certified.certificate().signers(), vec![A, B, C]);
    let mut flipped = payload.clone();
    flipped[0] ^= 1;
    let tampered = CertifiedNode::new(
        Node::new_for_test(certified.node().metadata().duplicate(), flipped, vec![]),
        cert.signatures().duplicate(),
    );
    assert_eq!(tampered.verify(&v, true), Err(DagError::DigestMismatch));
}

#[test]
fn aggregate_checks() {
    let v = four_validators();
    let sigs = |n: usize| (0..n).map(|i| Signature::new(vec![i as u8])).collect::<Vec<_>>();
    assert!(check_aggregate(&AggregateSignature::new(vec![A, B, C], sigs(3)), &v));
    assert!(!check_aggregate(&AggregateSignature::new(vec![A, A, B], sigs(3)), &v));
    assert!(!check_aggregate(&AggregateSignature::new(vec![A, B], sigs(2)), &v));
    assert!(!check_aggregate(&AggregateSignature::new(vec![A, B, C], sigs(2)), &v));
    assert!(has_duplicates(&vec![1, 2, 1]));
    assert!(!has_duplicates(&vec![1, 2, 3]));
}

#[test]
fn voting_power_is_weighted() {
    let v = ValidatorVerifier::new(
        vec![ValidatorInfo { author: A, voting_power: 5 }, ValidatorInfo { author: B, voting_power: 1 }],
        4,
    );
    assert!(v.check_voting_power(&vec![A]));
    assert!(!v.check_voting_power(&vec![B]));
    assert!(!v.check_voting_power(&vec![A, 77]));
    assert_eq!(v.get_voting_power(A), Some(5));
    assert_eq!(v.get_voting_power(77), None);
}

#[test]
fn message_names_authors_and_epochs() {
    let node = Node::new(3, 0, A, 5, vec![], vec![]);
    let certified = CertifiedNode::new(Node::new(4, 0, B, 5, vec![], vec![]), AggregateSignature::empty());
    let meta = NodeMetadata::new_for_test(6, 1, C, 0, HashValue::new(vec![0; 32]));
    let msgs = vec![
        DAGMessage::NodeMsg(node),
        DAGMessage::NodeDigestSignatureMsg(NodeDigestSignature::new(2, HashValue::new(vec![]), Signature::new(vec![]))),
        DAGMessage::CertifiedNodeMsg(certified),
        DAGMessage::CertifiedAckMsg(CertifiedAck::new(5)),
        DAGMessage::FetchRequest(RemoteFetchRequest::new(meta, 0, vec![vec![true]])),
        DAGMessage::FetchResponse(FetchResponse::new(7, vec![])),
    ];
    let names: Vec<&str> = msgs.iter().map(|m| m.name()).collect();
    assert_eq!(
        names,
        vec!["NodeMsg", "NodeDigestSignatureMsg", "CertifiedNodeMsg", "CertifiedAckMsg", "FetchRequest", "FetchResponse"]
    );
    let epochs: Vec<u64> = msgs.iter().map(|m| m.epoch()).collect();
    assert_eq!(epochs, vec![3, 2, 4, 5, 6, 7]);
    assert_eq!(msgs[0].author(), Ok(A));
    assert_eq!(msgs[2].author(), Ok(B));
    for i in [1, 3, 4, 5] {
        assert_eq!(msgs[i].author(), Err(DagError::UnsupportedField));
    }
}

#[test]
fn fetch_response_verification_is_refused() {
    let meta = NodeMetadata::new_for_test(1, 3, A, 0, HashValue::new(vec![0; 32]));
    let request = RemoteFetchRequest::new(meta, 1, vec![vec![false, true]]);
    let response = FetchResponse::new(1, vec![vec![]]);
    assert!(matches!(response.verify(&request, &four_validators()), Err(DagError::UnimplementedVerification)));
}

use crate::accumulator::CertifiedAck;
use crate::node::{
    same_metadata, CertifiedNode, DagError, Node, NodeDigestSignature, NodeMetadata, Round,
};
use crate::validator::{Author, ValidatorVerifier};
use vstd::prelude::*;

verus! {

/// A request for the nodes needed to reach `target`: `exists_bitmask[i][v]`
/// tells whether the requester holds the node of validator `v` at round
/// `start_round + i`.
pub struct RemoteFetchRequest {
    pub target: NodeMetadata,
    pub start_round: Round,
    pub exists_bitmask: Vec<Vec<bool>>,
}

impl RemoteFetchRequest {
    pub fn new(target: NodeMetadata, start_round: Round, exists_bitmask: Vec<Vec<bool>>) -> (r: RemoteFetchRequest)
        ensures
            same_metadata(r.target, target),
            r.start_round == start_round,
            r.exists_bitmask@ == exists_bitmask@,
    {
        RemoteFetchRequest { target, start_round, exists_bitmask }
    }
}

/// Certified nodes sent back for a fetch request, indexed by round and
/// validator as the request's bitmask is.
pub struct FetchResponse {
    pub epoch: u64,
    pub certified_nodes: Vec<Vec<CertifiedNode>>,
}

impl FetchResponse {
    pub fn new(epoch: u64, certified_nodes: Vec<Vec<CertifiedNode>>) -> (r: FetchResponse)
        ensures
            r.epoch == epoch,
            r.certified_nodes@ == certified_nodes@,
    {
        FetchResponse { epoch, certified_nodes }
    }

    pub fn certified_nodes(self) -> (r: Vec<Vec<CertifiedNode>>)
        ensures
            r@ == self.certified_nodes@,
    {
        self.certified_nodes
    }

    /// No rule yet decides whether a response fills the request's gaps and
    /// links to its target, so every response is refused rather than trusted.
    pub fn verify(self, request: &RemoteFetchRequest, verifier: &ValidatorVerifier) -> (r: Result<FetchResponse, DagError>)
        ensures
            r matches Err(e) && e == DagError::UnimplementedVerification,
    {
        Err(DagError::UnimplementedVerification)
    }
}

/// The transport envelope: an epoch and the serialized message.
pub struct DAGNetworkMessage {
    pub epoch: u64,
    pub data: Vec<u8>,
}

impl DAGNetworkMessage {
    pub fn new(epoch: u64, data: Vec<u8>) -> (r: DAGNetworkMessage)
        ensures
            r.epoch == epoch,
            r.data@ == data@,
    {
        DAGNetworkMessage { epoch, data }
    }
}

/// Every message of the DAG protocol.
pub enum DAGMessage {
    NodeMsg(Node),
    NodeDigestSignatureMsg(NodeDigestSignature),
    CertifiedNodeMsg(CertifiedNode),
    CertifiedAckMsg(CertifiedAck),
    FetchRequest(RemoteFetchRequest),
    FetchResponse(FetchResponse),
}

impl DAGMessage {
    pub open spec fn spec_name(&self) -> Seq<char> {
        match self {
            DAGMessage::NodeMsg(_) => "NodeMsg"@,
            DAGMessage::NodeDigestSignatureMsg(_) => "NodeDigestSignatureMsg"@,
            DAGMessage::CertifiedNodeMsg(_) => "CertifiedNodeMsg"@,
            DAGMessage::CertifiedAckMsg(_) => "CertifiedAckMsg"@,
            DAGMessage::FetchRequest(_) => "FetchRequest"@,
            DAGMessage::FetchResponse(_) => "FetchResponse"@,
        }
    }

    pub open spec fn spec_epoch(&self) -> u64 {
        match self {
            DAGMessage::NodeMsg(node) => node.metadata.node_id.epoch,
            DAGMessage::NodeDigestSignatureMsg(signature) => signature.epoch,
            DAGMessage::CertifiedNodeMsg(node) => node.node.metadata.node_id.epoch,
            DAGMessage::CertifiedAckMsg(ack) => ack.epoch,
            DAGMessage::FetchRequest(req) => req.target.node_id.epoch,
            DAGMessage::FetchResponse(res) => res.epoch,
        }
    }

    /// The variant's name, for logs and metrics.
    pub fn name(&self) -> (r: &str)
        ensures
            r@ == self.spec_name(),
    {
        match self {
            DAGMessage::NodeMsg(_) => "NodeMsg",
            DAGMessage::NodeDigestSignatureMsg(_) => "NodeDigestSignatureMsg",
            DAGMessage::CertifiedNodeMsg(_) => "CertifiedNodeMsg",
            DAGMessage::CertifiedAckMsg(_) => "CertifiedAckMsg",
            DAGMessage::FetchRequest(_) => "FetchRequest",
            DAGMessage::FetchResponse(_) => "FetchResponse",
        }
    }

    /// The author of a node or certified node; other messages have none.
    pub fn author(&self) -> (r: Result<Author, DagError>)
        ensures
            self matches DAGMessage::NodeMsg(n) ==> r == Ok::<Author, DagError>(n.metadata.node_id.author),
            self matches DAGMessage::CertifiedNodeMsg(n) ==> r == Ok::<Author, DagError>(
                n.node.metadata.node_id.author,
            ),
            !(self is NodeMsg || self is CertifiedNodeMsg) ==> r == Err::<Author, DagError>(
                DagError::UnsupportedField,
            ),
    {
        match self {
            DAGMessage::NodeMsg(node) => Ok(node.metadata.node_id.author),
            DAGMessage::CertifiedNodeMsg(node) => Ok(node.node.metadata.node_id.author),
            _ => Err(DagError::UnsupportedField),
        }
    }

    /// The epoch that the message belongs to.
    pub fn epoch(&self) -> (r: u64)
        ensures
            r == self.spec_epoch(),
    {
        match self {
            DAGMessage::NodeMsg(node) => node.metadata.node_id.epoch,
            DAGMessage::NodeDigestSignatureMsg(signature) => signature.epoch,
            DAGMessage::CertifiedNodeMsg(node) => node.node.metadata.node_id.epoch,
            DAGMessage::CertifiedAckMsg(ack) => ack.epoch,
            DAGMessage::FetchRequest(req) => req.target.node_id.epoch,
            DAGMessage::FetchResponse(res) => res.epoch,
        }
    }
}

} // verus!

use vstd::prelude::*;
use crate::metadata::{Metadata, MsgKind, MetadataError, resolve_kind, resolve_codec, resolve_compression, X_RPC_MSG_TYPE};

verus! {

/// Correlation id reserved for ping and pong frames.
pub const PING_SEQ_ID: i64 = -1;

/// Status code of a successful response.
pub const STATUS_OK: u32 = 0;

/// Status code of a response that reports a protocol violation.
pub const STATUS_PROTOCOL_ERROR: u32 = 1;

/// A frame sent by a client.
#[derive(Debug)]
pub struct RpcRequest {
    pub service_path: String,
    pub metadata: Metadata,
    pub payload: Vec<u8>,
    pub seq_id: i64,
}

/// A frame sent back to a client.
#[derive(Debug)]
pub struct RpcResponse {
    pub code: u32,
    pub message: String,
    pub metadata: Metadata,
    pub payload: Vec<u8>,
    pub seq_id: i64,
}

/// The response to `req` built from what its handler returned: it carries the
/// request's correlation id and metadata, with the message kind set to response.
pub fn respond(req: &RpcRequest, code: u32, message: String, payload: Vec<u8>) -> (r: RpcResponse)
    ensures
        r.seq_id == req.seq_id,
        r.code == code,
        r.message@ == message@,
        r.payload@ == payload@,
        resolve_kind(r.metadata) == Ok::<MsgKind, MetadataError>(MsgKind::Response),
        resolve_codec(r.metadata) == resolve_codec(req.metadata),
        resolve_compression(r.metadata) == resolve_compression(req.metadata),
        forall|k: Seq<char>|
            k != X_RPC_MSG_TYPE@ ==> #[trigger] r.metadata.get_spec(k) == req.metadata.get_spec(k),
{
    proof {
        crate::metadata::lemma_names_distinct();
    }
    let mut metadata = req.metadata.snapshot();
    metadata.stamp_kind(MsgKind::Response);
    RpcResponse { code, message, metadata, payload, seq_id: req.seq_id }
}

/// The pong that answers a ping.
pub fn pong() -> (r: RpcResponse)
    ensures
        r.seq_id == PING_SEQ_ID,
        r.code == STATUS_OK,
        r.payload@.len() == 0,
        resolve_kind(r.metadata) == Ok::<MsgKind, MetadataError>(MsgKind::Pong),
{
    let mut metadata = Metadata::new();
    metadata.stamp_kind(MsgKind::Pong);
    RpcResponse { code: STATUS_OK, message: String::new(), metadata, payload: Vec::new(), seq_id: PING_SEQ_ID }
}

/// The error-kind frame that reports a protocol violation in the frame with id `seq_id`.
pub fn error_frame(seq_id: i64) -> (r: RpcResponse)
    ensures
        r.seq_id == seq_id,
        r.code == STATUS_PROTOCOL_ERROR,
        r.payload@.len() == 0,
        resolve_kind(r.metadata) == Ok::<MsgKind, MetadataError>(MsgKind::Error),
{
    let mut metadata = Metadata::new();
    metadata.stamp_kind(MsgKind::Error);
    RpcResponse { code: STATUS_PROTOCOL_ERROR, message: String::new(), metadata, payload: Vec::new(), seq_id }
}

} // verus!

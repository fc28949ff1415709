use vstd::prelude::*;
use crate::frame::{RpcRequest, RpcResponse, respond, pong, error_frame, PING_SEQ_ID, STATUS_PROTOCOL_ERROR};
use crate::metadata::{
    codec, compression, msg_kind, resolve_codec, resolve_compression, resolve_kind, Codec, Metadata,
    MetadataError, MsgKind, DEFAULT_CODEC, X_RPC_CODEC_TYPE,
};
use crate::shutdown::Shutdown;

verus! {

/// A violation of the frame protocol; it ends only the connection it occurred on.
#[derive(Debug, Clone, Copy, PartialEq, Eq, Structural)]
pub enum ProtocolError {
    Metadata(MetadataError),
    DuplicateSeqId,
    ReservedSeqId,
    Truncated,
}

#[derive(Debug, Clone, Copy, PartialEq, Eq, Structural)]
pub enum SessionState {
    /// Serving requests.
    Running,
    /// Shutdown seen: finishing accepted requests, admitting none.
    Draining,
    /// Ended normally.
    Closed,
    /// Ended by a protocol violation.
    Failed(ProtocolError),
}

/// What the connection task is to do next.
#[derive(Debug)]
pub enum Action {
    /// Hand the request to the dispatch table.
    Dispatch(RpcRequest),
    /// Write the frame and keep going.
    Write(RpcResponse),
    /// Write the frame, then end the session.
    WriteThenExit(RpcResponse),
    /// Nothing to write; wait for the next event.
    Wait,
    /// End the session.
    Exit,
}

/// The decisions of one connection: which frames are admitted, which requests
/// are in flight, and when the connection is done.
#[derive(Debug)]
pub struct Session {
    pending: Vec<i64>,
    shutdown: Shutdown,
    state: SessionState,
    codec: Codec,
}

pub open spec fn is_terminal(s: SessionState) -> bool {
    s is Closed || s is Failed
}

/// `a` writes a frame of kind `kind` with id `seq_id` and status `code`,
/// and ends the session exactly when `exit` holds.
pub open spec fn writes(a: Action, kind: MsgKind, seq_id: i64, code: u32, exit: bool) -> bool {
    match a {
        Action::Write(f) => !exit && f.seq_id == seq_id && f.code == code && resolve_kind(f.metadata)
            == Ok::<MsgKind, MetadataError>(kind),
        Action::WriteThenExit(f) => exit && f.seq_id == seq_id && f.code == code && resolve_kind(
            f.metadata,
        ) == Ok::<MsgKind, MetadataError>(kind),
        _ => false,
    }
}

/// The first problem with a frame's reserved metadata, if any: its message
/// kind, then its codec, then its compression.
pub open spec fn frame_error(md: Metadata) -> Option<MetadataError> {
    match resolve_kind(md) {
        Err(e) => Some(e),
        Ok(_) => match resolve_codec(md) {
            Err(e) => Some(e),
            Ok(_) => match resolve_compression(md) {
                Err(e) => Some(e),
                Ok(_) => None,
            },
        },
    }
}

/// The codec a connection uses after a frame: the one the frame names, if it
/// is well formed and names one; else the one used before.
pub open spec fn codec_after(before: Codec, st: SessionState, md: Metadata) -> Codec {
    if !is_terminal(st) && frame_error(md).is_none() && md.get_spec(X_RPC_CODEC_TYPE@).is_some() {
        match resolve_codec(md) {
            Ok(c) => c,
            Err(_) => before,
        }
    } else {
        before
    }
}

/// What a session does with a frame, given its state before: the action's
/// shape, the state after, and whether the frame's id joins the pending set.
pub open spec fn frame_outcome(st: SessionState, pending: Seq<i64>, frame: RpcRequest) -> (
    Option<MsgKind>,
    SessionState,
    bool,
) {
    if is_terminal(st) {
        (None, st, false)
    } else if frame_error(frame.metadata).is_some() {
        (
            Some(MsgKind::Error),
            SessionState::Failed(ProtocolError::Metadata(frame_error(frame.metadata).unwrap())),
            false,
        )
    } else {
        match resolve_kind(frame.metadata) {
            Err(_) => (None, st, false),
            Ok(MsgKind::Ping) => (Some(MsgKind::Pong), st, false),
            Ok(MsgKind::Request) => {
                if st is Draining {
                    (None, st, false)
                } else if frame.seq_id == PING_SEQ_ID {
                    (Some(MsgKind::Error), SessionState::Failed(ProtocolError::ReservedSeqId), false)
                } else if pending.contains(frame.seq_id) {
                    (Some(MsgKind::Error), SessionState::Failed(ProtocolError::DuplicateSeqId), false)
                } else {
                    (None, st, true)
                }
            },
            Ok(_) => (None, st, false),
        }
    }
}

impl Session {
    /// Correlation ids of the requests that are dispatched and not yet answered.
    pub closed spec fn pending(&self) -> Seq<i64> {
        self.pending@
    }

    pub closed spec fn state_spec(&self) -> SessionState {
        self.state
    }

    pub closed spec fn signaled(&self) -> bool {
        self.shutdown.signaled()
    }

    /// The codec the connection's frames currently use.
    pub closed spec fn codec_spec(&self) -> Codec {
        self.codec
    }

    pub open spec fn wf(&self) -> bool {
        &&& self.pending().no_duplicates()
        &&& !self.pending().contains(PING_SEQ_ID)
        &&& (self.state_spec() is Running ==> !self.signaled())
        &&& (self.state_spec() is Draining ==> self.signaled() && self.pending().len() > 0)
        &&& (is_terminal(self.state_spec()) ==> self.pending().len() == 0)
    }

    /// A session for a new connection; `shutdown` is its own watch on the signal.
    pub fn new(shutdown: Shutdown) -> (r: Session)
        ensures
            r.wf(),
            r.pending().len() == 0,
            r.signaled() == shutdown.signaled(),
            r.codec_spec() == DEFAULT_CODEC,
            r.state_spec() == (if shutdown.signaled() {
                SessionState::Closed
            } else {
                SessionState::Running
            }),
    {
        let state = if shutdown.is_shutdown() {
            SessionState::Closed
        } else {
            SessionState::Running
        };
        Session { pending: Vec::new(), shutdown, state, codec: DEFAULT_CODEC }
    }

    pub fn state(&self) -> (r: SessionState)
        ensures
            r == self.state_spec(),
    {
        self.state
    }

    pub fn is_shutdown(&self) -> (r: bool)
        ensures
            r == self.signaled(),
    {
        self.shutdown.is_shutdown()
    }

    /// Whether the session has ended.
    pub fn is_done(&self) -> (r: bool)
        ensures
            r == is_terminal(self.state_spec()),
    {
        match self.state {
            SessionState::Closed | SessionState::Failed(_) => true,
            _ => false,
        }
    }

    pub fn codec(&self) -> (r: Codec)
        ensures
            r == self.codec_spec(),
    {
        self.codec
    }

    pub fn in_flight(&self) -> (r: usize)
        ensures
            r == self.pending().len(),
    {
        self.pending.len()
    }

    fn find_pending(&self, seq_id: i64) -> (r: Option<usize>)
        ensures
            match r {
                Some(i) => i < self.pending().len() && self.pending()[i as int] == seq_id,
                None => !self.pending().contains(seq_id),
            },
    {
        let mut i: usize = 0;
        while i < self.pending.len()
            invariant
                i <= self.pending@.len(),
                forall|j: int| 0 <= j < i ==> self.pending@[j] != seq_id,
            decreases self.pending@.len() - i,
        {
            if self.pending[i] == seq_id {
                return Some(i);
            }
            i = i + 1;
        }
        None
    }

    fn end(&mut self, state: SessionState)
        requires
            is_terminal(state),
            old(self).wf(),
        ensures
            final(self).wf(),
            final(self).state_spec() == state,
            final(self).pending().len() == 0,
            final(self).signaled() == old(self).signaled(),
            final(self).codec_spec() == old(self).codec_spec(),
    {
        self.pending = Vec::new();
        self.state = state;
    }

    /// Handles one frame read from the connection.
    pub fn on_frame(&mut self, frame: RpcRequest) -> (r: Action)
        requires
            old(self).wf(),
        ensures
            final(self).wf(),
            final(self).signaled() == old(self).signaled(),
            final(self).codec_spec() == codec_after(old(self).codec_spec(), old(self).state_spec(), frame.metadata),
            ({
                let (reply, st, admitted) = frame_outcome(old(self).state_spec(), old(self).pending(), frame);
                &&& final(self).state_spec() == st
                &&& admitted ==> r == Action::Dispatch(frame) && final(self).pending() == old(
                    self,
                ).pending().push(frame.seq_id)
                &&& !admitted && !is_terminal(st) ==> final(self).pending() == old(self).pending()
                &&& match reply {
                    Some(MsgKind::Pong) => writes(r, MsgKind::Pong, PING_SEQ_ID, 0, false),
                    Some(_) => writes(r, MsgKind::Error, frame.seq_id, STATUS_PROTOCOL_ERROR, true),
                    None => !admitted ==> (if is_terminal(st) {
                        r is Exit
                    } else {
                        r is Wait
                    }),
                }
            }),
    {
        if self.is_done() {
            return Action::Exit;
        }
        let kind = match msg_kind(&frame.metadata) {
            Err(e) => {
                self.end(SessionState::Failed(ProtocolError::Metadata(e)));
                return Action::WriteThenExit(error_frame(frame.seq_id));
            },
            Ok(k) => k,
        };
        let named = match codec(&frame.metadata) {
            Err(e) => {
                self.end(SessionState::Failed(ProtocolError::Metadata(e)));
                return Action::WriteThenExit(error_frame(frame.seq_id));
            },
            Ok(c) => c,
        };
        if let Err(e) = compression(&frame.metadata) {
            self.end(SessionState::Failed(ProtocolError::Metadata(e)));
            return Action::WriteThenExit(error_frame(frame.seq_id));
        }
        if frame.metadata.get(&X_RPC_CODEC_TYPE.to_owned()).is_some() {
            self.codec = named;
        }
        match kind {
            MsgKind::Ping => Action::Write(pong()),
            MsgKind::Request => {
                if self.state == SessionState::Draining {
                    Action::Wait
                } else if frame.seq_id == PING_SEQ_ID {
                    self.end(SessionState::Failed(ProtocolError::ReservedSeqId));
                    Action::WriteThenExit(error_frame(frame.seq_id))
                } else if self.find_pending(frame.seq_id).is_some() {
                    self.end(SessionState::Failed(ProtocolError::DuplicateSeqId));
                    Action::WriteThenExit(error_frame(frame.seq_id))
                } else {
                    self.pending.push(frame.seq_id);
                    Action::Dispatch(frame)
                }
            },
            _ => Action::Wait,
        }
    }

    /// Handles the dispatch table's answer to `req`. The response carries the
    /// request's id; a draining session ends once its last answer is written.
    pub fn complete(&mut self, req: &RpcRequest, code: u32, message: String, payload: Vec<u8>) -> (r: Action)
        requires
            old(self).wf(),
        ensures
            final(self).codec_spec() == old(self).codec_spec(),
            final(self).wf(),
            final(self).signaled() == old(self).signaled(),
            is_terminal(old(self).state_spec()) ==> r is Exit && final(self).state_spec() == old(
                self,
            ).state_spec(),
            !is_terminal(old(self).state_spec()) && !old(self).pending().contains(req.seq_id) ==> r is Wait
                && final(self).state_spec() == old(self).state_spec() && final(self).pending() == old(
                self,
            ).pending(),
            !is_terminal(old(self).state_spec()) && old(self).pending().contains(req.seq_id) ==> {
                let done = old(self).state_spec() is Draining && old(self).pending().len() == 1;
                &&& writes(r, MsgKind::Response, req.seq_id, code, done)
                &&& !final(self).pending().contains(req.seq_id)
                &&& final(self).pending().len() == old(self).pending().len() - 1
                &&& forall|x: i64|
                    x != req.seq_id ==> (#[trigger] final(self).pending().contains(x) <==> old(
                        self,
                    ).pending().contains(x))
                &&& final(self).state_spec() == if done {
                    SessionState::Closed
                } else {
                    old(self).state_spec()
                }
            },
    {
        if self.is_done() {
            return Action::Exit;
        }
        match self.find_pending(req.seq_id) {
            None => Action::Wait,
            Some(i) => {
                let ghost pre = self.pending@;
                self.pending.remove(i);
                proof {
                    let post = self.pending@;
                    assert(post == pre.subrange(0, i as int) + pre.subrange(i as int + 1, pre.len() as int));
                    assert forall|a: int, b: int| 0 <= a < b < post.len() implies post[a] != post[b] by {
                        let a2 = if a < i { a } else { a + 1 };
                        let b2 = if b < i { b } else { b + 1 };
                        assert(post[a] == pre[a2]);
                        assert(post[b] == pre[b2]);
                    }
                    assert forall|x: i64| x != req.seq_id implies (post.contains(x) <==> pre.contains(x)) by {
                        if pre.contains(x) {
                            let k = choose|k: int| 0 <= k < pre.len() && pre[k] == x;
                            if k < i {
                                assert(post[k] == x);
                            } else {
                                assert(k != i);
                                assert(post[k - 1] == x);
                            }
                        }
                        if post.contains(x) {
                            let k = choose|k: int| 0 <= k < post.len() && post[k] == x;
                            if k < i {
                                assert(pre[k] == x);
                            } else {
                                assert(pre[k + 1] == x);
                            }
                        }
                    }
                    assert(!post.contains(req.seq_id)) by {
                        if post.contains(req.seq_id) {
                            let k = choose|k: int| 0 <= k < post.len() && post[k] == req.seq_id;
                            if k < i {
                                assert(pre[k] == pre[i as int]);
                            } else {
                                assert(pre[k + 1] == pre[i as int]);
                            }
                        }
                    }
                    assert(!post.contains(PING_SEQ_ID)) by {
                        if post.contains(PING_SEQ_ID) {
                            let k = choose|k: int| 0 <= k < post.len() && post[k] == PING_SEQ_ID;
                            if k < i {
                                assert(pre[k] == PING_SEQ_ID);
                            } else {
                                assert(pre[k + 1] == PING_SEQ_ID);
                            }
                        }
                    }
                }
                let response = respond(req, code, message, payload);
                if self.state == SessionState::Draining && self.pending.len() == 0 {
                    self.state = SessionState::Closed;
                    Action::WriteThenExit(response)
                } else {
                    Action::Write(response)
                }
            },
        }
    }

    /// Handles the shutdown signal. With nothing in flight the session ends at
    /// once; otherwise it drains.
    pub fn on_shutdown(&mut self) -> (r: Action)
        requires
            old(self).wf(),
        ensures
            final(self).codec_spec() == old(self).codec_spec(),
            final(self).wf(),
            final(self).signaled(),
            final(self).pending() == old(self).pending(),
            old(self).state_spec() is Running && old(self).pending().len() == 0 ==> r is Exit
                && final(self).state_spec() == SessionState::Closed,
            old(self).state_spec() is Running && old(self).pending().len() > 0 ==> r is Wait
                && final(self).state_spec() == SessionState::Draining,
            old(self).state_spec() is Draining ==> r is Wait && final(self).state_spec()
                == SessionState::Draining,
            is_terminal(old(self).state_spec()) ==> r is Exit && final(self).state_spec() == old(
                self,
            ).state_spec(),
    {
        self.shutdown.observe();
        match self.state {
            SessionState::Running => {
                if self.pending.len() == 0 {
                    self.state = SessionState::Closed;
                    Action::Exit
                } else {
                    self.state = SessionState::Draining;
                    Action::Wait
                }
            },
            SessionState::Draining => Action::Wait,
            _ => Action::Exit,
        }
    }

    /// Handles the end of the byte stream; `partial` says whether an
    /// unfinished frame was left in the buffer.
    pub fn on_eof(&mut self, partial: bool) -> (r: Action)
        requires
            old(self).wf(),
        ensures
            final(self).codec_spec() == old(self).codec_spec(),
            final(self).wf(),
            r is Exit,
            final(self).signaled() == old(self).signaled(),
            final(self).pending().len() == 0,
            is_terminal(old(self).state_spec()) ==> final(self).state_spec() == old(self).state_spec(),
            !is_terminal(old(self).state_spec()) ==> final(self).state_spec() == if partial {
                SessionState::Failed(ProtocolError::Truncated)
            } else {
                SessionState::Closed
            },
    {
        if self.is_done() {
            return Action::Exit;
        }
        if partial {
            self.end(SessionState::Failed(ProtocolError::Truncated));
        } else {
            self.end(SessionState::Closed);
        }
        Action::Exit
    }
}

} // verus!

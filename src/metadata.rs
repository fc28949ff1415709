use vstd::prelude::*;

verus! {

/// Key that names the kind of a message.
pub const X_RPC_MSG_TYPE: &'static str = "X-RPC-Msg-Type";
/// Key that names the codec of a message body.
pub const X_RPC_CODEC_TYPE: &'static str = "X-Rpc-Codec-Type";
/// Key that names the compression of a message body.
pub const X_RPC_COMPRESS_TYPE: &'static str = "X-RPC-Compress-Type";

pub const MSG_REQUEST: &'static str = "msg.request";
pub const MSG_RESPONSE: &'static str = "msg.response";
pub const MSG_ERROR: &'static str = "msg.error";
pub const MSG_NOTIFY: &'static str = "msg.notify";
pub const MSG_PING: &'static str = "msg.ping";
pub const MSG_PONG: &'static str = "msg.pong";

pub const CODEC_JSON: &'static str = "codec.json";
pub const CODEC_PROTOBUF: &'static str = "codec.protobuf";

pub const COMPRESS_NONE: &'static str = "compress.none";
pub const COMPRESS_GZIP: &'static str = "compress.gzip";

/// String-keyed metadata carried by every frame. Keys are unique.
#[derive(Debug)]
pub struct Metadata {
    entries: Vec<(String, String)>,
}

impl Metadata {
    #[verifier::type_invariant]
    spec fn inv(&self) -> bool {
        keys_unique(self.entries@)
    }
}

pub open spec fn has_key(s: Seq<(String, String)>, k: Seq<char>) -> bool {
    exists|i: int| 0 <= i < s.len() && #[trigger] s[i].0@ == k
}

/// The value stored under `k`, if any.
pub open spec fn lookup(s: Seq<(String, String)>, k: Seq<char>) -> Option<Seq<char>> {
    if has_key(s, k) {
        let i = choose|i: int| 0 <= i < s.len() && #[trigger] s[i].0@ == k;
        Some(s[i].1@)
    } else {
        None
    }
}

pub open spec fn keys_unique(s: Seq<(String, String)>) -> bool {
    forall|i: int, j: int|
        0 <= i < s.len() && 0 <= j < s.len() && #[trigger] s[i].0@ == #[trigger] s[j].0@ ==> i == j
}

fn position(entries: &Vec<(String, String)>, key: &String) -> (r: Option<usize>)
    ensures
        match r {
            Some(i) => i < entries@.len() && entries@[i as int].0@ == key@,
            None => !has_key(entries@, key@),
        },
{
    let mut i: usize = 0;
    while i < entries.len()
        invariant
            i <= entries@.len(),
            forall|j: int| 0 <= j < i ==> entries@[j].0@ != key@,
        decreases entries@.len() - i,
    {
        if entries[i].0 == *key {
            return Some(i);
        }
        i = i + 1;
    }
    None
}

impl Metadata {
    /// The entries, in the order they were first inserted.
    pub closed spec fn entries(&self) -> Seq<(String, String)> {
        self.entries@
    }

    pub open spec fn wf(&self) -> bool {
        keys_unique(self.entries())
    }

    pub open spec fn get_spec(&self, k: Seq<char>) -> Option<Seq<char>> {
        lookup(self.entries(), k)
    }

    pub fn new() -> (r: Metadata)
        ensures
            r.wf(),
            forall|k: Seq<char>| #[trigger] r.get_spec(k).is_none(),
            resolve_kind(r) == Err::<MsgKind, MetadataError>(MetadataError::MissingMsgKind),
            resolve_codec(r) == Ok::<Codec, MetadataError>(DEFAULT_CODEC),
            resolve_compression(r) == Ok::<Compression, MetadataError>(Compression::Identity),
    {
        Metadata { entries: Vec::new() }
    }

    /// The entries, by value.
    pub fn into_pairs(self) -> (r: Vec<(String, String)>)
        ensures
            r@ == self.entries(),
    {
        self.entries
    }

    /// A copy holding the same entries.
    pub fn snapshot(&self) -> (r: Metadata)
        ensures
            r.wf(),
            r.entries().len() == self.entries().len(),
            forall|i: int|
                0 <= i < r.entries().len() ==> (#[trigger] r.entries()[i]).0@
                    == self.entries()[i].0@ && r.entries()[i].1@ == self.entries()[i].1@,
            forall|k: Seq<char>| #[trigger] r.get_spec(k) == self.get_spec(k),
    {
        proof {
            use_type_invariant(self);
        }
        let mut out: Vec<(String, String)> = Vec::new();
        let mut i: usize = 0;
        while i < self.entries.len()
            invariant
                i <= self.entries@.len(),
                out@.len() == i,
                forall|j: int|
                    0 <= j < i ==> (#[trigger] out@[j]).0@ == self.entries@[j].0@ && out@[j].1@
                        == self.entries@[j].1@,
            decreases self.entries@.len() - i,
        {
            let k = self.entries[i].0.clone();
            let v = self.entries[i].1.clone();
            out.push((k, v));
            i = i + 1;
        }
        let r = Metadata { entries: out };
        proof {
            let a = r.entries();
            let b = self.entries();
            assert forall|x: int, y: int|
                0 <= x < a.len() && 0 <= y < a.len() && #[trigger] a[x].0@ == #[trigger] a[y].0@ implies x == y by {
                assert(b[x].0@ == b[y].0@);
            }
            assert forall|k: Seq<char>| #[trigger] lookup(a, k) == lookup(b, k) by {
                if has_key(b, k) {
                    let x = choose|x: int| 0 <= x < b.len() && #[trigger] b[x].0@ == k;
                    assert(a[x].0@ == k);
                }
                if has_key(a, k) {
                    let x = choose|x: int| 0 <= x < a.len() && #[trigger] a[x].0@ == k;
                    assert(b[x].0@ == k);
                    let y = choose|y: int| 0 <= y < b.len() && #[trigger] b[y].0@ == k;
                    assert(a[y].0@ == k);
                }
            }
        }
        r
    }

    /// The value stored under `key`.
    pub fn get(&self, key: &String) -> (r: Option<String>)
        ensures
            match r {
                Some(v) => self.get_spec(key@) == Some(v@),
                None => self.get_spec(key@).is_none(),
            },
    {
        proof {
            use_type_invariant(self);
        }
        match position(&self.entries, key) {
            Some(i) => {
                proof {
                    let j = choose|j: int|
                        0 <= j < self.entries().len() && #[trigger] self.entries()[j].0@ == key@;
                    assert(self.entries()[j].0@ == self.entries()[i as int].0@);
                }
                Some(self.entries[i].1.clone())
            },
            None => None,
        }
    }

    /// Stores `value` under `key`, replacing an earlier value of that key only.
    pub fn insert(&mut self, key: String, value: String)
        ensures
            final(self).wf(),
            final(self).get_spec(key@) == Some(value@),
            forall|k: Seq<char>| k != key@ ==> #[trigger] final(self).get_spec(k) == old(self).get_spec(k),
    {
        proof {
            use_type_invariant(&*self);
        }
        let mut entries: Vec<(String, String)> = Vec::new();
        std::mem::swap(&mut self.entries, &mut entries);
        let ghost pre = entries@;
        match position(&entries, &key) {
            Some(i) => {
                let ghost kv = key@;
                entries.set(i, (key, value));
                proof {
                    let post = entries@;
                    assert forall|a: int, b: int|
                        0 <= a < post.len() && 0 <= b < post.len() && #[trigger] post[a].0@
                            == #[trigger] post[b].0@ implies a == b by {
                        assert(pre[a].0@ == post[a].0@);
                        assert(pre[b].0@ == post[b].0@);
                    }
                    assert(has_key(post, kv)) by { assert(post[i as int].0@ == kv); }
                    let j = choose|j: int| 0 <= j < post.len() && #[trigger] post[j].0@ == kv;
                    assert(post[j].0@ == post[i as int].0@);
                    assert forall|k: Seq<char>| k != kv implies #[trigger] lookup(post, k) == lookup(pre, k) by {
                        if has_key(pre, k) {
                            let a = choose|a: int| 0 <= a < pre.len() && #[trigger] pre[a].0@ == k;
                            assert(post[a].0@ == k);
                        }
                        if has_key(post, k) {
                            let a = choose|a: int| 0 <= a < post.len() && #[trigger] post[a].0@ == k;
                            assert(pre[a].0@ == k);
                            let b = choose|b: int| 0 <= b < pre.len() && #[trigger] pre[b].0@ == k;
                            assert(post[b].0@ == k);
                        }
                    }
                }
            },
            None => {
                let ghost kv = key@;
                entries.push((key, value));
                proof {
                    let post = entries@;
                    let n = pre.len() as int;
                    assert forall|a: int, b: int|
                        0 <= a < post.len() && 0 <= b < post.len() && #[trigger] post[a].0@
                            == #[trigger] post[b].0@ implies a == b by {
                        if a < n && b < n {
                            assert(pre[a].0@ == pre[b].0@);
                        } else if a < n {
                            assert(pre[a].0@ == kv);
                        } else if b < n {
                            assert(pre[b].0@ == kv);
                        }
                    }
                    assert(has_key(post, kv)) by { assert(post[n].0@ == kv); }
                    let j = choose|j: int| 0 <= j < post.len() && #[trigger] post[j].0@ == kv;
                    assert(post[j].0@ == post[n].0@);
                    assert forall|k: Seq<char>| k != kv implies #[trigger] lookup(post, k) == lookup(pre, k) by {
                        if has_key(pre, k) {
                            let a = choose|a: int| 0 <= a < pre.len() && #[trigger] pre[a].0@ == k;
                            assert(post[a].0@ == k);
                        }
                        if has_key(post, k) {
                            let a = choose|a: int| 0 <= a < post.len() && #[trigger] post[a].0@ == k;
                            assert(a < n);
                            assert(pre[a].0@ == k);
                            let b = choose|b: int| 0 <= b < pre.len() && #[trigger] pre[b].0@ == k;
                            assert(post[b].0@ == k);
                        }
                    }
                }
            },
        }
        std::mem::swap(&mut self.entries, &mut entries);
    }
}

/// The kind of a frame, carried under the message-kind key.
#[derive(Debug, Clone, Copy, PartialEq, Eq, Structural)]
pub enum MsgKind {
    Request,
    Response,
    Error,
    Notify,
    Ping,
    Pong,
}

/// Serialization format of a frame body.
#[derive(Debug, Clone, Copy, PartialEq, Eq, Structural)]
pub enum Codec {
    Json,
    Protobuf,
}

/// Compression applied to a frame body.
#[derive(Debug, Clone, Copy, PartialEq, Eq, Structural)]
pub enum Compression {
    Identity,
    Gzip,
}

/// Ways in which a frame's reserved metadata can be malformed.
#[derive(Debug, Clone, Copy, PartialEq, Eq, Structural)]
pub enum MetadataError {
    MissingMsgKind,
    UnknownMsgKind,
    UnknownCodec,
    UnknownCompression,
}

/// The codec used until metadata names another one.
pub const DEFAULT_CODEC: Codec = Codec::Protobuf;

pub open spec fn kind_name(k: MsgKind) -> Seq<char> {
    match k {
        MsgKind::Request => MSG_REQUEST@,
        MsgKind::Response => MSG_RESPONSE@,
        MsgKind::Error => MSG_ERROR@,
        MsgKind::Notify => MSG_NOTIFY@,
        MsgKind::Ping => MSG_PING@,
        MsgKind::Pong => MSG_PONG@,
    }
}

pub open spec fn kind_of_name(s: Seq<char>) -> Option<MsgKind> {
    if s == MSG_REQUEST@ {
        Some(MsgKind::Request)
    } else if s == MSG_RESPONSE@ {
        Some(MsgKind::Response)
    } else if s == MSG_ERROR@ {
        Some(MsgKind::Error)
    } else if s == MSG_NOTIFY@ {
        Some(MsgKind::Notify)
    } else if s == MSG_PING@ {
        Some(MsgKind::Ping)
    } else if s == MSG_PONG@ {
        Some(MsgKind::Pong)
    } else {
        None
    }
}

pub open spec fn codec_name(c: Codec) -> Seq<char> {
    match c {
        Codec::Json => CODEC_JSON@,
        Codec::Protobuf => CODEC_PROTOBUF@,
    }
}

pub open spec fn codec_of_name(s: Seq<char>) -> Option<Codec> {
    if s == CODEC_JSON@ {
        Some(Codec::Json)
    } else if s == CODEC_PROTOBUF@ {
        Some(Codec::Protobuf)
    } else {
        None
    }
}

pub open spec fn compression_name(c: Compression) -> Seq<char> {
    match c {
        Compression::Identity => COMPRESS_NONE@,
        Compression::Gzip => COMPRESS_GZIP@,
    }
}

pub open spec fn compression_of_name(s: Seq<char>) -> Option<Compression> {
    if s == COMPRESS_NONE@ {
        Some(Compression::Identity)
    } else if s == COMPRESS_GZIP@ {
        Some(Compression::Gzip)
    } else {
        None
    }
}

/// What the message-kind entry of some metadata resolves to.
pub open spec fn resolve_kind(md: Metadata) -> Result<MsgKind, MetadataError> {
    match md.get_spec(X_RPC_MSG_TYPE@) {
        None => Err(MetadataError::MissingMsgKind),
        Some(v) => match kind_of_name(v) {
            Some(k) => Ok(k),
            None => Err(MetadataError::UnknownMsgKind),
        },
    }
}

/// What the codec entry of some metadata resolves to; absent means the default codec.
pub open spec fn resolve_codec(md: Metadata) -> Result<Codec, MetadataError> {
    match md.get_spec(X_RPC_CODEC_TYPE@) {
        None => Ok(DEFAULT_CODEC),
        Some(v) => match codec_of_name(v) {
            Some(c) => Ok(c),
            None => Err(MetadataError::UnknownCodec),
        },
    }
}

/// What the compression entry of some metadata resolves to; absent means no compression.
pub open spec fn resolve_compression(md: Metadata) -> Result<Compression, MetadataError> {
    match md.get_spec(X_RPC_COMPRESS_TYPE@) {
        None => Ok(Compression::Identity),
        Some(v) => match compression_of_name(v) {
            Some(c) => Ok(c),
            None => Err(MetadataError::UnknownCompression),
        },
    }
}

pub proof fn lemma_names_distinct()
    ensures
        X_RPC_MSG_TYPE@ != X_RPC_CODEC_TYPE@,
        X_RPC_MSG_TYPE@ != X_RPC_COMPRESS_TYPE@,
        X_RPC_CODEC_TYPE@ != X_RPC_COMPRESS_TYPE@,
        forall|k: MsgKind| #[trigger] kind_of_name(kind_name(k)) == Some(k),
        forall|c: Codec| #[trigger] codec_of_name(codec_name(c)) == Some(c),
        forall|c: Compression| #[trigger] compression_of_name(compression_name(c)) == Some(c),
{
    reveal_strlit("X-RPC-Msg-Type");
    reveal_strlit("X-Rpc-Codec-Type");
    reveal_strlit("X-RPC-Compress-Type");
    reveal_strlit("msg.request");
    reveal_strlit("msg.response");
    reveal_strlit("msg.error");
    reveal_strlit("msg.notify");
    reveal_strlit("msg.ping");
    reveal_strlit("msg.pong");
    reveal_strlit("codec.json");
    reveal_strlit("codec.protobuf");
    reveal_strlit("compress.none");
    reveal_strlit("compress.gzip");
    assert(X_RPC_MSG_TYPE@[4] != X_RPC_CODEC_TYPE@[4]);
    assert(X_RPC_MSG_TYPE@[6] != X_RPC_COMPRESS_TYPE@[6]);
    assert(X_RPC_CODEC_TYPE@[3] != X_RPC_COMPRESS_TYPE@[3]);
    assert(MSG_REQUEST@[6] != MSG_RESPONSE@[6]);
    assert(MSG_REQUEST@[4] != MSG_ERROR@[4]);
    assert(MSG_REQUEST@[4] != MSG_NOTIFY@[4]);
    assert(MSG_REQUEST@[4] != MSG_PING@[4]);
    assert(MSG_REQUEST@[4] != MSG_PONG@[4]);
    assert(MSG_RESPONSE@[4] != MSG_ERROR@[4]);
    assert(MSG_RESPONSE@[4] != MSG_NOTIFY@[4]);
    assert(MSG_RESPONSE@[4] != MSG_PING@[4]);
    assert(MSG_RESPONSE@[4] != MSG_PONG@[4]);
    assert(MSG_ERROR@[4] != MSG_NOTIFY@[4]);
    assert(MSG_ERROR@[4] != MSG_PING@[4]);
    assert(MSG_ERROR@[4] != MSG_PONG@[4]);
    assert(MSG_NOTIFY@[4] != MSG_PING@[4]);
    assert(MSG_NOTIFY@[4] != MSG_PONG@[4]);
    assert(MSG_PING@[5] != MSG_PONG@[5]);
    assert(CODEC_JSON@[6] != CODEC_PROTOBUF@[6]);
    assert(COMPRESS_NONE@[9] != COMPRESS_GZIP@[9]);
}

fn name_string(s: &'static str) -> (r: String)
    ensures
        r@ == s@,
{
    s.to_owned()
}

/// Resolves the message kind named by `md`.
pub fn msg_kind(md: &Metadata) -> (r: Result<MsgKind, MetadataError>)
    ensures
        r == resolve_kind(*md),
{
    match md.get(&name_string(X_RPC_MSG_TYPE)) {
        None => Err(MetadataError::MissingMsgKind),
        Some(v) => {
            if v == name_string(MSG_REQUEST) {
                Ok(MsgKind::Request)
            } else if v == name_string(MSG_RESPONSE) {
                Ok(MsgKind::Response)
            } else if v == name_string(MSG_ERROR) {
                Ok(MsgKind::Error)
            } else if v == name_string(MSG_NOTIFY) {
                Ok(MsgKind::Notify)
            } else if v == name_string(MSG_PING) {
                Ok(MsgKind::Ping)
            } else if v == name_string(MSG_PONG) {
                Ok(MsgKind::Pong)
            } else {
                Err(MetadataError::UnknownMsgKind)
            }
        },
    }
}

/// Resolves the codec named by `md`, falling back to the default codec.
pub fn codec(md: &Metadata) -> (r: Result<Codec, MetadataError>)
    ensures
        r == resolve_codec(*md),
{
    match md.get(&name_string(X_RPC_CODEC_TYPE)) {
        None => Ok(DEFAULT_CODEC),
        Some(v) => {
            if v == name_string(CODEC_JSON) {
                Ok(Codec::Json)
            } else if v == name_string(CODEC_PROTOBUF) {
                Ok(Codec::Protobuf)
            } else {
                Err(MetadataError::UnknownCodec)
            }
        },
    }
}

/// Resolves the compression named by `md`, falling back to none.
pub fn compression(md: &Metadata) -> (r: Result<Compression, MetadataError>)
    ensures
        r == resolve_compression(*md),
{
    match md.get(&name_string(X_RPC_COMPRESS_TYPE)) {
        None => Ok(Compression::Identity),
        Some(v) => {
            if v == name_string(COMPRESS_NONE) {
                Ok(Compression::Identity)
            } else if v == name_string(COMPRESS_GZIP) {
                Ok(Compression::Gzip)
            } else {
                Err(MetadataError::UnknownCompression)
            }
        },
    }
}

fn kind_string(k: MsgKind) -> (r: String)
    ensures
        r@ == kind_name(k),
{
    match k {
        MsgKind::Request => name_string(MSG_REQUEST),
        MsgKind::Response => name_string(MSG_RESPONSE),
        MsgKind::Error => name_string(MSG_ERROR),
        MsgKind::Notify => name_string(MSG_NOTIFY),
        MsgKind::Ping => name_string(MSG_PING),
        MsgKind::Pong => name_string(MSG_PONG),
    }
}

impl Metadata {
    /// Writes the message-kind entry, leaving every other entry as it was.
    pub fn stamp_kind(&mut self, kind: MsgKind)
        ensures
            final(self).wf(),
            resolve_kind(*final(self)) == Ok::<MsgKind, MetadataError>(kind),
            resolve_codec(*final(self)) == resolve_codec(*old(self)),
            resolve_compression(*final(self)) == resolve_compression(*old(self)),
            forall|k: Seq<char>|
                k != X_RPC_MSG_TYPE@ ==> #[trigger] final(self).get_spec(k) == old(self).get_spec(k),
    {
        proof {
            lemma_names_distinct();
        }
        self.insert(name_string(X_RPC_MSG_TYPE), kind_string(kind));
    }

    /// Writes the codec entry, leaving every other entry as it was.
    pub fn stamp_codec(&mut self, c: Codec)
        ensures
            final(self).wf(),
            resolve_codec(*final(self)) == Ok::<Codec, MetadataError>(c),
            resolve_kind(*final(self)) == resolve_kind(*old(self)),
            resolve_compression(*final(self)) == resolve_compression(*old(self)),
            forall|k: Seq<char>|
                k != X_RPC_CODEC_TYPE@ ==> #[trigger] final(self).get_spec(k) == old(self).get_spec(k),
    {
        proof {
            lemma_names_distinct();
        }
        let name = match c {
            Codec::Json => name_string(CODEC_JSON),
            Codec::Protobuf => name_string(CODEC_PROTOBUF),
        };
        assert(name@ == codec_name(c));
        self.insert(name_string(X_RPC_CODEC_TYPE), name);
    }

    /// Writes the compression entry, leaving every other entry as it was.
    pub fn stamp_compression(&mut self, c: Compression)
        ensures
            final(self).wf(),
            resolve_compression(*final(self)) == Ok::<Compression, MetadataError>(c),
            resolve_kind(*final(self)) == resolve_kind(*old(self)),
            resolve_codec(*final(self)) == resolve_codec(*old(self)),
            forall|k: Seq<char>|
                k != X_RPC_COMPRESS_TYPE@ ==> #[trigger] final(self).get_spec(k) == old(self).get_spec(k),
    {
        proof {
            lemma_names_distinct();
        }
        let name = match c {
            Compression::Identity => name_string(COMPRESS_NONE),
            Compression::Gzip => name_string(COMPRESS_GZIP),
        };
        assert(name@ == compression_name(c));
        self.insert(name_string(X_RPC_COMPRESS_TYPE), name);
    }
}

} // verus!

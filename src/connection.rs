use vstd::prelude::*;

verus! {

/// Capacity the read buffer of a new connection starts with.
pub const INITIAL_BUFFER_CAPACITY: usize = 4 * 1024;

/// Bytes of the big-endian length that precedes every frame body.
pub const LENGTH_PREFIX: usize = 4;

/// The four big-endian bytes of `n`.
pub open spec fn be_bytes(n: u32) -> Seq<u8> {
    seq![
        ((n >> 24u32) & 0xffu32) as u8,
        ((n >> 16u32) & 0xffu32) as u8,
        ((n >> 8u32) & 0xffu32) as u8,
        (n & 0xffu32) as u8,
    ]
}

/// The number whose big-endian bytes are `b[0..4]`.
pub open spec fn be_value(b: Seq<u8>) -> u32
    recommends
        b.len() >= 4,
{
    ((b[0] as u32) << 24u32) | ((b[1] as u32) << 16u32) | ((b[2] as u32) << 8u32) | (b[3] as u32)
}

/// A body framed for the wire: its length, then the body.
pub open spec fn framed(body: Seq<u8>) -> Seq<u8>
    recommends
        body.len() <= u32::MAX,
{
    be_bytes(body.len() as u32) + body
}

/// The first complete frame at the start of `buf`: its body and the bytes it
/// occupies; `None` while more bytes are needed.
pub open spec fn first_frame(buf: Seq<u8>) -> Option<(Seq<u8>, int)> {
    if buf.len() < LENGTH_PREFIX {
        None
    } else {
        let n = be_value(buf) as int;
        if buf.len() < LENGTH_PREFIX + n {
            None
        } else {
            Some((buf.subrange(LENGTH_PREFIX as int, LENGTH_PREFIX + n), LENGTH_PREFIX + n))
        }
    }
}

proof fn lemma_be_round_trip(n: u32)
    ensures
        be_value(be_bytes(n)) == n,
{
    let b0 = ((n >> 24u32) & 0xffu32) as u8;
    let b1 = ((n >> 16u32) & 0xffu32) as u8;
    let b2 = ((n >> 8u32) & 0xffu32) as u8;
    let b3 = (n & 0xffu32) as u8;
    assert(((b0 as u32) << 24u32) | ((b1 as u32) << 16u32) | ((b2 as u32) << 8u32) | (b3 as u32) == n)
        by (bit_vector)
        requires
            b0 == ((n >> 24u32) & 0xffu32) as u8,
            b1 == ((n >> 16u32) & 0xffu32) as u8,
            b2 == ((n >> 8u32) & 0xffu32) as u8,
            b3 == (n & 0xffu32) as u8,
    ;
}

/// Framing then reading back gives the body, whatever bytes follow it.
pub proof fn lemma_frame_round_trip(body: Seq<u8>, rest: Seq<u8>)
    requires
        body.len() <= u32::MAX,
    ensures
        first_frame(framed(body) + rest) == Some((body, LENGTH_PREFIX + body.len())),
{
    let n = body.len() as u32;
    lemma_be_round_trip(n);
    let buf = framed(body) + rest;
    assert(buf.subrange(0, 4) =~= be_bytes(n));
    assert(be_value(buf) == be_value(be_bytes(n)));
    assert(buf.subrange(4, 4 + body.len() as int) =~= body);
}

/// Frames `body` for the wire.
pub fn encode_frame(body: &Vec<u8>) -> (r: Vec<u8>)
    requires
        body@.len() <= u32::MAX,
    ensures
        r@ == framed(body@),
{
    let n = body.len() as u32;
    let mut out: Vec<u8> = Vec::new();
    out.push(((n >> 24u32) & 0xffu32) as u8);
    out.push(((n >> 16u32) & 0xffu32) as u8);
    out.push(((n >> 8u32) & 0xffu32) as u8);
    out.push((n & 0xffu32) as u8);
    let mut i: usize = 0;
    while i < body.len()
        invariant
            i <= body@.len(),
            n == body@.len(),
            out@ == be_bytes(n) + body@.subrange(0, i as int),
        decreases body@.len() - i,
    {
        out.push(body[i]);
        i = i + 1;
        assert(body@.subrange(0, i as int) =~= body@.subrange(0, i - 1) + seq![body@[i - 1]]);
    }
    assert(body@.subrange(0, body@.len() as int) =~= body@);
    out
}

/// What remains in the buffer when the peer closes the stream.
#[derive(Debug, Clone, Copy, PartialEq, Eq, Structural)]
pub enum StreamEnd {
    /// Nothing was left: the connection closed normally.
    Clean,
    /// Part of a frame was left: the stream was cut short.
    Truncated,
}

#[verifier::external_type_specification]
#[verifier::external_body]
pub struct ExBytesMut(bytes::BytesMut);

/// The bytes a `BytesMut` holds.
pub uninterp spec fn buffered(b: bytes::BytesMut) -> Seq<u8>;

/// Relies on `BytesMut::with_capacity`: the new buffer holds no bytes.
#[verifier::external_body]
fn buffer_with_capacity(capacity: usize) -> (r: bytes::BytesMut)
    ensures
        buffered(r).len() == 0,
{
    bytes::BytesMut::with_capacity(capacity)
}

/// Relies on `BytesMut::extend_from_slice`: the bytes are appended.
#[verifier::external_body]
fn buffer_extend(b: &mut bytes::BytesMut, data: &[u8])
    ensures
        buffered(*final(b)) == buffered(*old(b)) + data@,
{
    b.extend_from_slice(data)
}

/// Relies on `BytesMut::len`: the number of bytes held.
#[verifier::external_body]
fn buffer_len(b: &bytes::BytesMut) -> (r: usize)
    ensures
        r == buffered(*b).len(),
{
    b.len()
}

/// Relies on indexing through `BytesMut`'s `Deref` to `[u8]`: the byte at `i`.
#[verifier::external_body]
fn buffer_byte(b: &bytes::BytesMut, i: usize) -> (r: u8)
    requires
        i < buffered(*b).len(),
    ensures
        r == buffered(*b)[i as int],
{
    b[i]
}

/// Relies on `BytesMut::split_to`: the first `at` bytes move to the result,
/// the rest stay. It panics only where `at` exceeds the length.
#[verifier::external_body]
fn buffer_split_to(b: &mut bytes::BytesMut, at: usize) -> (r: bytes::BytesMut)
    requires
        at <= buffered(*old(b)).len(),
    ensures
        buffered(r) == buffered(*old(b)).subrange(0, at as int),
        buffered(*final(b)) == buffered(*old(b)).subrange(at as int, buffered(*old(b)).len() as int),
{
    b.split_to(at)
}

/// Bytes read from a connection and not yet taken out as frames.
#[derive(Debug)]
pub struct FrameBuffer {
    buffer: bytes::BytesMut,
}

impl FrameBuffer {
    pub closed spec fn bytes(&self) -> Seq<u8> {
        buffered(self.buffer)
    }

    pub fn new() -> (r: FrameBuffer)
        ensures
            r.bytes().len() == 0,
    {
        FrameBuffer { buffer: buffer_with_capacity(INITIAL_BUFFER_CAPACITY) }
    }

    /// Appends bytes read from the socket; the buffer grows as needed.
    pub fn extend(&mut self, data: &[u8])
        ensures
            final(self).bytes() == old(self).bytes() + data@,
    {
        buffer_extend(&mut self.buffer, data);
    }

    /// Takes the first complete frame's body out of the buffer, if there is one.
    pub fn next_frame(&mut self) -> (r: Option<Vec<u8>>)
        ensures
            match first_frame(old(self).bytes()) {
                None => r.is_none() && final(self).bytes() == old(self).bytes(),
                Some((body, used)) => r.is_some() && r.unwrap()@ == body && final(self).bytes()
                    == old(self).bytes().subrange(used, old(self).bytes().len() as int),
            },
    {
        let len = buffer_len(&self.buffer);
        if len < LENGTH_PREFIX {
            return None;
        }
        let n: u32 = ((buffer_byte(&self.buffer, 0) as u32) << 24u32) | ((buffer_byte(&self.buffer, 1) as u32) << 16u32)
            | ((buffer_byte(&self.buffer, 2) as u32) << 8u32) | (buffer_byte(&self.buffer, 3) as u32);
        if ((len - LENGTH_PREFIX) as u64) < (n as u64) {
            return None;
        }
        let end = LENGTH_PREFIX + n as usize;
        let ghost all = buffered(self.buffer);
        let head = buffer_split_to(&mut self.buffer, end);
        let mut body: Vec<u8> = Vec::new();
        let mut i: usize = LENGTH_PREFIX;
        while i < end
            invariant
                LENGTH_PREFIX <= i <= end,
                end <= all.len(),
                buffered(head) == all.subrange(0, end as int),
                body@ == all.subrange(LENGTH_PREFIX as int, i as int),
            decreases end - i,
        {
            body.push(buffer_byte(&head, i));
            i = i + 1;
            assert(all.subrange(LENGTH_PREFIX as int, i as int) =~= all.subrange(
                LENGTH_PREFIX as int,
                i - 1,
            ) + seq![all[i - 1]]);
        }
        Some(body)
    }

    /// How the stream ended, given what is left in the buffer.
    pub fn end_of_stream(&self) -> (r: StreamEnd)
        ensures
            r == (if self.bytes().len() == 0 {
                StreamEnd::Clean
            } else {
                StreamEnd::Truncated
            }),
    {
        if buffer_len(&self.buffer) == 0 {
            StreamEnd::Clean
        } else {
            StreamEnd::Truncated
        }
    }
}

} // verus!

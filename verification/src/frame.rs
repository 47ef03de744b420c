//! The frames that a manager and its workers exchange: the length of what
//! follows in four bytes, the highest first, then one byte that says what
//! kind of frame it is, then the payload.

use vstd::prelude::*;

verus! {

/// The kinds of frames.
#[derive(Debug, Clone, Copy, PartialEq, Eq, Structural)]
pub enum GaggleFrameKind {
    /// A worker says hello, with its version.
    Hello,
    /// A worker sends the fingerprint of its task sets.
    TaskSetFingerprint,
    /// The manager tells a worker to start, with the configuration and the
    /// worker's users.
    Start,
    /// A worker sends a batch of metrics.
    MetricsBatch,
    /// The manager tells a worker to stop.
    Stop,
    /// A worker says goodbye.
    Bye,
}

/// Why bytes are no frame.
#[derive(Debug, Clone, Copy, PartialEq, Eq, Structural)]
pub enum GaggleFrameError {
    /// The frame says that it is empty: even its kind is missing.
    Empty,
    /// The frame is of no kind that is known.
    UnknownKind(u8),
}

/// A frame that was read.
#[derive(Debug)]
pub struct GaggleFrame {
    /// The kind of the frame.
    pub kind: GaggleFrameKind,
    /// The payload of the frame.
    pub payload: Vec<u8>,
    /// How many bytes the frame took.
    pub length: usize,
}

/// The byte that stands for a kind.
pub open spec fn kind_byte(kind: GaggleFrameKind) -> u8 {
    match kind {
        GaggleFrameKind::Hello => 0,
        GaggleFrameKind::TaskSetFingerprint => 1,
        GaggleFrameKind::Start => 2,
        GaggleFrameKind::MetricsBatch => 3,
        GaggleFrameKind::Stop => 4,
        GaggleFrameKind::Bye => 5,
    }
}

/// The kind that a byte stands for.
pub open spec fn kind_of_byte(byte: u8) -> Option<GaggleFrameKind> {
    if byte == 0 {
        Some(GaggleFrameKind::Hello)
    } else if byte == 1 {
        Some(GaggleFrameKind::TaskSetFingerprint)
    } else if byte == 2 {
        Some(GaggleFrameKind::Start)
    } else if byte == 3 {
        Some(GaggleFrameKind::MetricsBatch)
    } else if byte == 4 {
        Some(GaggleFrameKind::Stop)
    } else if byte == 5 {
        Some(GaggleFrameKind::Bye)
    } else {
        None
    }
}

/// A length in four bytes, the highest first.
pub open spec fn length_bytes(length: int) -> Seq<u8> {
    seq![
        (length / 16777216) as u8,
        (length / 65536 % 256) as u8,
        (length / 256 % 256) as u8,
        (length % 256) as u8,
    ]
}

/// The length that four bytes stand for.
pub open spec fn length_of(a: u8, b: u8, c: u8, d: u8) -> int {
    ((a as int * 256 + b as int) * 256 + c as int) * 256 + d as int
}

/// The bytes of a frame.
pub open spec fn frame_bytes(kind: GaggleFrameKind, payload: Seq<u8>) -> Seq<u8> {
    length_bytes(payload.len() as int + 1) + seq![kind_byte(kind)] + payload
}

/// The largest payload that fits in a frame.
pub const MAX_PAYLOAD: usize = 4294967294;

impl GaggleFrameKind {
    /// The byte that stands for the kind.
    pub fn byte(&self) -> (r: u8)
        ensures
            r == kind_byte(*self),
            kind_of_byte(r) == Some(*self),
    {
        match self {
            GaggleFrameKind::Hello => 0,
            GaggleFrameKind::TaskSetFingerprint => 1,
            GaggleFrameKind::Start => 2,
            GaggleFrameKind::MetricsBatch => 3,
            GaggleFrameKind::Stop => 4,
            GaggleFrameKind::Bye => 5,
        }
    }

    /// The kind that a byte stands for.
    pub fn from_byte(byte: u8) -> (r: Option<GaggleFrameKind>)
        ensures
            r == kind_of_byte(byte),
    {
        if byte == 0 {
            Some(GaggleFrameKind::Hello)
        } else if byte == 1 {
            Some(GaggleFrameKind::TaskSetFingerprint)
        } else if byte == 2 {
            Some(GaggleFrameKind::Start)
        } else if byte == 3 {
            Some(GaggleFrameKind::MetricsBatch)
        } else if byte == 4 {
            Some(GaggleFrameKind::Stop)
        } else if byte == 5 {
            Some(GaggleFrameKind::Bye)
        } else {
            None
        }
    }
}

/// The bytes of a frame; none where the payload is too large for its length
/// to be written in four bytes.
pub fn encode_frame(kind: GaggleFrameKind, payload: &Vec<u8>) -> (r: Option<Vec<u8>>)
    ensures
        payload.len() > MAX_PAYLOAD ==> r is None,
        payload.len() <= MAX_PAYLOAD ==> r is Some && r.unwrap()@ == frame_bytes(kind, payload@),
{
    if payload.len() > MAX_PAYLOAD {
        return None;
    }
    let length: u64 = payload.len() as u64 + 1;
    let mut bytes: Vec<u8> = Vec::new();
    bytes.push((length / 16777216) as u8);
    bytes.push((length / 65536 % 256) as u8);
    bytes.push((length / 256 % 256) as u8);
    bytes.push((length % 256) as u8);
    bytes.push(kind.byte());
    let ghost head = bytes@;
    assert(head =~= length_bytes(payload.len() as int + 1) + seq![kind_byte(kind)]);
    let mut i: usize = 0;
    while i < payload.len()
        invariant
            i <= payload.len(),
            bytes@ == head + payload@.take(i as int),
        decreases payload.len() - i,
    {
        bytes.push(payload[i]);
        assert(bytes@ =~= head + payload@.take(i + 1));
        i += 1;
    }
    assert(payload@.take(payload.len() as int) =~= payload@);
    Some(bytes)
}

/// What the bytes from `from` on hold: a frame, or too little for a frame
/// yet, or something that is no frame.
pub open spec fn frame_at(bytes: Seq<u8>, from: int) -> Result<
    Option<(GaggleFrameKind, Seq<u8>, int)>,
    GaggleFrameError,
> {
    if bytes.len() - from < 4 {
        Ok(None)
    } else {
        let length = length_of(bytes[from], bytes[from + 1], bytes[from + 2], bytes[from + 3]);
        if length == 0 {
            Err(GaggleFrameError::Empty)
        } else if bytes.len() - from < 4 + length {
            Ok(None)
        } else {
            match kind_of_byte(bytes[from + 4]) {
                None => Err(GaggleFrameError::UnknownKind(bytes[from + 4])),
                Some(kind) => Ok(
                    Some((kind, bytes.subrange(from + 5, from + 4 + length), 4 + length)),
                ),
            }
        }
    }
}

/// Reads the frame that starts at `from`. The result is `Ok(None)` where
/// the bytes end before the frame does: more bytes have to arrive.
pub fn decode_frame(bytes: &Vec<u8>, from: usize) -> (r: Result<
    Option<GaggleFrame>,
    GaggleFrameError,
>)
    requires
        from <= bytes.len(),
    ensures
        match r {
            Ok(Some(frame)) => frame_at(bytes@, from as int) == Ok::<_, GaggleFrameError>(
                Some((frame.kind, frame.payload@, frame.length as int)),
            ),
            Ok(None) => frame_at(bytes@, from as int) == Ok::<
                Option<(GaggleFrameKind, Seq<u8>, int)>,
                GaggleFrameError,
            >(None),
            Err(e) => frame_at(bytes@, from as int) == Err::<
                Option<(GaggleFrameKind, Seq<u8>, int)>,
                _,
            >(e),
        },
{
    if bytes.len() - from < 4 {
        return Ok(None);
    }
    let length: u64 = ((bytes[from] as u64 * 256 + bytes[from + 1] as u64) * 256 + bytes[from
        + 2] as u64) * 256 + bytes[from + 3] as u64;
    if length == 0 {
        return Err(GaggleFrameError::Empty);
    }
    if ((bytes.len() - from) as u64) < 4 + length {
        return Ok(None);
    }
    let kind = match GaggleFrameKind::from_byte(bytes[from + 4]) {
        Some(kind) => kind,
        None => {
            return Err(GaggleFrameError::UnknownKind(bytes[from + 4]));
        },
    };
    let end: usize = from + 4 + length as usize;
    let mut payload: Vec<u8> = Vec::new();
    let mut i: usize = from + 5;
    while i < end
        invariant
            from + 5 <= i <= end <= bytes.len(),
            payload@ == bytes@.subrange(from + 5, i as int),
        decreases end - i,
    {
        payload.push(bytes[i]);
        assert(payload@ =~= bytes@.subrange(from + 5, i + 1));
        i += 1;
    }
    Ok(Some(GaggleFrame { kind, payload, length: 4 + length as usize }))
}

/// Four bytes stand for the length that they were written from.
pub proof fn lemma_length_round_trip(length: int)
    requires
        0 <= length < 0x1_0000_0000,
    ensures
        length_of(
            length_bytes(length)[0],
            length_bytes(length)[1],
            length_bytes(length)[2],
            length_bytes(length)[3],
        ) == length,
{
}

/// A frame reads back as what it was written from, whatever follows it.
pub proof fn lemma_frame_round_trip(kind: GaggleFrameKind, payload: Seq<u8>, rest: Seq<u8>)
    requires
        payload.len() <= MAX_PAYLOAD,
    ensures
        frame_at(frame_bytes(kind, payload) + rest, 0) == Ok::<_, GaggleFrameError>(
            Some((kind, payload, 5 + payload.len() as int)),
        ),
{
    let frame = frame_bytes(kind, payload);
    let bytes = frame + rest;
    let length = payload.len() as int + 1;
    lemma_length_round_trip(length);
    assert(bytes[0] == length_bytes(length)[0]);
    assert(bytes[1] == length_bytes(length)[1]);
    assert(bytes[2] == length_bytes(length)[2]);
    assert(bytes[3] == length_bytes(length)[3]);
    assert(bytes[4] == kind_byte(kind));
    assert(bytes.subrange(5, 4 + length) =~= payload);
}

} // verus!

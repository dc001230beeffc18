//! Length-prefixed records: a 4-byte big-endian length, then that many bytes.
use vstd::prelude::*;

verus! {

/// Largest payload a record may carry (16 MiB).
pub const MAX_RECORD_LEN: usize = 16777216;

/// The four big-endian bytes of `n`, which must be below 2^32.
pub open spec fn be_bytes(n: nat) -> Seq<u8> {
    seq![
        (n / 16777216) as u8,
        ((n / 65536) % 256) as u8,
        ((n / 256) % 256) as u8,
        (n % 256) as u8,
    ]
}

/// The number that four big-endian bytes denote.
pub open spec fn be_value(b: Seq<u8>) -> nat {
    (b[0] as nat) * 16777216 + (b[1] as nat) * 65536 + (b[2] as nat) * 256 + (b[3] as nat)
}

/// A payload written as a record: its length header, then the payload itself.
pub open spec fn framed(payload: Seq<u8>) -> Seq<u8> {
    be_bytes(payload.len()) + payload
}

/// What the front of a receive buffer holds.
pub enum RecordView {
    /// Not enough bytes yet for a whole record.
    Incomplete,
    /// The header announces more than `MAX_RECORD_LEN` bytes.
    Oversized,
    /// A whole record: its payload and how many bytes of the buffer it took.
    Complete(Seq<u8>, nat),
}

/// Reading one record from the front of `buf`.
pub open spec fn parse_spec(buf: Seq<u8>) -> RecordView {
    if buf.len() < 4 {
        RecordView::Incomplete
    } else {
        let len = be_value(buf.subrange(0, 4));
        if len > MAX_RECORD_LEN {
            RecordView::Oversized
        } else if buf.len() < 4 + len {
            RecordView::Incomplete
        } else {
            RecordView::Complete(buf.subrange(4, 4 + len as int), 4 + len)
        }
    }
}

/// Failures of the framed transport.
#[derive(Debug, Clone, Copy, PartialEq, Eq, Structural)]
pub enum FramingError {
    /// A record longer than `MAX_RECORD_LEN` was written or announced.
    ProtocolViolation,
}

/// The result of looking for one record at the front of a buffer.
#[derive(Debug)]
pub enum ParsedRecord {
    Incomplete,
    Oversized,
    Complete { payload: Vec<u8>, consumed: usize },
}

impl ParsedRecord {
    pub open spec fn view(&self) -> RecordView {
        match self {
            ParsedRecord::Incomplete => RecordView::Incomplete,
            ParsedRecord::Oversized => RecordView::Oversized,
            ParsedRecord::Complete { payload, consumed } => RecordView::Complete(
                payload@,
                *consumed as nat,
            ),
        }
    }
}

proof fn lemma_be_round_trip(n: nat)
    requires
        n < 4294967296,
    ensures
        be_value(be_bytes(n)) == n,
{
    let a = n / 16777216;
    let b = (n / 65536) % 256;
    let c = (n / 256) % 256;
    let d = n % 256;
    assert(n == a * 16777216 + b * 65536 + c * 256 + d) by (nonlinear_arith)
        requires
            a == n / 16777216,
            b == (n / 65536) % 256,
            c == (n / 256) % 256,
            d == n % 256,
    ;
    assert(a < 256) by (nonlinear_arith)
        requires
            a == n / 16777216,
            n < 4294967296,
    ;
}

/// Writes `payload` as one record: `u32_be(len) ‖ payload`.
/// A payload longer than `MAX_RECORD_LEN` is refused.
pub fn encode_record(payload: &[u8]) -> (r: Result<Vec<u8>, FramingError>)
    ensures
        payload@.len() <= MAX_RECORD_LEN ==> (r matches Ok(v) && v@ == framed(payload@)),
        payload@.len() > MAX_RECORD_LEN ==> r == Err::<Vec<u8>, FramingError>(
            FramingError::ProtocolViolation,
        ),
{
    if payload.len() > MAX_RECORD_LEN {
        return Err(FramingError::ProtocolViolation);
    }
    let n: usize = payload.len();
    let mut out: Vec<u8> = Vec::with_capacity(n + 4);
    out.push((n / 16777216) as u8);
    out.push(((n / 65536) % 256) as u8);
    out.push(((n / 256) % 256) as u8);
    out.push((n % 256) as u8);
    out.extend_from_slice(payload);
    assert(out@ =~= framed(payload@));
    Ok(out)
}

/// Looks for one whole record at the front of `buf`, as the read loop does
/// with the bytes received so far.
pub fn parse_record(buf: &[u8]) -> (r: ParsedRecord)
    ensures
        r.view() == parse_spec(buf@),
{
    if buf.len() < 4 {
        return ParsedRecord::Incomplete;
    }
    let len: usize = (buf[0] as usize) * 16777216 + (buf[1] as usize) * 65536 + (buf[2] as usize)
        * 256 + (buf[3] as usize);
    assert(len == be_value(buf@.subrange(0, 4)));
    if len > MAX_RECORD_LEN {
        return ParsedRecord::Oversized;
    }
    if buf.len() - 4 < len {
        return ParsedRecord::Incomplete;
    }
    let mut payload: Vec<u8> = Vec::with_capacity(len);
    let end: usize = 4 + len;
    let mut i: usize = 4;
    while i < end
        invariant
            4 <= i <= end,
            end == 4 + len,
            end <= buf@.len(),
            payload@ =~= buf@.subrange(4, i as int),
        decreases end - i,
    {
        payload.push(buf[i]);
        i = i + 1;
    }
    ParsedRecord::Complete { payload, consumed: end }
}

/// A record read back from a stream holds exactly the payload that was
/// written, and what follows it in the stream does not disturb the reading.
pub proof fn lemma_framing_round_trip(payload: Seq<u8>, rest: Seq<u8>)
    requires
        payload.len() <= MAX_RECORD_LEN,
    ensures
        parse_spec(framed(payload) + rest) == RecordView::Complete(payload, 4 + payload.len()),
{
    let buf = framed(payload) + rest;
    lemma_be_round_trip(payload.len());
    assert(buf.subrange(0, 4) =~= be_bytes(payload.len()));
    assert(buf.subrange(4, 4 + payload.len() as int) =~= payload);
}

} // verus!

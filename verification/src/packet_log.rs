//! Record framing of the packet log: each record is its payload length as a
//! little-endian `u32` followed by the payload.
use vstd::prelude::*;

verus! {

/// Largest payload a record may carry.
pub const MAX_RECORD_BYTES: usize = 4096;

#[derive(Debug, Clone, Copy, PartialEq, Eq, Structural)]
pub enum LogFrameError {
    /// The payload exceeds `MAX_RECORD_BYTES`.
    RecordTooLarge,
    /// A record header holds a length of 0 or above `MAX_RECORD_BYTES`.
    InvalidLength(u32),
    /// The log ends inside a record's payload.
    Truncated,
}

/// Little-endian bytes of a `u32`.
pub open spec fn u32_le_bytes(n: u32) -> Seq<u8> {
    seq![
        (n & 0xff) as u8,
        ((n >> 8u32) & 0xff) as u8,
        ((n >> 16u32) & 0xff) as u8,
        ((n >> 24u32) & 0xff) as u8,
    ]
}

/// The `u32` whose little-endian bytes are `b0 b1 b2 b3`.
pub open spec fn u32_from_le(b0: u8, b1: u8, b2: u8, b3: u8) -> u32 {
    (b0 as u32) | ((b1 as u32) << 8u32) | ((b2 as u32) << 16u32) | ((b3 as u32) << 24u32)
}

/// One framed record.
pub open spec fn frame(payload: Seq<u8>) -> Seq<u8> {
    u32_le_bytes(payload.len() as u32) + payload
}

/// The framed records, one after another.
pub open spec fn frames(records: Seq<Seq<u8>>) -> Seq<u8>
    decreases records.len(),
{
    if records.len() == 0 {
        Seq::empty()
    } else {
        frame(records[0]) + frames(records.drop_first())
    }
}

/// Records read from a log. Fewer than four bytes left end the log; a
/// header with a length of 0 or above the maximum, or a payload cut short,
/// is an error.
pub open spec fn parse_log(bytes: Seq<u8>) -> Result<Seq<Seq<u8>>, LogFrameError>
    decreases bytes.len(),
{
    if bytes.len() < 4 {
        Ok(Seq::empty())
    } else {
        let n = u32_from_le(bytes[0], bytes[1], bytes[2], bytes[3]);
        if n == 0 || n > MAX_RECORD_BYTES {
            Err(LogFrameError::InvalidLength(n))
        } else if bytes.len() < 4 + n {
            Err(LogFrameError::Truncated)
        } else {
            match parse_log(bytes.subrange(4 + n, bytes.len() as int)) {
                Ok(rest) => Ok(seq![bytes.subrange(4, 4 + n)] + rest),
                Err(e) => Err(e),
            }
        }
    }
}

/// `records` in front of what a parse gave.
pub open spec fn prepend(records: Seq<Seq<u8>>, r: Result<Seq<Seq<u8>>, LogFrameError>) -> Result<
    Seq<Seq<u8>>,
    LogFrameError,
> {
    match r {
        Ok(rest) => Ok(records + rest),
        Err(e) => Err(e),
    }
}

pub proof fn lemma_u32_le_roundtrip(n: u32)
    ensures
        u32_from_le(
            u32_le_bytes(n)[0],
            u32_le_bytes(n)[1],
            u32_le_bytes(n)[2],
            u32_le_bytes(n)[3],
        ) == n,
{
    assert(((n & 0xff) as u8) as u32 | (((((n >> 8u32) & 0xff) as u8) as u32) << 8u32) | (((((n
        >> 16u32) & 0xff) as u8) as u32) << 16u32) | (((((n >> 24u32) & 0xff) as u8) as u32)
        << 24u32) == n) by (bit_vector);
}

fn u32_to_le(n: u32) -> (b: [u8; 4])
    ensures
        b@ == u32_le_bytes(n),
{
    let b = [
        (n & 0xff) as u8,
        ((n >> 8u32) & 0xff) as u8,
        ((n >> 16u32) & 0xff) as u8,
        ((n >> 24u32) & 0xff) as u8,
    ];
    assert(b@ =~= u32_le_bytes(n));
    b
}

fn read_u32_le(bytes: &[u8], pos: usize) -> (n: u32)
    requires
        pos + 4 <= bytes@.len(),
    ensures
        n == u32_from_le(bytes@[pos as int], bytes@[pos + 1], bytes@[pos + 2], bytes@[pos + 3]),
{
    (bytes[pos] as u32) | ((bytes[pos + 1] as u32) << 8u32) | ((bytes[pos + 2] as u32) << 16u32)
        | ((bytes[pos + 3] as u32) << 24u32)
}

/// Frame one payload; payloads above `MAX_RECORD_BYTES` are refused.
pub fn frame_record(payload: &[u8]) -> (r: Result<Vec<u8>, LogFrameError>)
    ensures
        payload@.len() > MAX_RECORD_BYTES ==> r == Err::<Vec<u8>, LogFrameError>(
            LogFrameError::RecordTooLarge,
        ),
        payload@.len() <= MAX_RECORD_BYTES ==> (r matches Ok(v) && v@ == frame(payload@)),
{
    if payload.len() > MAX_RECORD_BYTES {
        return Err(LogFrameError::RecordTooLarge);
    }
    let len = payload.len() as u32;
    let head = u32_to_le(len);
    let mut out: Vec<u8> = Vec::new();
    out.push(head[0]);
    out.push(head[1]);
    out.push(head[2]);
    out.push(head[3]);
    let mut i: usize = 0;
    while i < payload.len()
        invariant
            i <= payload@.len(),
            payload@.len() <= MAX_RECORD_BYTES,
            len == payload@.len(),
            out@ == u32_le_bytes(len) + payload@.subrange(0, i as int),
        decreases payload.len() - i,
    {
        out.push(payload[i]);
        i += 1;
        assert(out@ =~= u32_le_bytes(len) + payload@.subrange(0, i as int));
    }
    assert(payload@.subrange(0, payload@.len() as int) =~= payload@);
    Ok(out)
}

fn copy_range(bytes: &[u8], from: usize, to: usize) -> (v: Vec<u8>)
    requires
        from <= to <= bytes@.len(),
    ensures
        v@ == bytes@.subrange(from as int, to as int),
{
    let mut v: Vec<u8> = Vec::new();
    let mut i = from;
    while i < to
        invariant
            from <= i <= to,
            to <= bytes@.len(),
            v@ == bytes@.subrange(from as int, i as int),
        decreases to - i,
    {
        v.push(bytes[i]);
        i += 1;
        assert(v@ =~= bytes@.subrange(from as int, i as int));
    }
    v
}

/// Split a log into its record payloads, as `parse_log` reads it.
pub fn split_records(log: &[u8]) -> (r: Result<Vec<Vec<u8>>, LogFrameError>)
    ensures
        r matches Ok(v) ==> parse_log(log@) == Ok::<Seq<Seq<u8>>, LogFrameError>(v.deep_view()),
        r matches Err(e) ==> parse_log(log@) == Err::<Seq<Seq<u8>>, LogFrameError>(e),
{
    let mut out: Vec<Vec<u8>> = Vec::new();
    let mut pos: usize = 0;
    assert(log@.subrange(0, log@.len() as int) =~= log@);
    assert(out.deep_view() =~= Seq::<Seq<u8>>::empty());
    while log.len() - pos >= 4
        invariant
            pos <= log@.len(),
            parse_log(log@) == prepend(
                out.deep_view(),
                parse_log(log@.subrange(pos as int, log@.len() as int)),
            ),
        decreases log.len() - pos,
    {
        let ghost rest = log@.subrange(pos as int, log@.len() as int);
        let n = read_u32_le(log, pos);
        assert(n == u32_from_le(rest[0], rest[1], rest[2], rest[3]));
        if n == 0 || n > MAX_RECORD_BYTES as u32 {
            return Err(LogFrameError::InvalidLength(n));
        }
        let len = n as usize;
        if log.len() - pos - 4 < len {
            return Err(LogFrameError::Truncated);
        }
        let rec = copy_range(log, pos + 4, pos + 4 + len);
        let ghost before = out.deep_view();
        let ghost old_out = out@;
        out.push(rec);
        proof {
            assert(out@ == old_out.push(rec));
            assert forall|i: int| 0 <= i < out.deep_view().len() implies out.deep_view()[i]
                == before.push(rec@)[i] by {
                if i < before.len() {
                    assert(out@[i] == old_out[i]);
                }
            }
            assert(rest.subrange(4, 4 + n) =~= rec@);
            assert(rest.subrange(4 + n, rest.len() as int) =~= log@.subrange(
                pos + 4 + len,
                log@.len() as int,
            ));
            assert(out.deep_view() =~= before.push(rec@));
            match parse_log(log@.subrange(pos + 4 + len, log@.len() as int)) {
                Ok(tail) => {
                    assert(before + (seq![rec@] + tail) =~= before.push(rec@) + tail);
                },
                Err(e) => {},
            }
        }
        pos = pos + 4 + len;
    }
    assert(log@.subrange(pos as int, log@.len() as int).len() < 4);
    assert(out.deep_view() + Seq::<Seq<u8>>::empty() =~= out.deep_view());
    Ok(out)
}

/// A log that starts with a framed record of 1 to `MAX_RECORD_BYTES` bytes
/// reads as that record followed by the rest of the log.
pub proof fn lemma_parse_after_frame(payload: Seq<u8>, tail: Seq<u8>)
    requires
        1 <= payload.len() <= MAX_RECORD_BYTES,
    ensures
        parse_log(frame(payload) + tail) == prepend(seq![payload], parse_log(tail)),
{
    let n = payload.len() as u32;
    assert(n == payload.len());
    lemma_u32_le_roundtrip(n);
    let head = u32_le_bytes(n);
    let bytes = frame(payload) + tail;
    assert(bytes.len() == 4 + n + tail.len());
    assert(bytes[0] == head[0]);
    assert(bytes[1] == head[1]);
    assert(bytes[2] == head[2]);
    assert(bytes[3] == head[3]);
    assert(u32_from_le(bytes[0], bytes[1], bytes[2], bytes[3]) == n);
    assert(bytes.subrange(4, 4 + n) =~= payload);
    assert(bytes.subrange(4 + n, bytes.len() as int) =~= tail);
}

/// Reading a log written as framed records gives back exactly those records,
/// for every record of 1 to `MAX_RECORD_BYTES` bytes.
pub proof fn law_split_reads_back_frames(records: Seq<Seq<u8>>)
    requires
        forall|i: int|
            0 <= i < records.len() ==> 1 <= (#[trigger] records[i]).len() <= MAX_RECORD_BYTES,
    ensures
        parse_log(frames(records)) == Ok::<Seq<Seq<u8>>, LogFrameError>(records),
    decreases records.len(),
{
    if records.len() == 0 {
        assert(frames(records).len() == 0);
        assert(records =~= Seq::<Seq<u8>>::empty());
    } else {
        let r0 = records[0];
        let rest = records.drop_first();
        assert forall|i: int| 0 <= i < rest.len() implies 1 <= (#[trigger] rest[i]).len()
            <= MAX_RECORD_BYTES by {
            assert(rest[i] == records[i + 1]);
        }
        law_split_reads_back_frames(rest);
        lemma_parse_after_frame(r0, frames(rest));
        assert(seq![r0] + rest =~= records);
    }
}

/// A framed record reads back as itself when its payload has 1 to
/// `MAX_RECORD_BYTES` bytes; an empty payload reads back as an error.
pub proof fn law_single_frame_roundtrip(payload: Seq<u8>)
    requires
        payload.len() <= MAX_RECORD_BYTES,
    ensures
        payload.len() >= 1 ==> parse_log(frame(payload)) == Ok::<Seq<Seq<u8>>, LogFrameError>(
            seq![payload],
        ),
        payload.len() == 0 ==> parse_log(frame(payload)) == Err::<Seq<Seq<u8>>, LogFrameError>(
            LogFrameError::InvalidLength(0),
        ),
{
    if payload.len() >= 1 {
        lemma_parse_after_frame(payload, Seq::empty());
        assert(frame(payload) + Seq::<u8>::empty() =~= frame(payload));
        assert(seq![payload] + Seq::<Seq<u8>>::empty() =~= seq![payload]);
    } else {
        lemma_u32_le_roundtrip(0);
        let bytes = frame(payload);
        assert(bytes[0] == u32_le_bytes(0)[0]);
        assert(bytes[1] == u32_le_bytes(0)[1]);
        assert(bytes[2] == u32_le_bytes(0)[2]);
        assert(bytes[3] == u32_le_bytes(0)[3]);
    }
}

} // verus!

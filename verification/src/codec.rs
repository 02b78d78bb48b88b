use vstd::prelude::*;

use bytes::BytesMut;
use crate::bytesbuf::{byte_contents, bytes_extend, bytes_slice, bytes_split_to};
use crate::utf8::{is_valid_utf8, valid_utf8};

verus! {

// ---------------------------------------------------------------------------
// Sensor codec: binary frames bounded by the 2-byte marker 0xA5 0x5A.
// ---------------------------------------------------------------------------

/// The two bytes at offset `i` of `s` are the synchronization marker.
pub open spec fn is_sync_at(s: Seq<u8>, i: int) -> bool {
    0 <= i && i + 2 <= s.len() && s[i] == 0xa5u8 && s[i + 1] == 0x5au8
}

/// Offset of the first synchronization marker in `s`; `s.len()` when there is
/// none.
pub open spec fn sync_pos(s: Seq<u8>) -> nat
    decreases s.len(),
{
    if s.len() < 2 {
        s.len() as nat
    } else if s[0] == 0xa5u8 && s[1] == 0x5au8 {
        0
    } else {
        1 + sync_pos(s.skip(1))
    }
}

/// `s` holds a complete synchronization marker.
pub open spec fn has_sync(s: Seq<u8>) -> bool {
    sync_pos(s) + 2 <= s.len()
}

/// The sample carried by a frame whose marker stands at offset 5: the bytes at
/// offsets 2 and 3 are (high, low) of `high * 256 + low`.
pub open spec fn frame_value(s: Seq<u8>) -> u32
    recommends
        s.len() >= 4,
{
    ((s[2] as int) * 256 + (s[3] as int)) as u32
}

/// `sync_pos` names the offset of the first marker: there is a marker there,
/// and none before it; when `has_sync` fails there is no marker at all and
/// `sync_pos` equals the length.
pub proof fn lemma_sync_pos_char(s: Seq<u8>)
    ensures
        sync_pos(s) <= s.len(),
        has_sync(s) ==> is_sync_at(s, sync_pos(s) as int),
        forall|j: int| 0 <= j < sync_pos(s) ==> !is_sync_at(s, j),
        !has_sync(s) ==> sync_pos(s) == s.len(),
    decreases s.len(),
{
    if s.len() < 2 {
    } else if s[0] == 0xa5u8 && s[1] == 0x5au8 {
    } else {
        lemma_sync_pos_char(s.skip(1));
        assert forall|j: int| 0 <= j < sync_pos(s) implies !is_sync_at(s, j) by {
            if j > 0 {
                assert(s.skip(1)[j - 1] == s[j]);
                if j + 1 < s.len() {
                    assert(s.skip(1)[j] == s[j + 1]);
                }
                assert(!is_sync_at(s.skip(1), j - 1));
            }
        }
        if has_sync(s) {
            let n = sync_pos(s.skip(1)) as int;
            assert(s.skip(1)[n] == s[n + 1]);
            assert(s.skip(1)[n + 1] == s[n + 2]);
        }
    }
}

/// A marker in a prefix is the first marker of any extension: appending bytes
/// never moves an already-found frame boundary.
pub proof fn lemma_sync_pos_prefix(s1: Seq<u8>, s2: Seq<u8>)
    requires
        has_sync(s1),
    ensures
        sync_pos(s1 + s2) == sync_pos(s1),
        has_sync(s1 + s2),
    decreases s1.len(),
{
    let s = s1 + s2;
    assert(s.len() == s1.len() + s2.len());
    assert(s[0] == s1[0] && s[1] == s1[1]);
    if s1[0] == 0xa5u8 && s1[1] == 0x5au8 {
    } else {
        assert(has_sync(s1.skip(1))) by {
            assert(sync_pos(s1) == 1 + sync_pos(s1.skip(1)));
        }
        lemma_sync_pos_prefix(s1.skip(1), s2);
        assert(s.skip(1) =~= s1.skip(1) + s2);
    }
}

/// Everything the sensor decoder emits, and the bytes it leaves behind, when
/// the buffer `s` is decoded until no marker is left: the pair of the emitted
/// samples in order and the residual bytes.
pub open spec fn sensor_drain(s: Seq<u8>) -> (Seq<u32>, Seq<u8>)
    decreases s.len(),
{
    if has_sync(s) {
        let n = sync_pos(s) as int;
        let rest = sensor_drain(s.skip(n + 2));
        if n == 5 {
            (seq![frame_value(s)] + rest.0, rest.1)
        } else {
            rest
        }
    } else {
        (Seq::empty(), s)
    }
}

/// Framing is chunk-size independent: decoding a buffer, then decoding what
/// is left once more bytes have arrived, emits exactly the samples of
/// decoding everything at once, and leaves the same residual bytes. Feeding
/// the stream a byte at a time hence emits the same samples as feeding it
/// whole.
pub proof fn lemma_sensor_drain_append(s1: Seq<u8>, s2: Seq<u8>)
    ensures
        (sensor_drain(s1 + s2)).0 == (sensor_drain(s1)).0 + (sensor_drain(
            (sensor_drain(s1)).1 + s2,
        )).0,
        (sensor_drain(s1 + s2)).1 == (sensor_drain((sensor_drain(s1)).1 + s2)).1,
    decreases s1.len(),
{
    if has_sync(s1) {
        let n = sync_pos(s1) as int;
        lemma_sync_pos_prefix(s1, s2);
        assert((s1 + s2).skip(n + 2) =~= s1.skip(n + 2) + s2);
        lemma_sensor_drain_append(s1.skip(n + 2), s2);
        if n == 5 {
            assert(frame_value(s1 + s2) == frame_value(s1));
            assert(seq![frame_value(s1)] + ((sensor_drain(s1.skip(n + 2))).0 + (sensor_drain(
                (sensor_drain(s1.skip(n + 2))).1 + s2,
            )).0) =~= (seq![frame_value(s1)] + (sensor_drain(s1.skip(n + 2))).0) + (sensor_drain(
                (sensor_drain(s1.skip(n + 2))).1 + s2,
            )).0);
        }
    } else {
        assert((sensor_drain(s1)).1 == s1);
        assert((sensor_drain(s1)).0 + (sensor_drain(s1 + s2)).0 =~= (sensor_drain(s1 + s2)).0);
    }
}

/// The bytes the decoder leaves behind never hold a marker: everything up to
/// the last marker has been consumed.
pub proof fn lemma_drain_residual_no_sync(s: Seq<u8>)
    ensures
        !has_sync((sensor_drain(s)).1),
    decreases s.len(),
{
    if has_sync(s) {
        lemma_drain_residual_no_sync(s.skip(sync_pos(s) as int + 2));
    }
}

/// All the chunks of `chunks`, in order, as one byte sequence.
pub open spec fn concat_chunks(chunks: Seq<Seq<u8>>) -> Seq<u8>
    decreases chunks.len(),
{
    if chunks.len() == 0 {
        Seq::empty()
    } else {
        chunks[0] + concat_chunks(chunks.skip(1))
    }
}

/// What an incremental decoder emits: starting from the residual bytes
/// `resid`, each chunk is appended and decoded until no marker is left, and
/// the emissions of all rounds are chained.
pub open spec fn drain_chunks(resid: Seq<u8>, chunks: Seq<Seq<u8>>) -> (Seq<u32>, Seq<u8>)
    decreases chunks.len(),
{
    if chunks.len() == 0 {
        (Seq::empty(), resid)
    } else {
        let first = sensor_drain(resid + chunks[0]);
        let rest = drain_chunks(first.1, chunks.skip(1));
        (first.0 + rest.0, rest.1)
    }
}

/// Decoding a stream chunk by chunk, however it is cut — a byte at a time
/// included — emits exactly the samples of decoding all of it at once, and
/// leaves the same residual bytes.
pub proof fn lemma_sensor_chunking(resid: Seq<u8>, chunks: Seq<Seq<u8>>)
    requires
        !has_sync(resid),
    ensures
        (drain_chunks(resid, chunks)).0 == (sensor_drain(resid + concat_chunks(chunks))).0,
        (drain_chunks(resid, chunks)).1 == (sensor_drain(resid + concat_chunks(chunks))).1,
    decreases chunks.len(),
{
    if chunks.len() == 0 {
        assert(resid + concat_chunks(chunks) =~= resid);
    } else {
        let first = sensor_drain(resid + chunks[0]);
        lemma_drain_residual_no_sync(resid + chunks[0]);
        lemma_sensor_chunking(first.1, chunks.skip(1));
        lemma_sensor_drain_append(resid + chunks[0], concat_chunks(chunks.skip(1)));
        assert(resid + concat_chunks(chunks) =~= (resid + chunks[0]) + concat_chunks(
            chunks.skip(1),
        ));
    }
}

/// Build a sample from the (high, low) payload bytes of a sensor frame.
pub fn makeval(high: u8, low: u8) -> (r: u32)
    ensures
        r == (high as u32) * 256 + (low as u32),
        r <= 65535,
{
    let h: u32 = high as u32;
    let l: u32 = low as u32;
    h * 256 + l
}

/// One decode attempt on the sensor buffer. Scans for the marker; consumes
/// through it when found; yields the frame's sample only when exactly five
/// bytes preceded the marker, and silently discards a wrongly spaced frame.
/// With no marker present the buffer is left untouched and no item is due.
pub fn sensor_decode(src: &mut BytesMut) -> (r: Option<u32>)
    ensures
        !has_sync(byte_contents(*old(src))) ==> {
            &&& byte_contents(*final(src)) == byte_contents(*old(src))
            &&& r is None
        },
        has_sync(byte_contents(*old(src))) ==> {
            let c0 = byte_contents(*old(src));
            let n = sync_pos(c0) as int;
            &&& byte_contents(*final(src)) == c0.skip(n + 2)
            &&& r == (if n == 5 {
                Some(frame_value(c0))
            } else {
                None::<u32>
            })
        },
{
    let ghost c0 = byte_contents(*src);
    proof {
        lemma_sync_pos_char(c0);
    }
    let pos = {
        let s = bytes_slice(src);
        let len = s.len();
        let mut i: usize = 0;
        let mut found: Option<usize> = None;
        while len > 0 && i < len - 1 && found.is_none()
            invariant
                len == c0.len(),
                s@ == c0,
                i <= len,
                forall|j: int| 0 <= j < i ==> !is_sync_at(c0, j),
                found matches Some(p) ==> i + 1 < len && p == i && is_sync_at(c0, i as int),
            decreases len - i + (if found is None { 1int } else { 0int }),
        {
            if s[i] == 0xa5 && s[i + 1] == 0x5a {
                found = Some(i);
            } else {
                i = i + 1;
            }
        }
        found
    };
    match pos {
        Some(n) => {
            proof {
                assert(is_sync_at(c0, n as int));
                assert(has_sync(c0)) by {
                    if !has_sync(c0) {
                        assert(!is_sync_at(c0, n as int));
                    }
                }
                assert(is_sync_at(c0, sync_pos(c0) as int));
                assert(sync_pos(c0) == n);
            }
            let packet = bytes_split_to(src, n + 2);
            if n == 5 {
                let p = bytes_slice(&packet);
                assert(p@[2] == c0[2] && p@[3] == c0[3]);
                Some(makeval(p[2], p[3]))
            } else {
                None
            }
        },
        None => {
            proof {
                if has_sync(c0) {
                    let n = sync_pos(c0) as int;
                    assert(is_sync_at(c0, n));
                    assert(n + 1 < c0.len());
                }
            }
            None
        },
    }
}

// ---------------------------------------------------------------------------
// Actuator codec: newline-delimited UTF-8 text lines.
// ---------------------------------------------------------------------------

/// A fatal protocol fault on the actuator connection.
#[derive(Clone, Copy, Debug, PartialEq, Eq, Structural)]
pub enum ProtocolError {
    /// A newline-terminated line held bytes that are not valid UTF-8.
    InvalidEncoding,
}

/// Offset of the first newline byte in `s`; `s.len()` when there is none.
pub open spec fn nl_pos(s: Seq<u8>) -> nat
    decreases s.len(),
{
    if s.len() == 0 {
        0
    } else if s[0] == 10u8 {
        0
    } else {
        1 + nl_pos(s.skip(1))
    }
}

/// `s` holds a newline byte.
pub open spec fn has_nl(s: Seq<u8>) -> bool {
    nl_pos(s) < s.len()
}

/// `nl_pos` names the offset of the first newline: a newline stands there,
/// and none before it; when `has_nl` fails no byte of `s` is a newline.
pub proof fn lemma_nl_pos_char(s: Seq<u8>)
    ensures
        nl_pos(s) <= s.len(),
        has_nl(s) ==> s[nl_pos(s) as int] == 10u8,
        forall|j: int| 0 <= j < nl_pos(s) && j < s.len() ==> s[j] != 10u8,
        !has_nl(s) ==> nl_pos(s) == s.len(),
    decreases s.len(),
{
    if s.len() == 0 {
    } else if s[0] == 10u8 {
    } else {
        lemma_nl_pos_char(s.skip(1));
        assert forall|j: int| 0 <= j < nl_pos(s) && j < s.len() implies s[j] != 10u8 by {
            if j > 0 {
                assert(s.skip(1)[j - 1] == s[j]);
            }
        }
        if has_nl(s) {
            assert(s.skip(1)[nl_pos(s.skip(1)) as int] == s[nl_pos(s) as int]);
        }
    }
}

/// One decode attempt on the actuator's inbound buffer. Scans for a newline;
/// when one is found the line through it is consumed and returned, unless its
/// bytes are not valid UTF-8, which is a fatal protocol error (the line is
/// consumed either way). With no newline the buffer is left untouched and no
/// item is due.
pub fn actuator_decode(src: &mut BytesMut) -> (r: Result<Option<Vec<u8>>, ProtocolError>)
    ensures
        !has_nl(byte_contents(*old(src))) ==> {
            &&& byte_contents(*final(src)) == byte_contents(*old(src))
            &&& r == Ok::<Option<Vec<u8>>, ProtocolError>(None)
        },
        has_nl(byte_contents(*old(src))) ==> {
            let c0 = byte_contents(*old(src));
            let line = c0.take(nl_pos(c0) as int + 1);
            &&& byte_contents(*final(src)) == c0.skip(nl_pos(c0) as int + 1)
            &&& (valid_utf8(line) ==> (r matches Ok(o) && o matches Some(l) && l@ == line))
            &&& (!valid_utf8(line) ==> r == Err::<Option<Vec<u8>>, ProtocolError>(
                ProtocolError::InvalidEncoding,
            ))
        },
{
    let ghost c0 = byte_contents(*src);
    proof {
        lemma_nl_pos_char(c0);
    }
    let pos = {
        let s = bytes_slice(src);
        let len = s.len();
        let mut i: usize = 0;
        let mut found: Option<usize> = None;
        while i < len && found.is_none()
            invariant
                len == c0.len(),
                s@ == c0,
                i <= len,
                forall|j: int| 0 <= j < i ==> c0[j] != 10u8,
                found matches Some(p) ==> i < len && p == i && c0[i as int] == 10u8,
            decreases len - i + (if found is None { 1int } else { 0int }),
        {
            if s[i] == 10 {
                found = Some(i);
            } else {
                i = i + 1;
            }
        }
        found
    };
    match pos {
        Some(n) => {
            proof {
                assert(has_nl(c0) && nl_pos(c0) == n) by {
                    if nl_pos(c0) < n {
                        assert(c0[nl_pos(c0) as int] != 10u8);
                    }
                }
            }
            let packet = bytes_split_to(src, n + 1);
            let p = bytes_slice(&packet);
            if is_valid_utf8(p) {
                let mut line: Vec<u8> = Vec::new();
                let mut k: usize = 0;
                let plen = p.len();
                while k < plen
                    invariant
                        plen == p@.len(),
                        k <= plen,
                        line@ == p@.take(k as int),
                    decreases plen - k,
                {
                    line.push(p[k]);
                    proof {
                        assert(p@.take(k as int).push(p@[k as int]) =~= p@.take(k + 1));
                    }
                    k = k + 1;
                }
                proof {
                    assert(p@.take(plen as int) =~= p@);
                }
                Ok(Some(line))
            } else {
                Err(ProtocolError::InvalidEncoding)
            }
        },
        None => {
            proof {
                if has_nl(c0) {
                    assert(c0[nl_pos(c0) as int] == 10u8);
                }
            }
            Ok(None)
        },
    }
}

/// Encode one outbound line: append the line's bytes and a terminating
/// newline at the end of the outbound buffer. Never fails.
pub fn actuator_encode(msg: &[u8], buf: &mut BytesMut)
    ensures
        byte_contents(*final(buf)) == byte_contents(*old(buf)) + msg@ + seq![10u8],
{
    let ghost b0 = byte_contents(*buf);
    bytes_extend(buf, msg);
    let nl: [u8; 1] = [10u8];
    bytes_extend(buf, nl.as_slice());
    proof {
        assert(nl@ =~= seq![10u8]);
        assert(b0 + msg@ + nl@ =~= (b0 + msg@) + nl@);
    }
}

/// The acknowledgment line the actuator sends: the exact bytes of `"OK\r\n"`.
pub open spec fn ack_line() -> Seq<u8> {
    seq![79u8, 75u8, 13u8, 10u8]
}

/// Decide whether a decoded line is exactly the acknowledgment line; every
/// other line is ignored by the control logic.
pub fn is_ack(line: &[u8]) -> (r: bool)
    ensures
        r == (line@ == ack_line()),
{
    if line.len() == 4 && line[0] == 79 && line[1] == 75 && line[2] == 13 && line[3] == 10 {
        proof {
            assert(line@ =~= ack_line());
        }
        true
    } else {
        proof {
            if line@ == ack_line() {
                assert(line@.len() == 4);
                assert(line@[0] == 79u8 && line@[1] == 75u8 && line@[2] == 13u8 && line@[3]
                    == 10u8);
            }
        }
        false
    }
}

} // verus!

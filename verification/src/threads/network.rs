//! Binary WebSocket framing: every binary message starts with a 4-byte little-endian type
//! header (0 = waterfall row, 1 = RX audio, 2 = TX audio from the client, 3 = raw I/Q).
use vstd::prelude::*;

verus! {

/// Header type of a waterfall row (server to client).
pub const FRAME_WATERFALL: u8 = 0;
/// Header type of RX audio (server to client).
pub const FRAME_RX_AUDIO: u8 = 1;
/// Header type of TX audio (client to server).
pub const FRAME_TX_AUDIO: u8 = 2;
/// Header type of the raw wideband I/Q stream (server to client).
pub const FRAME_IQ: u8 = 3;

/// The little-endian value of four bytes.
pub open spec fn le_u32(b0: u8, b1: u8, b2: u8, b3: u8) -> int {
    b0 + 256 * b1 + 65536 * b2 + 16777216 * b3
}

/// How a binary message from a client is handled.
#[derive(Clone, Copy, Debug, PartialEq, Eq, Structural)]
pub enum ClientFrame {
    /// Fewer than four bytes: no header (logged and dropped).
    Short { len: usize },
    /// A header other than TX audio (logged and dropped).
    UnknownHeader { header: u32 },
    /// TX audio whose payload is not a whole number of 32-bit samples (logged and dropped).
    RaggedAudio { payload_len: usize },
    /// TX audio: the bytes after the header are little-endian `f32` samples.
    TxAudio { samples: usize },
}

/// The classification a binary client message receives.
pub open spec fn client_frame_kind(bytes: Seq<u8>) -> ClientFrame {
    if bytes.len() < 4 {
        ClientFrame::Short { len: bytes.len() as usize }
    } else if le_u32(bytes[0], bytes[1], bytes[2], bytes[3]) != FRAME_TX_AUDIO as int {
        ClientFrame::UnknownHeader { header: le_u32(bytes[0], bytes[1], bytes[2], bytes[3]) as u32 }
    } else if (bytes.len() - 4) % 4 != 0 {
        ClientFrame::RaggedAudio { payload_len: (bytes.len() - 4) as usize }
    } else {
        ClientFrame::TxAudio { samples: ((bytes.len() - 4) / 4) as usize }
    }
}

/// Classifies a binary message from a client by its header and payload length.
pub fn classify_client_frame(bytes: &[u8]) -> (r: ClientFrame)
    ensures
        r == client_frame_kind(bytes@),
{
    if bytes.len() < 4 {
        return ClientFrame::Short { len: bytes.len() };
    }
    let header: u32 = (bytes[0] as u32) | ((bytes[1] as u32) << 8) | ((bytes[2] as u32) << 16) | ((
    bytes[3] as u32) << 24);
    let (b0, b1, b2, b3) = (bytes[0], bytes[1], bytes[2], bytes[3]);
    assert(((b0 as u32) | ((b1 as u32) << 8) | ((b2 as u32) << 16) | ((b3 as u32) << 24)) == b0 + 256
        * b1 + 65536 * b2 + 16777216 * b3) by (bit_vector);
    if header != FRAME_TX_AUDIO as u32 {
        return ClientFrame::UnknownHeader { header };
    }
    let payload_len = bytes.len() - 4;
    if payload_len % 4 != 0 {
        ClientFrame::RaggedAudio { payload_len }
    } else {
        ClientFrame::TxAudio { samples: payload_len / 4 }
    }
}

/// A binary message: the 4-byte header of `kind` followed by the payload.
pub open spec fn framed(kind: u8, payload: Seq<u8>) -> Seq<u8> {
    seq![kind, 0u8, 0u8, 0u8] + payload
}

/// Prefixes a payload with the 4-byte header of its type.
pub fn frame_with_header(kind: u8, payload: &[u8]) -> (r: Vec<u8>)
    ensures
        r@ == framed(kind, payload@),
{
    let mut out: Vec<u8> = Vec::with_capacity(4);
    out.push(kind);
    out.push(0);
    out.push(0);
    out.push(0);
    let mut k: usize = 0;
    while k < payload.len()
        invariant
            0 <= k <= payload.len(),
            out@ == seq![kind, 0u8, 0u8, 0u8] + payload@.subrange(0, k as int),
        decreases payload.len() - k,
    {
        out.push(payload[k]);
        assert(payload@.subrange(0, k + 1) =~= payload@.subrange(0, k as int).push(payload@[k as int]));
        k = k + 1;
    }
    assert(payload@.subrange(0, payload.len() as int) =~= payload@);
    out
}

/// A client frame built with the TX audio header and whole 32-bit samples is accepted as TX
/// audio with that many samples.
pub proof fn lemma_tx_audio_frame_accepted(payload: Seq<u8>)
    requires
        payload.len() % 4 == 0,
        payload.len() + 4 <= usize::MAX,
    ensures
        client_frame_kind(framed(FRAME_TX_AUDIO, payload)) == (ClientFrame::TxAudio {
            samples: (payload.len() / 4) as usize,
        }),
{
    let f = framed(FRAME_TX_AUDIO, payload);
    assert(f[0] == 2 && f[1] == 0 && f[2] == 0 && f[3] == 0);
    assert(f.len() - 4 == payload.len());
}

/// Low byte of a sample's little-endian encoding.
pub open spec fn le_lo(x: i16) -> u8 {
    (x as u16 & 0xff) as u8
}

/// High byte of a sample's little-endian encoding.
pub open spec fn le_hi(x: i16) -> u8 {
    (x as u16 >> 8) as u8
}

/// The raw I/Q stream payload: samples interleaved I0, Q0, I1, Q1, ... as little-endian i16,
/// over the pairs both channels have.
pub open spec fn iq_stream_payload(i: Seq<i16>, q: Seq<i16>) -> Seq<u8> {
    let n = if i.len() < q.len() { i.len() } else { q.len() };
    Seq::new(
        4 * n,
        |b: int|
            {
                let k = b / 4;
                let r = b % 4;
                if r == 0 {
                    le_lo(i[k])
                } else if r == 1 {
                    le_hi(i[k])
                } else if r == 2 {
                    le_lo(q[k])
                } else {
                    le_hi(q[k])
                }
            },
    )
}

/// Serializes a wideband burst for the raw I/Q stream.
pub fn iq_stream_bytes(i: &[i16], q: &[i16]) -> (r: Vec<u8>)
    ensures
        r@ == iq_stream_payload(i@, q@),
{
    let n = if i.len() < q.len() { i.len() } else { q.len() };
    let mut out: Vec<u8> = Vec::new();
    let mut k: usize = 0;
    while k < n
        invariant
            0 <= k <= n,
            n == if i@.len() < q@.len() { i@.len() } else { q@.len() },
            out@.len() == 4 * k,
            forall|b: int| 0 <= b < 4 * k ==> out@[b] == iq_stream_payload(i@, q@)[b],
        decreases n - k,
    {
        let iu = i[k] as u16;
        let qu = q[k] as u16;
        out.push((iu & 0xff) as u8);
        out.push((iu >> 8) as u8);
        out.push((qu & 0xff) as u8);
        out.push((qu >> 8) as u8);
        proof {
            assert forall|b: int| 4 * k <= b < 4 * k + 4 implies out@[b] == iq_stream_payload(
                i@,
                q@,
            )[b] by {
                assert(b / 4 == k as int);
            }
        }
        k = k + 1;
    }
    assert(out@ =~= iq_stream_payload(i@, q@));
    out
}

/// Each sample of the I/Q stream is recovered from its two little-endian bytes.
pub proof fn lemma_le_bytes_recover_sample(x: i16)
    ensures
        ((((le_hi(x) as u16) << 8u16) | (le_lo(x) as u16)) as i16) == x,
{
    assert(((((((x as u16) >> 8u16) as u8) as u16) << 8u16) | ((((x as u16) & 0xffu16) as u8)
        as u16)) as i16 == x) by (bit_vector);
}

} // verus!

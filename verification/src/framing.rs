//! Byte framing of the consumer's output: each frame is sent as a boundary
//! line, a content-type header, a blank line, the frame's bytes and a newline.

use vstd::prelude::*;

verus! {

/// ASCII `-`, two of which open a boundary line.
pub const DASH: u8 = 45;

/// ASCII line feed.
pub const NEWLINE: u8 = 10;

/// The bytes of `"\nContent-Type: image/jpg\n\n"`: the end of the boundary
/// line, the header line and the blank line.
pub open spec fn content_type_header() -> Seq<u8> {
    seq![
        10u8, 67u8, 111u8, 110u8, 116u8, 101u8, 110u8, 116u8, 45u8, 84u8, 121u8, 112u8, 101u8,
        58u8, 32u8, 105u8, 109u8, 97u8, 103u8, 101u8, 47u8, 106u8, 112u8, 103u8, 10u8, 10u8,
    ]
}

/// What precedes a frame's bytes: `--`, the boundary token, then the header.
pub open spec fn preamble(boundary: Seq<u8>) -> Seq<u8> {
    seq![DASH, DASH] + boundary + content_type_header()
}

/// What follows a frame's bytes.
pub open spec fn trailer() -> Seq<u8> {
    seq![NEWLINE]
}

/// One frame as it appears in the output stream.
pub open spec fn chunk(boundary: Seq<u8>, payload: Seq<u8>) -> Seq<u8> {
    preamble(boundary) + payload + trailer()
}

/// The output for a run of frames: their chunks, one after the other.
pub open spec fn stream(boundary: Seq<u8>, payloads: Seq<Seq<u8>>) -> Seq<u8>
    decreases payloads.len(),
{
    if payloads.len() == 0 {
        Seq::empty()
    } else {
        stream(boundary, payloads.drop_last()) + chunk(boundary, payloads.last())
    }
}

/// Builds the preamble for the given boundary token.
pub fn frame_preamble(boundary: &[u8]) -> (out: Vec<u8>)
    ensures
        out@ == preamble(boundary@),
{
    let mut out: Vec<u8> = vec![45u8, 45u8];
    out.extend_from_slice(boundary);
    let header: Vec<u8> = vec![
        10u8, 67u8, 111u8, 110u8, 116u8, 101u8, 110u8, 116u8, 45u8, 84u8, 121u8, 112u8, 101u8,
        58u8, 32u8, 105u8, 109u8, 97u8, 103u8, 101u8, 47u8, 106u8, 112u8, 103u8, 10u8, 10u8,
    ];
    out.extend_from_slice(header.as_slice());
    proof {
        assert(header@ =~= content_type_header());
        assert(out@ =~= preamble(boundary@));
    }
    out
}

/// Builds the trailer that closes every frame.
pub fn frame_trailer() -> (out: Vec<u8>)
    ensures
        out@ == trailer(),
{
    let out: Vec<u8> = vec![10u8];
    proof {
        assert(out@ =~= trailer());
    }
    out
}

/// Builds the whole chunk for one frame.
pub fn frame_chunk(boundary: &[u8], payload: &[u8]) -> (out: Vec<u8>)
    ensures
        out@ == chunk(boundary@, payload@),
{
    let mut out = frame_preamble(boundary);
    out.extend_from_slice(payload);
    let end = frame_trailer();
    out.extend_from_slice(end.as_slice());
    out
}

/// Appends one frame's chunk to what has been sent so far.
pub fn emit_frame(sent: &mut Vec<u8>, boundary: &[u8], payload: &[u8])
    ensures
        final(sent)@ == old(sent)@ + chunk(boundary@, payload@),
{
    let piece = frame_chunk(boundary, payload);
    sent.extend_from_slice(piece.as_slice());
}

/// Every chunk is laid out as `--`, the boundary token, the header, the
/// payload unchanged, and one newline, whatever bytes the payload holds: it may
/// be empty, and it may contain the boundary token.
pub proof fn lemma_chunk_layout(boundary: Seq<u8>, payload: Seq<u8>)
    ensures
        ({
            let c = chunk(boundary, payload);
            let b: int = 2 + boundary.len() as int;
            let h: int = b + content_type_header().len();
            &&& content_type_header().len() == 26
            &&& c.len() == h + payload.len() + 1
            &&& c.subrange(0, 2) == seq![DASH, DASH]
            &&& c.subrange(2, b) == boundary
            &&& c.subrange(b, h) == content_type_header()
            &&& c.subrange(h, h + payload.len()) == payload
            &&& c[h + payload.len()] == NEWLINE
        }),
{
    let c = chunk(boundary, payload);
    let b: int = 2 + boundary.len() as int;
    let h: int = b + content_type_header().len();
    assert(c.subrange(0, 2) =~= seq![DASH, DASH]);
    assert(c.subrange(2, b) =~= boundary);
    assert(c.subrange(b, h) =~= content_type_header());
    assert(c.subrange(h, h + payload.len()) =~= payload);
}

/// A chunk determines its payload: with one boundary token, two chunks are
/// equal only if their payloads are.
pub proof fn lemma_chunk_injective(boundary: Seq<u8>, first: Seq<u8>, second: Seq<u8>)
    requires
        chunk(boundary, first) == chunk(boundary, second),
    ensures
        first == second,
{
    lemma_chunk_layout(boundary, first);
    lemma_chunk_layout(boundary, second);
}

/// Sending one more frame appends exactly its chunk: chunks of successive
/// frames never interleave.
pub proof fn lemma_stream_push(boundary: Seq<u8>, payloads: Seq<Seq<u8>>, payload: Seq<u8>)
    ensures
        stream(boundary, payloads.push(payload)) == stream(boundary, payloads) + chunk(
            boundary,
            payload,
        ),
{
    assert(payloads.push(payload).drop_last() =~= payloads);
}

} // verus!

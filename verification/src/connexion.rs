//! The wire format. Every message is a frame: two big-endian 32-bit lengths,
//! the JSON text, then trailing bytes. The first length counts everything
//! after the two lengths, the second the JSON text alone.

use vstd::prelude::*;
use vstd::string::StringSliceAdditionalSpecFns;
use crate::compute::PixelIntensity;
use crate::error::ProtocolError;
use crate::json::{
    json_document, json_keyed, json_rendered, key_of, locate_task, lossy_text, message_text,
    task_in_parsed, MessageKind,
};
use vstd::utf8::encode_utf8;

verus! {

/// The four bytes of `x`, most significant first.
pub open spec fn be32(x: u32) -> Seq<u8> {
    seq![
        (x / 0x100_0000) as u8,
        ((x / 0x1_0000) % 0x100) as u8,
        ((x / 0x100) % 0x100) as u8,
        (x % 0x100) as u8,
    ]
}

/// The number that the first four bytes of `b` spell, most significant first.
pub open spec fn be32_value(b: Seq<u8>) -> int
    recommends
        b.len() >= 4,
{
    b[0] * 0x100_0000 + b[1] * 0x1_0000 + b[2] * 0x100 + b[3]
}

/// The bytes of a run of pixels: for each pixel in order, `zn` then `count`,
/// four bytes each, most significant first.
pub open spec fn pixel_payload(pixels: Seq<PixelIntensity>) -> Seq<u8>
    decreases pixels.len(),
{
    if pixels.len() == 0 {
        Seq::empty()
    } else {
        pixel_payload(pixels.drop_last()) + be32(pixels.last().zn) + be32(pixels.last().count)
    }
}

/// Whether a message of `json` followed by `trailing` fits the length fields.
pub open spec fn fits_frame(json: Seq<u8>, trailing: Seq<u8>) -> bool {
    json.len() + trailing.len() <= u32::MAX
}

/// The frame that carries `json` followed by `trailing`.
pub open spec fn frame(json: Seq<u8>, trailing: Seq<u8>) -> Seq<u8>
    recommends
        fits_frame(json, trailing),
{
    be32((json.len() + trailing.len()) as u32) + be32(json.len() as u32) + json + trailing
}

/// The frame of a work request: the JSON text and nothing after it.
pub open spec fn request_frame(json: Seq<u8>) -> Seq<u8> {
    frame(json, Seq::empty())
}

/// The frame of a result: the JSON text, the identifier bytes carried over
/// from the task, then the pixels.
pub open spec fn result_frame(json: Seq<u8>, id: Seq<u8>, pixels: Seq<PixelIntensity>) -> Seq<
    u8,
> {
    frame(json, id + pixel_payload(pixels))
}

/// The total length that a frame declares.
pub open spec fn declared_total(bytes: Seq<u8>) -> int
    recommends
        bytes.len() >= 8,
{
    be32_value(bytes.subrange(0, 4))
}

/// The JSON length that a frame declares.
pub open spec fn declared_json(bytes: Seq<u8>) -> int
    recommends
        bytes.len() >= 8,
{
    be32_value(bytes.subrange(4, 8))
}

/// The two lengths at the head of a frame.
#[derive(Debug, Clone, Copy, PartialEq, Eq, Structural)]
pub struct FrameHeader {
    /// Number of bytes that follow the two lengths.
    pub total_len: u32,
    /// Number of those bytes that are JSON text.
    pub json_len: u32,
}

impl FrameHeader {
    /// A header is well formed when the JSON text fits inside the total.
    pub open spec fn wf(&self) -> bool {
        self.json_len <= self.total_len
    }

    /// Number of bytes that follow the JSON text.
    pub fn data_len(&self) -> (n: u32)
        requires
            self.wf(),
        ensures
            n == self.total_len - self.json_len,
    {
        self.total_len - self.json_len
    }
}

/// What `decode_header` returns on `bytes`.
pub open spec fn header_of(bytes: Seq<u8>) -> Result<FrameHeader, ProtocolError> {
    if bytes.len() < 8 {
        Err(ProtocolError::Truncated)
    } else if declared_json(bytes) > declared_total(bytes) {
        Err(ProtocolError::LengthMismatch)
    } else {
        Ok(
            (FrameHeader {
                total_len: declared_total(bytes) as u32,
                json_len: declared_json(bytes) as u32,
            }),
        )
    }
}

/// What `split_body` returns on `body` under `header`: the JSON text and the
/// bytes that follow it.
pub open spec fn body_of(header: FrameHeader, body: Seq<u8>) -> Result<
    (Seq<u8>, Seq<u8>),
    ProtocolError,
> {
    if header.json_len > header.total_len {
        Err(ProtocolError::LengthMismatch)
    } else if body.len() < header.total_len {
        Err(ProtocolError::Truncated)
    } else {
        Ok(
            (
                body.subrange(0, header.json_len as int),
                body.subrange(header.json_len as int, header.total_len as int),
            ),
        )
    }
}

/// What `decode_frame` returns on `bytes`: the header's verdict, then the
/// body's.
pub open spec fn frame_parts(bytes: Seq<u8>) -> Result<(Seq<u8>, Seq<u8>), ProtocolError> {
    match header_of(bytes) {
        Err(e) => Err(e),
        Ok(h) => body_of(h, bytes.subrange(8, bytes.len() as int)),
    }
}

/// Whether a decoder's answer is the one that the format prescribes: the same
/// error, or the same two runs of bytes.
pub open spec fn parts_agree(
    got: Result<(Vec<u8>, Vec<u8>), ProtocolError>,
    want: Result<(Seq<u8>, Seq<u8>), ProtocolError>,
) -> bool {
    match (got, want) {
        (Ok(g), Ok(w)) => g.0@ == w.0 && g.1@ == w.1,
        (Err(g), Err(w)) => g == w,
        _ => false,
    }
}

/// Appends the four bytes of `x`, most significant first.
pub fn push_be32(out: &mut Vec<u8>, x: u32)
    ensures
        final(out)@ == old(out)@ + be32(x),
{
    out.push((x / 0x100_0000) as u8);
    out.push(((x / 0x1_0000) % 0x100) as u8);
    out.push(((x / 0x100) % 0x100) as u8);
    out.push((x % 0x100) as u8);
    assert(out@ =~= old(out)@ + be32(x));
}

/// Reads the number that the four bytes at `at` spell, most significant
/// first.
pub fn read_be32(bytes: &[u8], at: usize) -> (x: u32)
    requires
        at + 4 <= bytes@.len(),
    ensures
        x == be32_value(bytes@.subrange(at as int, at + 4)),
{
    let b0: u32 = bytes[at] as u32;
    let b1: u32 = bytes[at + 1] as u32;
    let b2: u32 = bytes[at + 2] as u32;
    let b3: u32 = bytes[at + 3] as u32;
    b0 * 0x100_0000 + b1 * 0x1_0000 + b2 * 0x100 + b3
}

/// Appends a copy of `src`.
pub fn append_bytes(out: &mut Vec<u8>, src: &[u8])
    ensures
        final(out)@ == old(out)@ + src@,
{
    let mut i: usize = 0;
    while i < src.len()
        invariant
            i <= src@.len(),
            out@ == old(out)@ + src@.subrange(0, i as int),
        decreases src@.len() - i,
    {
        out.push(src[i]);
        i += 1;
        assert(out@ =~= old(out)@ + src@.subrange(0, i as int));
    }
    assert(src@.subrange(0, i as int) =~= src@);
}

/// Appends the bytes of a run of pixels: for each pixel in order, `zn` then
/// `count`.
pub fn append_pixels(out: &mut Vec<u8>, pixels: &[PixelIntensity])
    ensures
        final(out)@ == old(out)@ + pixel_payload(pixels@),
{
    let mut i: usize = 0;
    assert(out@ =~= old(out)@ + pixel_payload(pixels@.subrange(0, 0)));
    while i < pixels.len()
        invariant
            i <= pixels@.len(),
            out@ == old(out)@ + pixel_payload(pixels@.subrange(0, i as int)),
        decreases pixels@.len() - i,
    {
        let p = pixels[i];
        push_be32(out, p.zn);
        push_be32(out, p.count);
        proof {
            let done = pixels@.subrange(0, i as int);
            let more = pixels@.subrange(0, i + 1);
            assert(more.drop_last() =~= done);
            assert(more.last() == p);
            assert(out@ =~= old(out)@ + pixel_payload(more));
        }
        i += 1;
    }
    assert(pixels@.subrange(0, i as int) =~= pixels@);
}

/// Builds the frame that carries `json` followed by `trailing`. It is built
/// whenever the two together fit the 32-bit length fields, and refused as
/// too large otherwise.
pub fn encode_frame(json: &[u8], trailing: &[u8]) -> (r: Result<Vec<u8>, ProtocolError>)
    ensures
        fits_frame(json@, trailing@) ==> r.is_ok() && r.unwrap()@ == frame(json@, trailing@),
        !fits_frame(json@, trailing@) ==> r == Err::<Vec<u8>, ProtocolError>(
            ProtocolError::FrameTooLarge,
        ),
{
    let limit: usize = 0xffff_ffff;
    if json.len() > limit || trailing.len() > limit - json.len() {
        return Err(ProtocolError::FrameTooLarge);
    }
    let json_len: u32 = json.len() as u32;
    let total_len: u32 = json_len + trailing.len() as u32;
    let mut out: Vec<u8> = Vec::new();
    push_be32(&mut out, total_len);
    push_be32(&mut out, json_len);
    append_bytes(&mut out, json);
    append_bytes(&mut out, trailing);
    assert(out@ =~= frame(json@, trailing@));
    Ok(out)
}

/// Builds the frame of a work request from its JSON text: the text's length
/// twice, then the text. A text too long for the length fields is refused.
pub fn encode_request(request: &str) -> (r: Result<Vec<u8>, ProtocolError>)
    ensures
        request.spec_bytes().len() <= u32::MAX ==> r.is_ok() && r.unwrap()@ == request_frame(
            request.spec_bytes(),
        ),
        request.spec_bytes().len() > u32::MAX ==> r == Err::<Vec<u8>, ProtocolError>(
            ProtocolError::FrameTooLarge,
        ),
{
    let nothing: Vec<u8> = Vec::new();
    encode_frame(request.as_bytes(), nothing.as_slice())
}

/// Builds the frame of a result from its JSON text, the identifier bytes
/// carried over from the task, and the pixels in generation order. The total
/// length counts the text, the identifier and eight bytes per pixel; a
/// message too long for the length fields is refused.
pub fn encode_result(json: &str, id: &[u8], pixels: &[PixelIntensity]) -> (r: Result<
    Vec<u8>,
    ProtocolError,
>)
    ensures
        json.spec_bytes().len() + id@.len() + 8 * pixels@.len() <= u32::MAX ==> r.is_ok()
            && r.unwrap()@ == result_frame(json.spec_bytes(), id@, pixels@),
        json.spec_bytes().len() + id@.len() + 8 * pixels@.len() > u32::MAX ==> r == Err::<
            Vec<u8>,
            ProtocolError,
        >(ProtocolError::FrameTooLarge),
{
    proof {
        lemma_pixel_payload_len(pixels@);
    }
    let limit: usize = 0xffff_ffff;
    if pixels.len() > limit / 8 {
        return Err(ProtocolError::FrameTooLarge);
    }
    let mut trailing: Vec<u8> = Vec::new();
    append_bytes(&mut trailing, id);
    append_pixels(&mut trailing, pixels);
    encode_frame(json.as_bytes(), trailing.as_slice())
}

/// Reads the two lengths at the head of `bytes`. Fewer than eight bytes are
/// a truncated header; a JSON length above the total is a mismatch.
pub fn decode_header(bytes: &[u8]) -> (r: Result<FrameHeader, ProtocolError>)
    ensures
        r == header_of(bytes@),
        r.is_ok() ==> r.unwrap().wf(),
{
    if bytes.len() < 8 {
        return Err(ProtocolError::Truncated);
    }
    let total_len = read_be32(bytes, 0);
    let json_len = read_be32(bytes, 4);
    if json_len > total_len {
        return Err(ProtocolError::LengthMismatch);
    }
    Ok(FrameHeader { total_len, json_len })
}

/// Copies the bytes of `bytes` from `from` up to `to`.
pub fn copy_range(bytes: &[u8], from: usize, to: usize) -> (out: Vec<u8>)
    requires
        from <= to <= bytes@.len(),
    ensures
        out@ == bytes@.subrange(from as int, to as int),
{
    let mut out: Vec<u8> = Vec::new();
    let mut i: usize = from;
    while i < to
        invariant
            from <= i <= to <= bytes@.len(),
            out@ == bytes@.subrange(from as int, i as int),
        decreases to - i,
    {
        out.push(bytes[i]);
        i += 1;
        assert(out@ =~= bytes@.subrange(from as int, i as int));
    }
    out
}

/// Splits what follows a header into the JSON text and the bytes after it,
/// as the header's lengths say. A body shorter than the declared total is
/// truncated; bytes beyond the declared total are left alone.
pub fn split_body(header: &FrameHeader, body: &[u8]) -> (r: Result<
    (Vec<u8>, Vec<u8>),
    ProtocolError,
>)
    ensures
        parts_agree(r, body_of(*header, body@)),
{
    if header.json_len > header.total_len {
        return Err(ProtocolError::LengthMismatch);
    }
    if body.len() < header.total_len as usize {
        return Err(ProtocolError::Truncated);
    }
    let json = copy_range(body, 0, header.json_len as usize);
    let data = copy_range(body, header.json_len as usize, header.total_len as usize);
    Ok((json, data))
}

/// Decodes one frame held in memory: the JSON text and the bytes after it.
pub fn decode_frame(bytes: &[u8]) -> (r: Result<(Vec<u8>, Vec<u8>), ProtocolError>)
    ensures
        parts_agree(r, frame_parts(bytes@)),
{
    match decode_header(bytes) {
        Err(e) => Err(e),
        Ok(header) => {
            let body = copy_range(bytes, 8, bytes.len());
            split_body(&header, body.as_slice())
        },
    }
}

/// What `decode_task` returns on the bytes of a frame: the frame's verdict
/// first, then the verdict on its JSON text; on success the task found in
/// the text and the bytes that follow the text.
pub open spec fn task_parts(bytes: Seq<u8>) -> Result<(serde_json::Value, Seq<u8>), ProtocolError> {
    match frame_parts(bytes) {
        Err(e) => Err(e),
        Ok(parts) => match task_in_parsed(json_document(lossy_text(parts.0))) {
            Err(e) => Err(e),
            Ok(task) => Ok((task, parts.1)),
        },
    }
}

/// Decodes a task frame held in memory: the task wrapped in its JSON text,
/// and the bytes after the text, which identify the task and are handed
/// through as they came.
pub fn decode_task(bytes: &[u8]) -> (r: Result<(serde_json::Value, Vec<u8>), ProtocolError>)
    ensures
        match (r, task_parts(bytes@)) {
            (Ok(got), Ok(want)) => got.0 == want.0 && got.1@ == want.1,
            (Err(got), Err(want)) => got == want,
            _ => false,
        },
{
    match decode_frame(bytes) {
        Err(e) => Err(e),
        Ok(parts) => {
            let (json, data) = parts;
            match locate_task(json.as_slice()) {
                Err(e) => Err(e),
                Ok(task) => Ok((task, data)),
            }
        },
    }
}

/// What `encode_result_message` returns: the encoding failure where the
/// message has no JSON text, the size failure where text, identifier and
/// pixels exceed the length fields, and the result frame otherwise.
pub open spec fn result_message(
    body: serde_json::Value,
    id: Seq<u8>,
    pixels: Seq<PixelIntensity>,
) -> Result<Seq<u8>, ProtocolError> {
    match json_rendered(json_keyed(key_of(MessageKind::Result), body)) {
        None => Err(ProtocolError::EncodeFailed),
        Some(text) => if encode_utf8(text).len() + id.len() + 8 * pixels.len() <= u32::MAX {
            Ok(result_frame(encode_utf8(text), id, pixels))
        } else {
            Err(ProtocolError::FrameTooLarge)
        },
    }
}

/// Builds the bytes that report a computed fragment: the description of the
/// result wrapped as a `FragmentResult` message, framed with the identifier
/// bytes of the task and the pixels.
pub fn encode_result_message(body: serde_json::Value, id: &[u8], pixels: &[PixelIntensity]) -> (r:
    Result<Vec<u8>, ProtocolError>)
    ensures
        match (r, result_message(body, id@, pixels@)) {
            (Ok(got), Ok(want)) => got@ == want,
            (Err(got), Err(want)) => got == want,
            _ => false,
        },
{
    match message_text(MessageKind::Result, body) {
        Err(e) => Err(e),
        Ok(text) => encode_result(text.as_str(), id, pixels),
    }
}

/// What `encode_request_message` returns: the encoding failure where the
/// message has no JSON text, the size failure where the text exceeds the
/// length fields, and the request frame otherwise.
pub open spec fn request_message(body: serde_json::Value) -> Result<Seq<u8>, ProtocolError> {
    match json_rendered(json_keyed(key_of(MessageKind::Request), body)) {
        None => Err(ProtocolError::EncodeFailed),
        Some(text) => if encode_utf8(text).len() <= u32::MAX {
            Ok(request_frame(encode_utf8(text)))
        } else {
            Err(ProtocolError::FrameTooLarge)
        },
    }
}

/// Builds the bytes that ask for work: the description of the request
/// wrapped as a `FragmentRequest` message, and framed.
pub fn encode_request_message(body: serde_json::Value) -> (r: Result<Vec<u8>, ProtocolError>)
    ensures
        match (r, request_message(body)) {
            (Ok(got), Ok(want)) => got@ == want,
            (Err(got), Err(want)) => got == want,
            _ => false,
        },
{
    match message_text(MessageKind::Request, body) {
        Err(e) => Err(e),
        Ok(text) => encode_request(text.as_str()),
    }
}

/// The bytes of a big-endian number are four, each below 256, and spell the
/// number back.
pub proof fn lemma_be32_round_trip(x: u32)
    ensures
        be32(x).len() == 4,
        be32_value(be32(x)) == x,
{
    let b = be32(x);
    assert(b[0] == x / 0x100_0000);
    assert(b[1] == (x / 0x1_0000) % 0x100);
    assert(b[2] == (x / 0x100) % 0x100);
    assert(b[3] == x % 0x100);
}

/// Four bytes spell a number that fits 32 bits, and that number's bytes are
/// those four.
pub proof fn lemma_be32_value_round_trip(b: Seq<u8>)
    requires
        b.len() == 4,
    ensures
        0 <= be32_value(b) <= u32::MAX,
        be32(be32_value(b) as u32) == b,
{
    let v = be32_value(b);
    let (b0, b1, b2, b3) = (b[0] as int, b[1] as int, b[2] as int, b[3] as int);
    assert(v == b0 * 0x100_0000 + b1 * 0x1_0000 + b2 * 0x100 + b3);
    assert(0 <= v <= u32::MAX);
    assert(v / 0x100_0000 == b0 && (v / 0x1_0000) % 0x100 == b1 && (v / 0x100) % 0x100 == b2 && v
        % 0x100 == b3) by (nonlinear_arith)
        requires
            v == b0 * 0x100_0000 + b1 * 0x1_0000 + b2 * 0x100 + b3,
            0 <= b0 < 256,
            0 <= b1 < 256,
            0 <= b2 < 256,
            0 <= b3 < 256,
    ;
    assert(be32(v as u32) =~= b);
}

/// A run of pixels takes eight bytes per pixel.
pub proof fn lemma_pixel_payload_len(pixels: Seq<PixelIntensity>)
    ensures
        pixel_payload(pixels).len() == 8 * pixels.len(),
    decreases pixels.len(),
{
    if pixels.len() > 0 {
        lemma_pixel_payload_len(pixels.drop_last());
    }
}

/// In the bytes of a run of pixels, pixel `i` stands at offset `8 * i`: its
/// `zn` first, then its `count`.
pub proof fn lemma_pixel_payload_at(pixels: Seq<PixelIntensity>, i: int)
    requires
        0 <= i < pixels.len(),
    ensures
        pixel_payload(pixels).len() == 8 * pixels.len(),
        pixel_payload(pixels).subrange(8 * i, 8 * i + 4) == be32(pixels[i].zn),
        pixel_payload(pixels).subrange(8 * i + 4, 8 * i + 8) == be32(pixels[i].count),
    decreases pixels.len(),
{
    lemma_pixel_payload_len(pixels);
    let head = pixels.drop_last();
    lemma_pixel_payload_len(head);
    let all = pixel_payload(pixels);
    if i == pixels.len() - 1 {
        assert(all.subrange(8 * i, 8 * i + 4) =~= be32(pixels[i].zn));
        assert(all.subrange(8 * i + 4, 8 * i + 8) =~= be32(pixels[i].count));
    } else {
        lemma_pixel_payload_at(head, i);
        assert(all.subrange(8 * i, 8 * i + 4) =~= pixel_payload(head).subrange(8 * i, 8 * i + 4));
        assert(all.subrange(8 * i + 4, 8 * i + 8) =~= pixel_payload(head).subrange(
            8 * i + 4,
            8 * i + 8,
        ));
    }
}

/// Two runs of pixels with the same bytes are the same run.
pub proof fn lemma_pixel_payload_injective(p: Seq<PixelIntensity>, q: Seq<PixelIntensity>)
    requires
        pixel_payload(p) == pixel_payload(q),
    ensures
        p == q,
{
    lemma_pixel_payload_len(p);
    lemma_pixel_payload_len(q);
    assert(p.len() == q.len());
    assert forall|i: int| 0 <= i < p.len() implies p[i] == q[i] by {
        lemma_pixel_payload_at(p, i);
        lemma_pixel_payload_at(q, i);
        lemma_be32_round_trip(p[i].zn);
        lemma_be32_round_trip(q[i].zn);
        lemma_be32_round_trip(p[i].count);
        lemma_be32_round_trip(q[i].count);
    }
    assert(p =~= q);
}

/// A frame declares what it holds, and reads back as what went in: its first
/// length is the number of bytes that follow the two lengths, its second the
/// length of the JSON text, and decoding it yields the JSON text and the
/// trailing bytes unchanged.
pub proof fn lemma_frame_round_trip(json: Seq<u8>, trailing: Seq<u8>)
    requires
        fits_frame(json, trailing),
    ensures
        frame(json, trailing).len() == 8 + json.len() + trailing.len(),
        declared_total(frame(json, trailing)) == frame(json, trailing).len() - 8,
        declared_total(frame(json, trailing)) == json.len() + trailing.len(),
        declared_json(frame(json, trailing)) == json.len(),
        frame_parts(frame(json, trailing)) == Ok::<(Seq<u8>, Seq<u8>), ProtocolError>(
            (json, trailing),
        ),
{
    let total = (json.len() + trailing.len()) as u32;
    let jl = json.len() as u32;
    let f = frame(json, trailing);
    lemma_be32_round_trip(total);
    lemma_be32_round_trip(jl);
    assert(f.subrange(0, 4) =~= be32(total));
    assert(f.subrange(4, 8) =~= be32(jl));
    let body = f.subrange(8, f.len() as int);
    assert(body =~= json + trailing);
    assert(body.subrange(0, jl as int) =~= json);
    assert(body.subrange(jl as int, total as int) =~= trailing);
}

/// A request frame declares the same number twice, the length of its JSON
/// text, and reads back as that text with nothing after it.
pub proof fn lemma_request_round_trip(json: Seq<u8>)
    requires
        json.len() <= u32::MAX,
    ensures
        declared_total(request_frame(json)) == json.len(),
        declared_json(request_frame(json)) == json.len(),
        request_frame(json).len() == 8 + json.len(),
        frame_parts(request_frame(json)) == Ok::<(Seq<u8>, Seq<u8>), ProtocolError>(
            (json, Seq::empty()),
        ),
{
    lemma_frame_round_trip(json, Seq::empty());
}

/// A result frame declares `json + id + 8 * pixels` bytes in all, and reads
/// back as its JSON text followed by the identifier bytes and the pixels.
pub proof fn lemma_result_round_trip(json: Seq<u8>, id: Seq<u8>, pixels: Seq<PixelIntensity>)
    requires
        json.len() + id.len() + 8 * pixels.len() <= u32::MAX,
    ensures
        declared_total(result_frame(json, id, pixels)) == json.len() + id.len() + 8
            * pixels.len(),
        declared_total(result_frame(json, id, pixels)) == result_frame(json, id, pixels).len()
            - 8,
        declared_json(result_frame(json, id, pixels)) == json.len(),
        frame_parts(result_frame(json, id, pixels)) == Ok::<(Seq<u8>, Seq<u8>), ProtocolError>(
            (json, id + pixel_payload(pixels)),
        ),
{
    lemma_pixel_payload_len(pixels);
    lemma_frame_round_trip(json, id + pixel_payload(pixels));
}

} // verus!

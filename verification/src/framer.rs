//! The container framer: a fixed 44-byte header followed by the
//! payload verbatim, and a parser for the same fixed layout.

use vstd::prelude::*;

use crate::bytes::{le16, le16_val, le32, le32_val, lemma_le16_round_trip, lemma_le32_round_trip,
    push_le16, push_le32, read_le16, read_le32};
use crate::format::{FormatDescriptor, FormatTag, FrameError};

verus! {

/// The most payload a container can carry: the outer chunk size field
/// stores 36 + payload length in 32 bits.
pub open spec fn max_payload_len() -> int {
    0xffff_ffff - 36
}

/// The 44-byte header for a payload of `payload_len` bytes in format
/// `f`: outer chunk tag and size, wave identifier, format sub-chunk,
/// then the data sub-chunk tag and size.
pub open spec fn spec_header(payload_len: u32, f: FormatDescriptor) -> Seq<u8> {
    seq![0x52u8, 0x49u8, 0x46u8, 0x46u8]  // "RIFF"
     + le32((payload_len + 36) as u32) + seq![0x57u8, 0x41u8, 0x56u8, 0x45u8]  // "WAVE"
     + seq![0x66u8, 0x6du8, 0x74u8, 0x20u8]  // "fmt "
     + le32(16) + le16(f.tag.spec_code()) + le16(f.channels) + le32(f.sample_rate) + le32(
        f.spec_byte_rate() as u32,
    ) + le16(f.spec_block_align() as u16) + le16(f.bits_per_sample) + seq![0x64u8, 0x61u8, 0x74u8, 0x61u8]  // "data"
     + le32(payload_len)
}

/// The framed container: the header, then the payload unmodified.
pub open spec fn spec_frame(p: Seq<u8>, f: FormatDescriptor) -> Seq<u8> {
    spec_header(p.len() as u32, f) + p
}

/// What a reader of the fixed layout yields from `s`: the declared
/// format and the data chunk, or nothing if `s` is not a well-formed
/// container of that layout.
pub open spec fn spec_parse(s: Seq<u8>) -> Option<(FormatDescriptor, Seq<u8>)> {
    if s.len() < 44 {
        None
    } else {
        let data_len = le32_val(s[40], s[41], s[42], s[43]);
        if s[0] == 0x52 && s[1] == 0x49 && s[2] == 0x46 && s[3] == 0x46  // "RIFF"
         && s[8] == 0x57 && s[9] == 0x41 && s[10] == 0x56 && s[11] == 0x45  // "WAVE"
         && s[12] == 0x66 && s[13] == 0x6d && s[14] == 0x74 && s[15] == 0x20  // "fmt "
         && le32_val(s[16], s[17], s[18], s[19]) == 16 && le16_val(s[20], s[21]) == 1  // uncompressed linear
         && s[36] == 0x64 && s[37] == 0x61 && s[38] == 0x74 && s[39] == 0x61  // "data"
         && s.len() == 44 + data_len && le32_val(s[4], s[5], s[6], s[7]) == 36 + data_len {
            Some(
                (
                    FormatDescriptor {
                        tag: FormatTag::Pcm,
                        channels: le16_val(s[22], s[23]) as u16,
                        sample_rate: le32_val(s[24], s[25], s[26], s[27]) as u32,
                        bits_per_sample: le16_val(s[34], s[35]) as u16,
                    },
                    s.subrange(44, s.len() as int),
                ),
            )
        } else {
            None
        }
    }
}

/// Frames `payload` in format `format`: a 44-byte header whose two
/// size fields reflect the payload length exactly, followed by the
/// payload bytes unmodified. Rejects a format that breaks the
/// divisibility invariant; succeeds on every payload otherwise.
pub fn frame(payload: &Vec<u8>, format: &FormatDescriptor) -> (r: Result<Vec<u8>, FrameError>)
    requires
        payload@.len() <= max_payload_len(),
    ensures
        format.valid() ==> (r matches Ok(out) && out@ == spec_frame(payload@, *format)),
        !format.valid() ==> (r matches Err(e) && e == FrameError::FormatInvalid),
{
    if !format.is_valid() {
        return Err(FrameError::FormatInvalid);
    }
    let payload_len: u32 = payload.len() as u32;
    let mut out: Vec<u8> = Vec::new();
    out.push(0x52);
    out.push(0x49);
    out.push(0x46);
    out.push(0x46);
    push_le32(&mut out, payload_len + 36);
    out.push(0x57);
    out.push(0x41);
    out.push(0x56);
    out.push(0x45);
    out.push(0x66);
    out.push(0x6d);
    out.push(0x74);
    out.push(0x20);
    push_le32(&mut out, 16);
    push_le16(&mut out, format.tag.code());
    push_le16(&mut out, format.channels);
    push_le32(&mut out, format.sample_rate);
    push_le32(&mut out, format.byte_rate());
    push_le16(&mut out, format.block_align());
    push_le16(&mut out, format.bits_per_sample);
    out.push(0x64);
    out.push(0x61);
    out.push(0x74);
    out.push(0x61);
    push_le32(&mut out, payload_len);
    assert(out@ =~= spec_header(payload_len, *format));
    let ghost header = out@;
    let mut i: usize = 0;
    while i < payload.len()
        invariant
            i <= payload@.len(),
            out@ == header + payload@.subrange(0, i as int),
        decreases payload@.len() - i,
    {
        out.push(payload[i]);
        i = i + 1;
        assert(out@ =~= header + payload@.subrange(0, i as int));
    }
    assert(out@ =~= spec_frame(payload@, *format));
    Ok(out)
}

/// Parses a container of the fixed layout: yields the declared format
/// and the data chunk exactly when [`spec_parse`] does.
pub fn parse(container: &Vec<u8>) -> (r: Option<(FormatDescriptor, Vec<u8>)>)
    ensures
        r matches Some(fp) ==> spec_parse(container@) == Some((fp.0, fp.1@)),
        r is None ==> spec_parse(container@) is None,
{
    if container.len() < 44 {
        return None;
    }
    let data_len: u32 = read_le32(container, 40);
    let well_formed = container[0] == 0x52 && container[1] == 0x49 && container[2] == 0x46
        && container[3] == 0x46 && container[8] == 0x57 && container[9] == 0x41 && container[10]
        == 0x56 && container[11] == 0x45 && container[12] == 0x66 && container[13] == 0x6d
        && container[14] == 0x74 && container[15] == 0x20 && read_le32(container, 16) == 16
        && read_le16(container, 20) == 1 && container[36] == 0x64 && container[37] == 0x61
        && container[38] == 0x74 && container[39] == 0x61 && container.len() - 44 == data_len
        as usize && read_le32(container, 4) as u64 == 36 + data_len as u64;
    if !well_formed {
        return None;
    }
    let descriptor = FormatDescriptor {
        tag: FormatTag::Pcm,
        channels: read_le16(container, 22),
        sample_rate: read_le32(container, 24),
        bits_per_sample: read_le16(container, 34),
    };
    let mut payload: Vec<u8> = Vec::new();
    let mut i: usize = 44;
    while i < container.len()
        invariant
            44 <= i <= container@.len(),
            payload@ == container@.subrange(44, i as int),
        decreases container@.len() - i,
    {
        payload.push(container[i]);
        i = i + 1;
        assert(payload@ =~= container@.subrange(44, i as int));
    }
    assert(payload@ =~= container@.subrange(44, container@.len() as int));
    Some((descriptor, payload))
}

/// The framed container is always exactly 44 bytes of header followed
/// by the payload: its length is 44 plus the payload's.
pub proof fn lemma_frame_len(p: Seq<u8>, f: FormatDescriptor)
    ensures
        spec_frame(p, f).len() == 44 + p.len(),
{
}

/// The outer chunk size field of a framed container holds 36 plus the
/// payload length, and the data sub-chunk size field holds the payload
/// length exactly.
pub proof fn lemma_frame_size_fields(p: Seq<u8>, f: FormatDescriptor)
    requires
        p.len() <= max_payload_len(),
    ensures
        le32_val(
            spec_frame(p, f)[4],
            spec_frame(p, f)[5],
            spec_frame(p, f)[6],
            spec_frame(p, f)[7],
        ) == 36 + p.len(),
        le32_val(
            spec_frame(p, f)[40],
            spec_frame(p, f)[41],
            spec_frame(p, f)[42],
            spec_frame(p, f)[43],
        ) == p.len(),
{
    let n: u32 = p.len() as u32;
    lemma_le32_round_trip((n + 36) as u32);
    lemma_le32_round_trip(n);
}

/// Round trip: parsing a framed container of any payload, the empty
/// one included, yields back exactly that payload as the data chunk
/// and the format's fields as the declared format.
pub proof fn lemma_frame_round_trip(p: Seq<u8>, f: FormatDescriptor)
    requires
        f.valid(),
        p.len() <= max_payload_len(),
    ensures
        spec_parse(spec_frame(p, f)) == Some((f, p)),
{
    let s = spec_frame(p, f);
    let n: u32 = p.len() as u32;
    lemma_le32_round_trip((n + 36) as u32);
    lemma_le32_round_trip(16);
    lemma_le16_round_trip(f.tag.spec_code());
    lemma_le16_round_trip(f.channels);
    lemma_le32_round_trip(f.sample_rate);
    lemma_le32_round_trip(f.spec_byte_rate() as u32);
    lemma_le16_round_trip(f.spec_block_align() as u16);
    lemma_le16_round_trip(f.bits_per_sample);
    lemma_le32_round_trip(n);
    match f.tag {
        FormatTag::Pcm => {},
    }
    assert(s.subrange(44, s.len() as int) =~= p);
    assert(spec_parse(s) == Some((f, p)));
}

} // verus!


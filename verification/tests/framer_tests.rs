use sound_mush::format::{FormatDescriptor, FormatTag, FrameError};
use sound_mush::framer::{frame, parse};

fn fixed() -> FormatDescriptor {
    FormatDescriptor::fixed()
}

#[test]
fn empty_input_header() {
    let payload: Vec<u8> = Vec::new();
    let out = frame(&payload, &fixed()).unwrap();
    let expected: Vec<u8> = vec![
        0x52, 0x49, 0x46, 0x46, // "RIFF"
        36, 0, 0, 0, // outer chunk size: 36 + 0
        0x57, 0x41, 0x56, 0x45, // "WAVE"
        0x66, 0x6d, 0x74, 0x20, // "fmt "
        16, 0, 0, 0, // format sub-chunk size
        1, 0, // audio format: uncompressed linear
        1, 0, // channel count
        0x40, 0x1f, 0, 0, // sample rate: 8000
        0x40, 0x1f, 0, 0, // byte rate: 8000
        1, 0, // block align
        8, 0, // bits per sample
        0x64, 0x61, 0x74, 0x61, // "data"
        0, 0, 0, 0, // data sub-chunk size: 0
    ];
    assert_eq!(out.len(), 44);
    assert_eq!(out, expected);
}

#[test]
fn size_fields() {
    let payload: Vec<u8> = vec![7, 8, 9];
    let out = frame(&payload, &fixed()).unwrap();
    assert_eq!(&out[4..8], &[39, 0, 0, 0]);
    assert_eq!(&out[40..44], &[3, 0, 0, 0]);
}

#[test]
fn header_length() {
    for n in [0usize, 1, 2, 43, 44, 45, 1000] {
        let payload: Vec<u8> = vec![0x5a; n];
        let out = frame(&payload, &fixed()).unwrap();
        assert_eq!(out.len(), 44 + n);
    }
}

#[test]
fn payload_passes_through_unmodified() {
    let payload: Vec<u8> = (0u16..256).map(|b| b as u8).collect();
    let out = frame(&payload, &fixed()).unwrap();
    assert_eq!(&out[44..], &payload[..]);
}

#[test]
fn fixed_format_derived_fields() {
    let f = fixed();
    assert_eq!(f.byte_rate(), 8000);
    assert_eq!(f.block_align(), 1);
    let out = frame(&vec![1, 2], &f).unwrap();
    assert_eq!(&out[28..32], &[0x40, 0x1f, 0, 0]); // byte rate 8000
    assert_eq!(&out[32..34], &[1, 0]); // block align 1
}

#[test]
fn large_input() {
    let n: usize = 3_000_000;
    let payload: Vec<u8> = vec![0xab; n];
    let out = frame(&payload, &fixed()).unwrap();
    assert_eq!(out.len(), 44 + n);
    // outer size field: 36 + 3_000_000 = 3_000_036 = 0x2dc6e4
    assert_eq!(&out[4..8], &[0xe4, 0xc6, 0x2d, 0]);
    // data size field: 3_000_000 = 0x2dc6c0
    assert_eq!(&out[40..44], &[0xc0, 0xc6, 0x2d, 0]);
    assert_eq!(out[44 + n - 1], 0xab);
}

#[test]
fn round_trip() {
    for payload in [vec![], vec![0u8], vec![1, 2, 3, 4, 5], vec![0xff; 777]] {
        let out = frame(&payload, &fixed()).unwrap();
        let (f, p) = parse(&out).unwrap();
        assert_eq!(f, fixed());
        assert_eq!(p, payload);
    }
}

#[test]
fn invalid_bit_depth_rejected() {
    let f = FormatDescriptor { tag: FormatTag::Pcm, channels: 1, sample_rate: 8000, bits_per_sample: 12 };
    assert_eq!(frame(&vec![1, 2, 3], &f), Err(FrameError::FormatInvalid));
}

#[test]
fn zero_field_rejected() {
    let base = fixed();
    let no_channels = FormatDescriptor { channels: 0, ..base };
    assert_eq!(frame(&vec![], &no_channels), Err(FrameError::FormatInvalid));
    let no_rate = FormatDescriptor { sample_rate: 0, ..base };
    assert_eq!(frame(&vec![], &no_rate), Err(FrameError::FormatInvalid));
    let no_bits = FormatDescriptor { bits_per_sample: 0, ..base };
    assert_eq!(frame(&vec![], &no_bits), Err(FrameError::FormatInvalid));
}

#[test]
fn oversized_derived_fields_rejected() {
    let wide = FormatDescriptor { tag: FormatTag::Pcm, channels: 9000, sample_rate: 8000, bits_per_sample: 64 };
    assert_eq!(frame(&vec![], &wide), Err(FrameError::FormatInvalid));
    let fast = FormatDescriptor { tag: FormatTag::Pcm, channels: 2, sample_rate: 4_000_000_000, bits_per_sample: 8 };
    assert_eq!(frame(&vec![], &fast), Err(FrameError::FormatInvalid));
}

#[test]
fn parse_rejects_bad_magic() {
    let mut out = frame(&vec![1, 2, 3], &fixed()).unwrap();
    out[0] = 0x51;
    assert_eq!(parse(&out), None);
}

#[test]
fn parse_rejects_truncated() {
    let out = frame(&vec![], &fixed()).unwrap();
    let short = out[..43].to_vec();
    assert_eq!(parse(&short), None);
}

#[test]
fn parse_rejects_wrong_size_field() {
    let mut out = frame(&vec![1, 2, 3, 4], &fixed()).unwrap();
    out[40] = 3; // data size field no longer matches the container length
    assert_eq!(parse(&out), None);
    let mut out2 = frame(&vec![1, 2, 3, 4], &fixed()).unwrap();
    out2[4] = 41; // outer size field no longer 36 + payload length
    assert_eq!(parse(&out2), None);
}

#[test]
fn parse_rejects_compressed_format_code() {
    let mut out = frame(&vec![1, 2], &fixed()).unwrap();
    out[20] = 2; // not uncompressed linear
    assert_eq!(parse(&out), None);
}

//! Checks the framed output against an independent reader and writer
//! of the same container format.

use std::io::Cursor;

use sound_mush::format::FormatDescriptor;
use sound_mush::framer::frame;

#[test]
fn independent_reader_round_trip() {
    for payload in [vec![], vec![1u8, 2], vec![0x7f; 4096]] {
        let out = frame(&payload, &FormatDescriptor::fixed()).unwrap();
        let mut cursor = Cursor::new(out);
        let (header, data) = wav::read(&mut cursor).unwrap();
        assert_eq!(header.audio_format, wav::WAV_FORMAT_PCM);
        assert_eq!(header.channel_count, 1);
        assert_eq!(header.sampling_rate, 8000);
        assert_eq!(header.bits_per_sample, 8);
        assert_eq!(data, wav::BitDepth::Eight(payload));
    }
}

#[test]
fn independent_writer_agreement() {
    // The independent writer pads a data chunk of odd length, so the
    // outputs can only be compared on even-length payloads.
    for payload in [vec![9u8, 8], vec![0u8; 1000]] {
        let ours = frame(&payload, &FormatDescriptor::fixed()).unwrap();
        let header = wav::Header::new(wav::WAV_FORMAT_PCM, 1, 8000, 8);
        let mut cursor = Cursor::new(Vec::<u8>::new());
        wav::write(header, &wav::BitDepth::Eight(payload), &mut cursor).unwrap();
        assert_eq!(ours, cursor.into_inner());
    }
}

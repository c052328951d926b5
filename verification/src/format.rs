//! The format descriptor a container declares, and its validity invariant.

use vstd::prelude::*;

verus! {

/// The audio encoding a container declares. Only uncompressed linear
/// samples are supported.
#[derive(Clone, Copy, Debug, PartialEq, Eq, Structural)]
pub enum FormatTag {
    Pcm,
}

impl FormatTag {
    /// The two-byte code the header stores for this encoding.
    pub open spec fn spec_code(self) -> u16 {
        1
    }

    /// Returns the two-byte code the header stores for this encoding.
    pub fn code(self) -> (c: u16)
        ensures
            c == self.spec_code(),
    {
        1
    }
}

/// The error a framing operation reports.
#[derive(Clone, Copy, Debug, PartialEq, Eq, Structural)]
pub enum FrameError {
    /// The format fields break the divisibility invariant or a field
    /// is not positive, or a derived field does not fit its header slot.
    FormatInvalid,
}

/// The format a container declares: encoding, channel count, sample
/// rate and bit depth. The system always frames with the fixed values
/// of [`FormatDescriptor::fixed`]; the fields are kept general so that
/// an inconsistent parameterization is rejected rather than written.
#[derive(Clone, Copy, Debug, PartialEq, Eq, Structural)]
pub struct FormatDescriptor {
    pub tag: FormatTag,
    pub channels: u16,
    pub sample_rate: u32,
    pub bits_per_sample: u16,
}

impl FormatDescriptor {
    /// Whole bytes per sample for the declared bit depth.
    pub open spec fn spec_bytes_per_sample(self) -> int {
        self.bits_per_sample as int / 8
    }

    /// The block-alignment unit: channel count times bytes per sample.
    pub open spec fn spec_block_align(self) -> int {
        self.channels * self.spec_bytes_per_sample()
    }

    /// Bytes of audio per second: sample rate times block alignment.
    pub open spec fn spec_byte_rate(self) -> int {
        self.sample_rate * self.spec_block_align()
    }

    /// The divisibility invariant: every field positive, the bit depth
    /// a whole number of bytes, and the derived fields small enough for
    /// their header slots.
    pub open spec fn valid(self) -> bool {
        &&& self.channels > 0
        &&& self.sample_rate > 0
        &&& self.bits_per_sample > 0
        &&& self.bits_per_sample % 8 == 0
        &&& self.spec_block_align() <= u16::MAX
        &&& self.spec_byte_rate() <= u32::MAX
    }

    /// The fixed format this system writes: uncompressed linear, mono,
    /// 8000 samples per second, 8 bits per sample.
    pub fn fixed() -> (f: FormatDescriptor)
        ensures
            f == (FormatDescriptor {
                tag: FormatTag::Pcm,
                channels: 1,
                sample_rate: 8000,
                bits_per_sample: 8,
            }),
            f.valid(),
            f.spec_block_align() == 1,
            f.spec_byte_rate() == 8000,
    {
        FormatDescriptor { tag: FormatTag::Pcm, channels: 1, sample_rate: 8000, bits_per_sample: 8 }
    }

    /// Decides the validity invariant.
    pub fn is_valid(&self) -> (r: bool)
        ensures
            r == self.valid(),
    {
        if self.channels == 0 || self.sample_rate == 0 || self.bits_per_sample == 0
            || self.bits_per_sample % 8 != 0 {
            return false;
        }
        let bytes_per_sample: u64 = (self.bits_per_sample / 8) as u64;
        let channels: u64 = self.channels as u64;
        assert(channels * bytes_per_sample <= 65535 * 8191) by (nonlinear_arith)
            requires
                channels <= 65535,
                bytes_per_sample <= 8191,
        ;
        let block_align: u64 = channels * bytes_per_sample;
        assert(block_align == self.spec_block_align());
        if block_align > 0xffff {
            return false;
        }
        let sample_rate: u64 = self.sample_rate as u64;
        assert(sample_rate * block_align <= 0xffff_ffff * 0xffff) by (nonlinear_arith)
            requires
                sample_rate <= 0xffff_ffff,
                block_align <= 0xffff,
        ;
        let byte_rate: u64 = sample_rate * block_align;
        assert(byte_rate == self.spec_byte_rate());
        byte_rate <= 0xffff_ffff
    }

    /// The block-alignment unit of a valid descriptor, as the header
    /// stores it.
    pub fn block_align(&self) -> (r: u16)
        requires
            self.valid(),
        ensures
            r == self.spec_block_align(),
    {
        let channels: u32 = self.channels as u32;
        let bytes_per_sample: u32 = (self.bits_per_sample / 8) as u32;
        assert(channels * bytes_per_sample <= 65535 * 8191) by (nonlinear_arith)
            requires
                channels <= 65535,
                bytes_per_sample <= 8191,
        ;
        (channels * bytes_per_sample) as u16
    }

    /// The byte rate of a valid descriptor, as the header stores it.
    pub fn byte_rate(&self) -> (r: u32)
        requires
            self.valid(),
        ensures
            r == self.spec_byte_rate(),
    {
        let sample_rate: u64 = self.sample_rate as u64;
        let block_align: u64 = self.block_align() as u64;
        assert(sample_rate * block_align <= 0xffff_ffff * 0xffff) by (nonlinear_arith)
            requires
                sample_rate <= 0xffff_ffff,
                block_align <= 0xffff,
        ;
        (sample_rate * block_align) as u32
    }
}

} // verus!

use vstd::prelude::*;
use libc::c_int;

verus! {

/// Native code for little-endian samples.
pub const AO_FMT_LITTLE: i32 = 1;

/// Native code for big-endian samples.
pub const AO_FMT_BIG: i32 = 2;

/// Native code for samples in the machine's own byte order.
pub const AO_FMT_NATIVE: i32 = 4;

/// Byte order of the samples: little-endian, big-endian, or the machine's own.
#[derive(Debug, Clone, Copy, PartialEq, Eq, Structural)]
pub enum ByteFormat {
    Little,
    Big,
    Native,
}

impl ByteFormat {
    /// The native code of this byte order.
    pub open spec fn spec_code(self) -> i32 {
        match self {
            ByteFormat::Little => AO_FMT_LITTLE,
            ByteFormat::Big => AO_FMT_BIG,
            ByteFormat::Native => AO_FMT_NATIVE,
        }
    }

    /// Returns the native code of this byte order.
    pub fn code(self) -> (r: c_int)
        ensures
            r == self.spec_code(),
    {
        match self {
            ByteFormat::Little => AO_FMT_LITTLE,
            ByteFormat::Big => AO_FMT_BIG,
            ByteFormat::Native => AO_FMT_NATIVE,
        }
    }
}

/// The sample format descriptor in the native layer's own layout. `matrix`
/// is the native channel-matrix string; `None` stands for a null pointer.
pub struct AoFormat {
    pub bits: c_int,
    pub rate: c_int,
    pub channels: c_int,
    pub byte_format: c_int,
    pub matrix: Option<String>,
}

/// Layout of PCM samples: bit depth, sample rate, channel count, byte order
/// and an optional, unchecked channel-layout label.
pub struct Format {
    pub bits: u32,
    pub rate: u32,
    pub channels: u32,
    pub byte_format: ByteFormat,
    pub channel_format: Option<String>,
}

impl Format {
    /// The default format: 16 bits, 44100 Hz, two channels, little-endian, no label.
    pub open spec fn is_default(&self) -> bool {
        &&& self.bits == 16
        &&& self.rate == 44100
        &&& self.channels == 2
        &&& self.byte_format == ByteFormat::Little
        &&& self.channel_format is None
    }

    /// Whether `d` is the native descriptor of this format: each number
    /// copied to the native integer width, and no channel matrix.
    pub open spec fn describes(&self, d: AoFormat) -> bool {
        &&& d.bits == self.bits as i32
        &&& d.rate == self.rate as i32
        &&& d.channels == self.channels as i32
        &&& d.byte_format == self.byte_format.spec_code()
        &&& d.matrix is None
    }

    /// Creates the default format.
    pub fn new() -> (r: Format)
        ensures
            r.is_default(),
    {
        Format {
            bits: 16,
            rate: 44100,
            channels: 2,
            byte_format: ByteFormat::Little,
            channel_format: None,
        }
    }

    /// Returns the native descriptor of this format. No value is checked:
    /// the native layer decides what it accepts when a device is opened.
    pub fn to_ao_format(&self) -> (r: AoFormat)
        ensures
            self.describes(r),
    {
        AoFormat {
            bits: self.bits as c_int,
            rate: self.rate as c_int,
            channels: self.channels as c_int,
            byte_format: self.byte_format.code(),
            matrix: None,
        }
    }
}

impl Default for Format {
    fn default() -> (r: Format)
        ensures
            r.is_default(),
    {
        Format::new()
    }
}

/// The native descriptor never carries a channel matrix, whatever the format.
pub proof fn lemma_descriptor_has_no_matrix(f: Format, d: AoFormat)
    requires
        f.describes(d),
    ensures
        d.matrix is None,
{
}

/// The native descriptor keeps each number of the format: read back as
/// unsigned, its fields give the format's own.
pub proof fn lemma_descriptor_keeps_numbers(f: Format, d: AoFormat)
    requires
        f.describes(d),
    ensures
        d.bits as u32 == f.bits,
        d.rate as u32 == f.rate,
        d.channels as u32 == f.channels,
{
    let (b, r, c) = (f.bits, f.rate, f.channels);
    assert((b as i32) as u32 == b) by (bit_vector);
    assert((r as i32) as u32 == r) by (bit_vector);
    assert((c as i32) as u32 == c) by (bit_vector);
}

} // verus!

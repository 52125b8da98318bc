//! Stream configurations: what a user asks for and what a device supports.

use vstd::prelude::*;

verus! {

/// The number of frames per second.
#[derive(Debug, Clone, Copy, PartialEq, Eq, Structural)]
pub struct SampleRate(pub u32);

/// How one sample is encoded.
#[derive(Debug, Clone, Copy, PartialEq, Eq, Structural)]
pub enum SampleFormat {
    I16,
    U16,
    F32,
}

impl SampleFormat {
    /// The name of the format.
    pub open spec fn spec_name(self) -> Seq<char> {
        match self {
            SampleFormat::I16 => "I16"@,
            SampleFormat::U16 => "U16"@,
            SampleFormat::F32 => "F32"@,
        }
    }

    /// The name of the format.
    pub fn name(&self) -> (name: &'static str)
        ensures
            name@ == self.spec_name(),
    {
        match self {
            SampleFormat::I16 => "I16",
            SampleFormat::U16 => "U16",
            SampleFormat::F32 => "F32",
        }
    }
}

/// The buffer size a user asks for, in frames.
#[derive(Debug, Clone, Copy, PartialEq, Eq, Structural)]
pub enum BufferSize {
    Default,
    Fixed(u32),
}

/// The configuration a user asks for.
#[derive(Debug, Clone, Copy, PartialEq, Eq, Structural)]
pub struct StreamConfig {
    pub channels: u16,
    pub sample_rate: SampleRate,
    pub buffer_size: BufferSize,
}

/// The buffer sizes a device supports, in frames.
#[derive(Debug, Clone, Copy, PartialEq, Eq, Structural)]
pub enum SupportedBufferSize {
    Range { min: u32, max: u32 },
    Unknown,
}

/// A configuration a device supports.
#[derive(Debug, Clone, Copy, PartialEq, Eq, Structural)]
pub struct SupportedStreamConfig {
    pub channels: u16,
    pub sample_rate: SampleRate,
    pub buffer_size: SupportedBufferSize,
    pub sample_format: SampleFormat,
}

/// Each format is called by its own name, and no two by the same.
pub proof fn law_formats_are_called_by_their_names(a: SampleFormat, b: SampleFormat)
    ensures
        a == SampleFormat::I16 ==> a.spec_name() == seq!['I', '1', '6'],
        a == SampleFormat::U16 ==> a.spec_name() == seq!['U', '1', '6'],
        a == SampleFormat::F32 ==> a.spec_name() == seq!['F', '3', '2'],
        a.spec_name() == b.spec_name() ==> a == b,
{
    reveal_strlit("I16");
    reveal_strlit("U16");
    reveal_strlit("F32");
    assert(SampleFormat::I16.spec_name() =~= seq!['I', '1', '6']);
    assert(SampleFormat::U16.spec_name() =~= seq!['U', '1', '6']);
    assert(SampleFormat::F32.spec_name() =~= seq!['F', '3', '2']);
    assert(a != b ==> a.spec_name()[0] != b.spec_name()[0]);
}

} // verus!

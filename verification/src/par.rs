//! The parameters that are negotiated with a sndio device.

use vstd::prelude::*;

use crate::config::{SampleFormat, SampleRate, SupportedBufferSize, SupportedStreamConfig};

verus! {

/// What the device does when a buffer under- or overruns.
#[derive(Debug, PartialEq, Eq, Structural)]
pub enum BufferXrunBehavior {
    /// Go on as if nothing had happened.
    Ignore,
    /// Catch up with the clock.
    Sync,
    /// Stop with an error.
    Error,
}

impl Clone for BufferXrunBehavior {
    fn clone(&self) -> (res: Self)
        ensures
            res == *self,
    {
        match self {
            BufferXrunBehavior::Ignore => BufferXrunBehavior::Ignore,
            BufferXrunBehavior::Sync => BufferXrunBehavior::Sync,
            BufferXrunBehavior::Error => BufferXrunBehavior::Error,
        }
    }
}

impl BufferXrunBehavior {
    /// The number by which sndio knows the behaviour.
    pub open spec fn spec_code(self) -> u32 {
        match self {
            BufferXrunBehavior::Ignore => 0,
            BufferXrunBehavior::Sync => 1,
            BufferXrunBehavior::Error => 2,
        }
    }

    /// The number by which sndio knows the behaviour.
    pub fn code(&self) -> (code: u32)
        ensures
            code == self.spec_code(),
    {
        match self {
            BufferXrunBehavior::Ignore => 0,
            BufferXrunBehavior::Sync => 1,
            BufferXrunBehavior::Error => 2,
        }
    }
}

/// The order of the bytes of a sample.
#[derive(Clone, Copy, Debug, PartialEq, Eq, Structural)]
pub enum Endian {
    BE,
    LE,
}

/// The parameters of a device, field for field as sndio names them.
#[derive(Clone, Copy, Debug, PartialEq, Eq, Structural)]
pub struct SioPar {
    /// Bits per sample.
    pub bits: u32,
    /// Bytes per sample.
    pub bps: u32,
    /// 1 if samples are signed, 0 if not.
    pub sig: u32,
    /// 1 if samples are little endian, 0 if not.
    pub le: u32,
    /// 1 if samples are aligned to the most significant bit, 0 if not.
    pub msb: u32,
    /// Number of recording channels.
    pub rchan: u32,
    /// Number of playback channels.
    pub pchan: u32,
    /// Frames per second.
    pub rate: u32,
    /// Frames in the whole end-to-end buffer.
    pub bufsz: u32,
    /// What to do on an under- or overrun.
    pub xrun: u32,
    /// Frames by which the buffer size is rounded.
    pub round: u32,
    /// Frames in the application's own buffer.
    pub appbufsz: u32,
}

/// The parameters to ask for: signed 16 bit samples in native byte order,
/// 48 kHz, one channel each way, and the given behaviour; the rest as in `initial`.
pub open spec fn requested_par(initial: SioPar, behavior: BufferXrunBehavior, endian: Endian) -> SioPar {
    SioPar {
        bits: 16,
        sig: 1,
        le: match endian {
            Endian::BE => 0,
            Endian::LE => 1,
        },
        rchan: 1,
        pchan: 1,
        rate: 48000,
        xrun: behavior.spec_code(),
        ..initial
    }
}

/// The parameters to ask a device for, built on those of `initial`.
pub fn request_par(initial: SioPar, behavior: &BufferXrunBehavior, endian: Endian) -> (par: SioPar)
    ensures
        par == requested_par(initial, *behavior, endian),
{
    let mut par = initial;
    par.bits = 16;
    par.sig = 1;
    par.le = match endian {
        Endian::BE => 0,
        Endian::LE => 1,
    };
    par.rchan = 1; // mono record
    par.pchan = 1; // mono playback
    par.rate = 48000;
    par.xrun = behavior.code();
    par
}

/// The samples of the device are unpadded signed 16 bit integers.
pub open spec fn is_i16(par: SioPar) -> bool {
    par.bits == 16 && par.bps == 2 && par.sig == 1
}

/// The configuration that goes with the parameters of a device. `channels`
/// keeps the low 16 bits of the number of playback channels.
pub open spec fn config_of(par: SioPar) -> SupportedStreamConfig {
    SupportedStreamConfig {
        channels: (par.pchan % 0x1_0000) as u16,
        sample_rate: SampleRate(par.rate),
        buffer_size: SupportedBufferSize::Range { min: par.round, max: par.appbufsz },
        sample_format: SampleFormat::I16,
    }
}

/// The configuration that goes with the parameters of a device.
pub fn config_from_par(par: &SioPar) -> (config: SupportedStreamConfig)
    ensures
        config == config_of(*par),
{
    let pchan: u32 = par.pchan;
    assert(pchan as u16 == (pchan % 0x1_0000) as u16) by (bit_vector);
    SupportedStreamConfig {
        channels: #[verifier::truncate] (pchan as u16),
        sample_rate: SampleRate(par.rate),
        // There isn't really a maximum, but appbufsz can act as one because it has very high
        // latency. Both bounds count frames, not samples.
        buffer_size: SupportedBufferSize::Range { min: par.round, max: par.appbufsz },
        sample_format: SampleFormat::I16,
    }
}

/// Whatever the parameters started from, whatever the behaviour and the byte
/// order: signed 16 bit samples at 48 kHz are requested with one channel each
/// way, `xrun` follows the behaviour alone, `le` follows the byte order alone,
/// and every other parameter is left as it was.
pub proof fn law_what_is_requested(initial: SioPar, behavior: BufferXrunBehavior, endian: Endian)
    ensures
        ({
            let par = requested_par(initial, behavior, endian);
            &&& par.bits == 16 && par.sig == 1
            &&& par.rchan == 1 && par.pchan == 1
            &&& par.rate == 48000
            &&& behavior == BufferXrunBehavior::Ignore ==> par.xrun == 0
            &&& behavior == BufferXrunBehavior::Sync ==> par.xrun == 1
            &&& behavior == BufferXrunBehavior::Error ==> par.xrun == 2
            &&& endian == Endian::BE ==> par.le == 0
            &&& endian == Endian::LE ==> par.le == 1
            &&& par.bps == initial.bps && par.msb == initial.msb
            &&& par.bufsz == initial.bufsz && par.round == initial.round
            &&& par.appbufsz == initial.appbufsz
        }),
{
}

/// Requests for two behaviours or two byte orders differ in nothing else, and
/// tell them apart.
pub proof fn law_requests_tell_behaviors_apart(
    initial: SioPar,
    a: BufferXrunBehavior,
    b: BufferXrunBehavior,
    endian: Endian,
)
    ensures
        requested_par(initial, a, endian).xrun == requested_par(initial, b, endian).xrun ==> a == b,
        (SioPar {
            xrun: requested_par(initial, b, endian).xrun,
            ..requested_par(initial, a, endian)
        }) == requested_par(initial, b, endian),
        a.spec_code() == b.spec_code() ==> a == b,
        a.spec_code() <= 2,
{
}

/// The configuration of a device is read off its own parameters, whatever they are.
pub proof fn law_configuration_is_that_of_the_device(par: SioPar)
    ensures
        config_of(par).sample_rate.0 == par.rate,
        config_of(par).channels as int == par.pchan as int % 65536,
        config_of(par).sample_format == SampleFormat::I16,
        config_of(par).buffer_size matches SupportedBufferSize::Range { min, max } && min == par.round
            && max == par.appbufsz,
        is_i16(par) <==> par.bits == 16 && par.bps == 2 && par.sig == 1,
{
}

} // verus!

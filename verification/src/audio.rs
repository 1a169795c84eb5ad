//! The output format: which of the configurations that a device offers the
//! pipeline plays through.

use crate::error::DeviceError;
use vstd::prelude::*;

verus! {

/// Number of output channels that the pipeline plays through.
pub const STEREO: u16 = 2;

/// How a device stores one sample.
#[derive(Clone, Copy, Debug, PartialEq, Eq, Structural)]
pub enum SampleFormat {
    /// Signed 16-bit integers.
    I16,
    /// Unsigned 16-bit integers.
    U16,
    /// 32-bit floating point.
    F32,
}

/// One configuration that a device offers: a channel count, a sample format
/// and a range of sample rates in hertz.
#[derive(Clone, Copy, Debug, PartialEq, Eq, Structural)]
pub struct SupportedConfig {
    pub channels: u16,
    pub min_sample_rate: u32,
    pub max_sample_rate: u32,
    pub sample_format: SampleFormat,
}

/// The configuration has two channels of 32-bit floating-point samples.
pub open spec fn suits(config: SupportedConfig) -> bool {
    config.channels == STEREO && config.sample_format == SampleFormat::F32
}

/// The configuration at `at` suits, and none before it does.
pub open spec fn first_suitable(configs: Seq<SupportedConfig>, at: int) -> bool {
    &&& 0 <= at < configs.len()
    &&& suits(configs[at])
    &&& forall|before: int| 0 <= before < at ==> !suits(#[trigger] configs[before])
}

/// The format that the output stream runs in: two channels of 32-bit
/// floating-point samples at a sample rate in hertz. It is chosen once and
/// never changes.
#[derive(Clone, Copy, Debug, PartialEq, Eq, Structural)]
pub struct AudioOutputConfig {
    sample_rate: u32,
}

impl AudioOutputConfig {
    /// The sample rate in hertz.
    pub closed spec fn rate(self) -> u32 {
        self.sample_rate
    }

    /// Chooses among the configurations that a device offers, in the order in
    /// which it offers them: the first that has two channels of 32-bit
    /// floating-point samples, at the highest sample rate that it reaches.
    /// Where none has, there is nothing to play through.
    pub fn get_output_config(configs: &[SupportedConfig]) -> (r: Result<Self, DeviceError>)
        ensures
            match r {
                Ok(chosen) => exists|at: int|
                    first_suitable(configs@, at) && chosen.rate() == (
                    #[trigger] configs@[at]).max_sample_rate,
                Err(error) => forall|at: int|
                    0 <= at < configs@.len() ==> !suits(#[trigger] configs@[at]),
            },
    {
        let mut at: usize = 0;
        while at < configs.len()
            invariant
                at <= configs.len(),
                forall|before: int| 0 <= before < at ==> !suits(#[trigger] configs@[before]),
            decreases configs.len() - at,
        {
            let config = configs[at];
            if config.channels == STEREO && config.sample_format == SampleFormat::F32 {
                assert(first_suitable(configs@, at as int));
                return Ok(AudioOutputConfig { sample_rate: config.max_sample_rate });
            }
            at += 1;
        }
        Err(DeviceError::NoSuitableOutputConfig)
    }

    /// The sample rate in hertz, at which the synthesizer has to run.
    pub fn sample_rate(&self) -> (rate: u32)
        ensures
            rate == self.rate(),
    {
        self.sample_rate
    }

    /// The number of channels: always two.
    pub fn channels(&self) -> (channels: u16)
        ensures
            channels == STEREO,
    {
        STEREO
    }
}

} // verus!

use vstd::prelude::*;

use crate::usage::{CommandArgs, DataType, Modulation};

verus! {

/// A non-negative rational number `num / den`, as the pipeline's derived parameters are
/// exact ratios of integer rates.
#[derive(Clone, Copy, Debug, PartialEq, Eq)]
pub struct Fraction {
    pub num: u32,
    pub den: u32,
}

impl Fraction {
    pub open spec fn wf(self) -> bool {
        self.den > 0
    }
}

/// Why a set of command-line parameters cannot configure a pipeline.
#[derive(Clone, Copy, Debug, PartialEq, Eq, Structural)]
pub enum ConfigError {
    MissingSampleRate,
    MissingResampleRate,
    MissingInputType,
    MissingOutputType,
    MissingBandwidth,
    MissingModulation,
    MissingDeviation,
    ZeroSampleRate,
    ZeroResampleRate,
    /// The filter cutoff `bandwidth / samplerate` lies outside the open interval (0, 1/2).
    BandwidthOutOfRange,
    ZeroDeviation,
}

/// The resolved parameters of one pipeline run.
#[derive(Clone, Copy, Debug, PartialEq, Eq)]
pub struct PipelineConfig {
    pub input_rate: u32,
    pub output_rate: u32,
    pub bandwidth: u32,
    pub deviation: u32,
    pub input_type: DataType,
    pub output_type: DataType,
    pub modulation: Modulation,
    pub squarewave: bool,
}

/// The first check that `a` fails, in the order in which they are made; `None` when all pass.
pub open spec fn config_error(a: CommandArgs) -> Option<ConfigError> {
    if a.samplerate.is_none() {
        Some(ConfigError::MissingSampleRate)
    } else if a.resamplerate.is_none() {
        Some(ConfigError::MissingResampleRate)
    } else if a.inputtype.is_none() {
        Some(ConfigError::MissingInputType)
    } else if a.outputtype.is_none() {
        Some(ConfigError::MissingOutputType)
    } else if a.bandwidth.is_none() {
        Some(ConfigError::MissingBandwidth)
    } else if a.modulation.is_none() {
        Some(ConfigError::MissingModulation)
    } else if a.fmargs.deviation.is_none() {
        Some(ConfigError::MissingDeviation)
    } else if a.samplerate.unwrap() == 0 {
        Some(ConfigError::ZeroSampleRate)
    } else if a.resamplerate.unwrap() == 0 {
        Some(ConfigError::ZeroResampleRate)
    } else if a.bandwidth.unwrap() == 0 || 2 * a.bandwidth.unwrap() >= a.samplerate.unwrap() {
        Some(ConfigError::BandwidthOutOfRange)
    } else if a.fmargs.deviation.unwrap() == 0 {
        Some(ConfigError::ZeroDeviation)
    } else {
        None
    }
}

/// The configuration that parameters passing every check describe; squarewave shaping is
/// off unless asked for.
pub open spec fn config_of(a: CommandArgs) -> PipelineConfig {
    PipelineConfig {
        input_rate: a.samplerate.unwrap(),
        output_rate: a.resamplerate.unwrap(),
        bandwidth: a.bandwidth.unwrap(),
        deviation: a.fmargs.deviation.unwrap(),
        input_type: a.inputtype.unwrap(),
        output_type: a.outputtype.unwrap(),
        modulation: a.modulation.unwrap(),
        squarewave: a.fmargs.squarewave == Some(true),
    }
}

impl PipelineConfig {
    /// Rates are positive, the filter cutoff lies in (0, 1/2) and the deviation is positive.
    pub open spec fn wf(self) -> bool {
        &&& self.input_rate > 0
        &&& self.output_rate > 0
        &&& 0 < self.bandwidth
        &&& 2 * self.bandwidth < self.input_rate
        &&& self.deviation > 0
    }

    /// Resolves command-line parameters, rejecting missing and out-of-range values.
    pub fn from_args(a: &CommandArgs) -> (r: Result<PipelineConfig, ConfigError>)
        ensures
            match r {
                Ok(c) => config_error(*a).is_none() && c == config_of(*a) && c.wf(),
                Err(e) => config_error(*a) == Some(e),
            },
    {
        let samplerate = match a.samplerate {
            Some(v) => v,
            None => return Err(ConfigError::MissingSampleRate),
        };
        let resamplerate = match a.resamplerate {
            Some(v) => v,
            None => return Err(ConfigError::MissingResampleRate),
        };
        let inputtype = match a.inputtype {
            Some(v) => v,
            None => return Err(ConfigError::MissingInputType),
        };
        let outputtype = match a.outputtype {
            Some(v) => v,
            None => return Err(ConfigError::MissingOutputType),
        };
        let bandwidth = match a.bandwidth {
            Some(v) => v,
            None => return Err(ConfigError::MissingBandwidth),
        };
        let modulation = match a.modulation {
            Some(v) => v,
            None => return Err(ConfigError::MissingModulation),
        };
        let deviation = match a.fmargs.deviation {
            Some(v) => v,
            None => return Err(ConfigError::MissingDeviation),
        };
        if samplerate == 0 {
            return Err(ConfigError::ZeroSampleRate);
        }
        if resamplerate == 0 {
            return Err(ConfigError::ZeroResampleRate);
        }
        if bandwidth == 0 || 2 * (bandwidth as u64) >= samplerate as u64 {
            return Err(ConfigError::BandwidthOutOfRange);
        }
        if deviation == 0 {
            return Err(ConfigError::ZeroDeviation);
        }
        let squarewave = match a.fmargs.squarewave {
            Some(v) => v,
            None => false,
        };
        Ok(
            PipelineConfig {
                input_rate: samplerate,
                output_rate: resamplerate,
                bandwidth,
                deviation,
                input_type: inputtype,
                output_type: outputtype,
                modulation,
                squarewave,
            },
        )
    }

    /// Normalized cutoff frequency of the channel filter: bandwidth / input rate.
    pub fn filter_cutoff(&self) -> (r: Fraction)
        requires
            self.wf(),
        ensures
            r.num == self.bandwidth,
            r.den == self.input_rate,
            r.wf(),
            0 < 2 * r.num < r.den,
    {
        Fraction { num: self.bandwidth, den: self.input_rate }
    }

    /// Resampling ratio: output rate / input rate.
    pub fn resampling_ratio(&self) -> (r: Fraction)
        requires
            self.wf(),
        ensures
            r.num == self.output_rate,
            r.den == self.input_rate,
            r.wf(),
            r.num > 0,
    {
        Fraction { num: self.output_rate, den: self.input_rate }
    }

    /// Modulation factor of the demodulator: deviation / output rate.
    pub fn modulation_factor(&self) -> (r: Fraction)
        requires
            self.wf(),
        ensures
            r.num == self.deviation,
            r.den == self.output_rate,
            r.wf(),
            r.num > 0,
    {
        Fraction { num: self.deviation, den: self.output_rate }
    }
}

} // verus!

use vstd::prelude::*;

verus! {

/// Encoding of one component of an IQ sample in a raw byte stream.
#[derive(Clone, Copy, Debug, PartialEq, Eq, Structural)]
pub enum DataType {
    F32,
    I16,
}

impl DataType {
    /// Number of bytes that hold one component (I or Q, or one output value).
    pub open spec fn value_bytes_spec(self) -> nat {
        match self {
            DataType::F32 => 4,
            DataType::I16 => 2,
        }
    }

    /// Number of bytes that hold one complex (I, Q) sample.
    pub open spec fn sample_bytes_spec(self) -> nat {
        2 * self.value_bytes_spec()
    }

    /// Number of bytes that hold one component (I or Q, or one output value).
    pub fn value_bytes(&self) -> (r: usize)
        ensures
            r == self.value_bytes_spec(),
    {
        match self {
            DataType::F32 => 4,
            DataType::I16 => 2,
        }
    }

    /// Number of bytes that hold one complex (I, Q) sample.
    pub fn sample_bytes(&self) -> (r: usize)
        ensures
            r == self.sample_bytes_spec(),
    {
        match self {
            DataType::F32 => 8,
            DataType::I16 => 4,
        }
    }

    /// The name under which the encoding is selected on the command line.
    pub fn name(&self) -> (r: &'static str)
        ensures
            *self == DataType::F32 ==> r@ == "f32"@,
            *self == DataType::I16 ==> r@ == "i16"@,
    {
        match self {
            DataType::F32 => "f32",
            DataType::I16 => "i16",
        }
    }
}

/// The demodulation that is applied to the stream.
#[derive(Clone, Copy, Debug, PartialEq, Eq, Structural)]
pub enum Modulation {
    FM,
}

/// Settings that only frequency demodulation reads.
#[derive(Clone, Copy, Debug, PartialEq, Eq)]
pub struct FmModulationArgs {
    /// Peak frequency deviation in Hz.
    pub deviation: Option<u32>,
    /// Collapse every output value to -1, 0 or +1 by its sign before integer encoding.
    pub squarewave: Option<bool>,
}

/// The parameters of a run as the command line gives them; any may be missing.
#[derive(Clone, Copy, Debug, PartialEq, Eq)]
pub struct CommandArgs {
    /// Input sample rate in Hz.
    pub samplerate: Option<u32>,
    /// Output sample rate in Hz.
    pub resamplerate: Option<u32>,
    /// Encoding of the input samples.
    pub inputtype: Option<DataType>,
    /// Encoding of the output values.
    pub outputtype: Option<DataType>,
    /// Channel filter bandwidth in Hz.
    pub bandwidth: Option<u32>,
    pub modulation: Option<Modulation>,
    pub fmargs: FmModulationArgs,
}

} // verus!

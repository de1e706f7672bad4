use vstd::prelude::*;

use crate::config::PipelineConfig;
use crate::usage::DataType;

verus! {

/// Bytes requested from the input stream per read.
pub const CHUNK_BYTES: usize = 8192;

/// Samples of headroom added to both buffers beyond the resampler's delay.
pub const SAFETY_MARGIN: usize = 10;

/// Failures of the buffer-sizing invariants.
#[derive(Clone, Copy, Debug, PartialEq, Eq, Structural)]
pub enum BufferError {
    /// The sizes that the configuration asks for do not fit in memory addresses.
    TooLarge,
    /// The resampler reported more output samples than the output buffer holds.
    CapacityViolation,
}

/// `a / b` rounded up.
pub open spec fn ceil_div(a: int, b: int) -> int {
    (a + b - 1) / b
}

/// Samples in the input buffer: one chunk, zero padding for the resampler's delay, and the
/// safety margin.
pub open spec fn input_capacity_spec(samples_per_chunk: int, delay: int) -> int {
    samples_per_chunk + delay + SAFETY_MARGIN
}

/// Samples in the output buffer: twice the input capacity scaled by the resampling ratio
/// `out_rate / in_rate`, rounded up, plus the delay and the safety margin again.
pub open spec fn output_capacity_spec(
    samples_per_chunk: int,
    delay: int,
    out_rate: int,
    in_rate: int,
) -> int {
    ceil_div(2 * input_capacity_spec(samples_per_chunk, delay) * out_rate, in_rate) + delay
        + SAFETY_MARGIN
}

/// The preallocated buffer sizes of one pipeline, fixed for its lifetime.
#[derive(Clone, Copy, Debug, PartialEq, Eq)]
pub struct BufferPlan {
    /// Bytes per read of the input stream.
    pub chunk_bytes: usize,
    /// Complex samples that one full chunk decodes to.
    pub samples_per_chunk: usize,
    /// The resampler's group delay in output samples, rounded up.
    pub delay: u32,
    pub input_capacity: usize,
    pub output_capacity: usize,
}

proof fn lemma_ceil_div_covers(a: int, b: int)
    requires
        a >= 0,
        b > 0,
    ensures
        ceil_div(a, b) * b >= a,
{
    assert(((a + b - 1) / b) * b >= a) by (nonlinear_arith)
        requires
            a >= 0,
            b > 0,
    {
        let q = (a + b - 1) / b;
        let m = (a + b - 1) % b;
        assert(a + b - 1 == q * b + m);
        assert(m < b);
    }
}

impl BufferPlan {
    /// The output buffer covers the worst-case yield of one chunk: at least twice the input
    /// capacity scaled by the ratio `out_rate / in_rate`, and so at least twice one chunk's
    /// samples scaled by the ratio, plus the delay and the safety margin (both sides
    /// multiplied by `in_rate`).
    pub open spec fn covers_yield(self, out_rate: int, in_rate: int) -> bool {
        &&& self.input_capacity == self.samples_per_chunk + self.delay + SAFETY_MARGIN
        &&& (self.output_capacity - self.delay - SAFETY_MARGIN) * in_rate >= 2
            * self.input_capacity * out_rate
        &&& self.output_capacity * in_rate >= 2 * self.samples_per_chunk * out_rate + (self.delay
            + SAFETY_MARGIN) * in_rate
    }

    /// The sizes that `cfg` and a resampler delay of `delay` (rounded up) give.
    pub open spec fn planned(self, cfg: PipelineConfig, delay: u32) -> bool {
        &&& self.chunk_bytes == CHUNK_BYTES
        &&& self.samples_per_chunk == CHUNK_BYTES as int / (cfg.input_type.sample_bytes_spec() as int)
        &&& self.delay == delay
        &&& self.input_capacity == input_capacity_spec(self.samples_per_chunk as int, delay as int)
        &&& self.output_capacity == output_capacity_spec(
            self.samples_per_chunk as int,
            delay as int,
            cfg.output_rate as int,
            cfg.input_rate as int,
        )
    }

    /// Sizes the buffers for `cfg`, given the resampler's group delay rounded up to whole
    /// output samples.
    pub fn new(cfg: &PipelineConfig, delay: u32) -> (r: Result<BufferPlan, BufferError>)
        requires
            cfg.wf(),
        ensures
            match r {
                Ok(p) => p.planned(*cfg, delay) && p.covers_yield(
                    cfg.output_rate as int,
                    cfg.input_rate as int,
                ),
                Err(e) => e == BufferError::TooLarge,
            },
            r.is_err() <==> input_capacity_spec(
                CHUNK_BYTES as int / (cfg.input_type.sample_bytes_spec() as int),
                delay as int,
            ) > usize::MAX || output_capacity_spec(
                CHUNK_BYTES as int / (cfg.input_type.sample_bytes_spec() as int),
                delay as int,
                cfg.output_rate as int,
                cfg.input_rate as int,
            ) > usize::MAX,
    {
        let samples_per_chunk: usize = match cfg.input_type {
            DataType::F32 => CHUNK_BYTES / 8,
            DataType::I16 => CHUNK_BYTES / 4,
        };
        let input_capacity: u64 = samples_per_chunk as u64 + delay as u64 + SAFETY_MARGIN as u64;
        let in_rate: u128 = cfg.input_rate as u128;
        let out_rate: u128 = cfg.output_rate as u128;
        assert(2 * (input_capacity as u128) * out_rate <= 0x4_0000_0000_0000_0000u128)
            by (nonlinear_arith)
            requires
                input_capacity <= 0x1_0000_1000u64,
                out_rate <= 0xffff_ffffu128,
        ;
        let scaled: u128 = 2 * (input_capacity as u128) * (cfg.output_rate as u128);
        let output_capacity: u128 = (scaled + in_rate - 1) / in_rate + delay as u128
            + SAFETY_MARGIN as u128;
        if output_capacity > usize::MAX as u128 || input_capacity > usize::MAX as u64 {
            return Err(BufferError::TooLarge);
        }
        let plan = BufferPlan {
            chunk_bytes: CHUNK_BYTES,
            samples_per_chunk,
            delay,
            input_capacity: input_capacity as usize,
            output_capacity: output_capacity as usize,
        };
        proof {
            let ic = input_capacity as int;
            let o = cfg.output_rate as int;
            let i = cfg.input_rate as int;
            let c = ceil_div(2 * ic * o, i);
            lemma_ceil_div_covers(2 * ic * o, i);
            assert(c * i >= 2 * samples_per_chunk * o) by (nonlinear_arith)
                requires
                    c * i >= 2 * ic * o,
                    ic == samples_per_chunk + delay + SAFETY_MARGIN,
                    o >= 1,
                    i >= 1,
            ;
            assert((c + delay + SAFETY_MARGIN) * i == c * i + (delay + SAFETY_MARGIN) * i)
                by (nonlinear_arith);
        }
        Ok(plan)
    }

    /// Accepts a resampler yield of `count` samples when the output buffer holds that many.
    pub fn check_yield(&self, count: usize) -> (r: Result<usize, BufferError>)
        ensures
            count <= self.output_capacity <==> r == Ok::<usize, BufferError>(count),
            count > self.output_capacity <==> r == Err::<usize, BufferError>(
                BufferError::CapacityViolation,
            ),
    {
        if count <= self.output_capacity {
            Ok(count)
        } else {
            Err(BufferError::CapacityViolation)
        }
    }
}

/// Every chunk that one read can deliver decodes to no more samples than one full chunk,
/// and so fits the input buffer.
pub proof fn decoded_chunk_fits_input(plan: BufferPlan, cfg: PipelineConfig, delay: u32, len: nat)
    requires
        plan.planned(cfg, delay),
        len <= plan.chunk_bytes,
    ensures
        len / cfg.input_type.sample_bytes_spec() <= plan.samples_per_chunk,
        plan.samples_per_chunk <= plan.input_capacity,
{
    let b: int = cfg.input_type.sample_bytes_spec() as int;
    assert(b == 4 || b == 8);
    assert(len as int / b <= CHUNK_BYTES as int / b) by (nonlinear_arith)
        requires
            len <= CHUNK_BYTES,
            b > 0,
    ;
}

} // verus!

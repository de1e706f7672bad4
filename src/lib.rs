//! The integer-exact core of a streaming FM demodulator: validation of the run's
//! parameters, sizing of the sample buffers, little-endian decoding and encoding of raw
//! sample chunks, shaping of integer output, the filter prototype tags, and the decisions
//! of the read loop.
use vstd::prelude::*;

pub mod buffers;
pub mod codec;
pub mod config;
pub mod firfilt;
pub mod stream;
pub mod usage;

verus! {

} // verus!

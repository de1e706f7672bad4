use demod::buffers::{BufferError, BufferPlan, CHUNK_BYTES};
use demod::config::PipelineConfig;
use demod::usage::{CommandArgs, DataType, FmModulationArgs, Modulation};

fn config(input: DataType, samplerate: u32, resamplerate: u32) -> PipelineConfig {
    let a = CommandArgs {
        samplerate: Some(samplerate),
        resamplerate: Some(resamplerate),
        inputtype: Some(input),
        outputtype: Some(DataType::I16),
        bandwidth: Some(12000),
        modulation: Some(Modulation::FM),
        fmargs: FmModulationArgs { deviation: Some(5000), squarewave: None },
    };
    PipelineConfig::from_args(&a).unwrap()
}

#[test]
fn plan_for_decimation_by_five() {
    let p = BufferPlan::new(&config(DataType::I16, 240000, 48000), 7).unwrap();
    assert_eq!(p.chunk_bytes, CHUNK_BYTES);
    assert_eq!(p.samples_per_chunk, 2048);
    assert_eq!(p.delay, 7);
    assert_eq!(p.input_capacity, 2065);
    assert_eq!(p.output_capacity, 826 + 17);
}

#[test]
fn plan_for_unit_ratio() {
    let p = BufferPlan::new(&config(DataType::F32, 48000, 48000), 3).unwrap();
    assert_eq!(p.samples_per_chunk, 1024);
    assert_eq!(p.input_capacity, 1037);
    assert_eq!(p.output_capacity, 2074 + 13);
}

#[test]
fn plan_rounds_output_up() {
    // 2 * 2059 * 10000 / 30000 = 1372.67, rounded up to 1373.
    let p = BufferPlan::new(&config(DataType::I16, 30000, 10000), 1).unwrap();
    assert_eq!(p.input_capacity, 2059);
    assert_eq!(p.output_capacity, 1373 + 11);
}

#[test]
fn output_capacity_covers_a_chunk_and_the_delay() {
    for (rate_in, rate_out, delay) in [(240000u32, 48000u32, 0u32), (48000, 240000, 40), (44100, 48000, 13)] {
        let cfg = config(DataType::I16, rate_in, rate_out);
        let p = BufferPlan::new(&cfg, delay).unwrap();
        let need = 2 * p.samples_per_chunk as u64 * rate_out as u64 + (delay as u64 + 10) * rate_in as u64;
        assert!(p.output_capacity as u64 * rate_in as u64 >= need);
    }
}

#[test]
fn yield_over_capacity_is_a_violation() {
    let p = BufferPlan::new(&config(DataType::I16, 240000, 48000), 7).unwrap();
    assert_eq!(p.check_yield(0), Ok(0));
    assert_eq!(p.check_yield(410), Ok(410));
    assert_eq!(p.check_yield(843), Ok(843));
    assert_eq!(p.check_yield(844), Err(BufferError::CapacityViolation));
}

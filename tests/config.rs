use demod::config::{ConfigError, PipelineConfig};
use demod::usage::{CommandArgs, DataType, FmModulationArgs, Modulation};

fn full_args() -> CommandArgs {
    CommandArgs {
        samplerate: Some(240000),
        resamplerate: Some(48000),
        inputtype: Some(DataType::I16),
        outputtype: Some(DataType::I16),
        bandwidth: Some(12000),
        modulation: Some(Modulation::FM),
        fmargs: FmModulationArgs { deviation: Some(5000), squarewave: Some(false) },
    }
}

#[test]
fn resolves_complete_args() {
    let c = PipelineConfig::from_args(&full_args()).unwrap();
    assert_eq!(c.input_rate, 240000);
    assert_eq!(c.output_rate, 48000);
    assert_eq!(c.bandwidth, 12000);
    assert_eq!(c.deviation, 5000);
    assert_eq!(c.input_type, DataType::I16);
    assert_eq!(c.output_type, DataType::I16);
    assert_eq!(c.modulation, Modulation::FM);
    assert!(!c.squarewave);
}

#[test]
fn derived_parameters_are_exact_ratios() {
    let c = PipelineConfig::from_args(&full_args()).unwrap();
    let cutoff = c.filter_cutoff();
    assert_eq!((cutoff.num, cutoff.den), (12000, 240000));
    let ratio = c.resampling_ratio();
    assert_eq!((ratio.num, ratio.den), (48000, 240000));
    let kf = c.modulation_factor();
    assert_eq!((kf.num, kf.den), (5000, 48000));
}

#[test]
fn squarewave_defaults_to_off() {
    let mut a = full_args();
    a.fmargs.squarewave = None;
    assert!(!PipelineConfig::from_args(&a).unwrap().squarewave);
    a.fmargs.squarewave = Some(true);
    assert!(PipelineConfig::from_args(&a).unwrap().squarewave);
}

#[test]
fn missing_values_are_reported_in_order() {
    let mut a = full_args();
    a.samplerate = None;
    a.bandwidth = None;
    assert_eq!(PipelineConfig::from_args(&a), Err(ConfigError::MissingSampleRate));

    let mut a = full_args();
    a.resamplerate = None;
    assert_eq!(PipelineConfig::from_args(&a), Err(ConfigError::MissingResampleRate));

    let mut a = full_args();
    a.inputtype = None;
    assert_eq!(PipelineConfig::from_args(&a), Err(ConfigError::MissingInputType));

    let mut a = full_args();
    a.outputtype = None;
    assert_eq!(PipelineConfig::from_args(&a), Err(ConfigError::MissingOutputType));

    let mut a = full_args();
    a.bandwidth = None;
    assert_eq!(PipelineConfig::from_args(&a), Err(ConfigError::MissingBandwidth));

    let mut a = full_args();
    a.modulation = None;
    assert_eq!(PipelineConfig::from_args(&a), Err(ConfigError::MissingModulation));

    let mut a = full_args();
    a.fmargs.deviation = None;
    assert_eq!(PipelineConfig::from_args(&a), Err(ConfigError::MissingDeviation));
}

#[test]
fn out_of_range_values_are_rejected() {
    let mut a = full_args();
    a.samplerate = Some(0);
    assert_eq!(PipelineConfig::from_args(&a), Err(ConfigError::ZeroSampleRate));

    let mut a = full_args();
    a.resamplerate = Some(0);
    assert_eq!(PipelineConfig::from_args(&a), Err(ConfigError::ZeroResampleRate));

    let mut a = full_args();
    a.bandwidth = Some(0);
    assert_eq!(PipelineConfig::from_args(&a), Err(ConfigError::BandwidthOutOfRange));

    let mut a = full_args();
    a.bandwidth = Some(120000);
    assert_eq!(PipelineConfig::from_args(&a), Err(ConfigError::BandwidthOutOfRange));

    let mut a = full_args();
    a.bandwidth = Some(119999);
    assert!(PipelineConfig::from_args(&a).is_ok());

    let mut a = full_args();
    a.fmargs.deviation = Some(0);
    assert_eq!(PipelineConfig::from_args(&a), Err(ConfigError::ZeroDeviation));
}

#[test]
fn data_type_names() {
    assert_eq!(DataType::F32.name(), "f32");
    assert_eq!(DataType::I16.name(), "i16");
    assert_eq!(DataType::F32.sample_bytes(), 8);
    assert_eq!(DataType::I16.sample_bytes(), 4);
    assert_eq!(DataType::F32.value_bytes(), 4);
    assert_eq!(DataType::I16.value_bytes(), 2);
}

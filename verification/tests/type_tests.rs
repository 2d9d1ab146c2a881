use resample::ConverterType;
use resample::ResampleType;

#[test]
fn converter_type_name() {
    assert_eq!(
        ConverterType::SincBestQuality.name(),
        "Best Sinc Interpolator"
    );
    assert_eq!(
        ConverterType::SincMediumQuality.name(),
        "Medium Sinc Interpolator"
    );
    assert_eq!(
        ConverterType::SincFastest.name(),
        "Fastest Sinc Interpolator"
    );
    assert_eq!(ConverterType::ZeroOrderHold.name(), "ZOH Interpolator");
    assert_eq!(ConverterType::Linear.name(), "Linear Interpolator");
}

#[test]
fn converter_type_description() {
    assert_eq!(
        ConverterType::SincBestQuality.description(),
        "Band limited sinc interpolation, best quality, 144dB SNR, 96% BW."
    );
    assert_eq!(
        ConverterType::SincMediumQuality.description(),
        "Band limited sinc interpolation, medium quality, 121dB SNR, 90% BW."
    );
    assert_eq!(
        ConverterType::SincFastest.description(),
        "Band limited sinc interpolation, fastest, 97dB SNR, 80% BW."
    );
    assert_eq!(
        ConverterType::ZeroOrderHold.description(),
        "Zero order hold interpolator, very fast, poor quality."
    );
    assert_eq!(
        ConverterType::Linear.description(),
        "Linear interpolator, very fast, poor quality."
    );
}

#[test]
fn resample_type_name() {
    assert_eq!(
        ResampleType::SincBestQuality.name(),
        "Best Sinc Interpolator"
    );
    assert_eq!(
        ResampleType::SincMediumQuality.name(),
        "Medium Sinc Interpolator"
    );
    assert_eq!(
        ResampleType::SincFastest.name(),
        "Fastest Sinc Interpolator"
    );
    assert_eq!(ResampleType::ZeroOrderHold.name(), "ZOH Interpolator");
    assert_eq!(ResampleType::Linear.name(), "Linear Interpolator");
}

#[test]
fn resample_type_description() {
    assert_eq!(
        ResampleType::SincBestQuality.description(),
        "Band limited sinc interpolation, best quality, 144dB SNR, 96% BW."
    );
    assert_eq!(
        ResampleType::SincMediumQuality.description(),
        "Band limited sinc interpolation, medium quality, 121dB SNR, 90% BW."
    );
    assert_eq!(
        ResampleType::SincFastest.description(),
        "Band limited sinc interpolation, fastest, 97dB SNR, 80% BW."
    );
    assert_eq!(
        ResampleType::ZeroOrderHold.description(),
        "Zero order hold interpolator, very fast, poor quality."
    );
    assert_eq!(
        ResampleType::Linear.description(),
        "Linear interpolator, very fast, poor quality."
    );
}

#[test]
fn linear_registry_entries() {
    assert_eq!(
        resample::linear_get_name(resample::SRC_LINEAR),
        Some("Linear Interpolator")
    );
    assert_eq!(
        resample::linear_get_description(resample::SRC_LINEAR),
        Some("Linear interpolator, very fast, poor quality.")
    );
    assert_eq!(resample::linear_get_name(0), None);
    assert_eq!(resample::linear_get_description(3), None);
}

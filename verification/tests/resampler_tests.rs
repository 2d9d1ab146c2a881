use resample::ErrorKind;
use resample::Processed;
use resample::ResampleType;
use resample::Resampler;
use resample::convert_step;
use resample::initial_output_len;
use resample::output_frames_estimate;
use resample::validate_ratio;

#[test]
fn samplerate_new_channels_correct() {
    let resampler = Resampler::new(ResampleType::Linear, 4, 44100, 48000).unwrap();
    assert_eq!(resampler.channels, 4);
}

#[test]
fn new_keeps_parameters() {
    let resampler = Resampler::new(ResampleType::SincBestQuality, 2, 44100, 48000).unwrap();
    assert_eq!(resampler.resample_type, ResampleType::SincBestQuality);
    assert_eq!(resampler.channels, 2);
    assert_eq!(resampler.from_rate, 44100);
    assert_eq!(resampler.to_rate, 48000);
}

#[test]
fn new_rejects_zero_channels() {
    let err = Resampler::new(ResampleType::Linear, 0, 44100, 48000).unwrap_err();
    assert_eq!(err.kind(), ErrorKind::BadChannelCount);
}

#[test]
fn new_rejects_ratio_too_large() {
    // A ratio of 300 lies above the supported maximum of 256.
    let err = Resampler::new(ResampleType::SincBestQuality, 1, 1, 300).unwrap_err();
    assert_eq!(err.kind(), ErrorKind::BadSrcRatio);
}

#[test]
fn new_rejects_ratio_too_small() {
    let err = Resampler::new(ResampleType::Linear, 1, 300, 1).unwrap_err();
    assert_eq!(err.kind(), ErrorKind::BadSrcRatio);
}

#[test]
fn validate_ratio_boundaries() {
    // The boundary ratios 256 and 1/256 are supported.
    assert!(validate_ratio(256, 1));
    assert!(validate_ratio(1, 256));
    // One step past either boundary is not.
    assert!(!validate_ratio(257, 1));
    assert!(!validate_ratio(1, 257));
    // Scaled boundaries behave the same.
    assert!(validate_ratio(256 * 3, 3));
    assert!(!validate_ratio(256 * 3 + 1, 3));
    // Everyday rates are supported in both directions.
    assert!(validate_ratio(48000, 44100));
    assert!(validate_ratio(44100, 48000));
    // A rate of zero admits no ratio at all.
    assert!(!validate_ratio(0, 44100));
    assert!(!validate_ratio(44100, 0));
    assert!(!validate_ratio(0, 0));
}

#[test]
fn output_frames_estimate_exact() {
    // One second of 44100 Hz input at 48000 Hz yields 48000 frames.
    assert_eq!(output_frames_estimate(44100, 44100, 48000), Some(48000));
    // Downward conversion rounds up to whole frames: 22050 * 16000 / 44100 = 8000.
    assert_eq!(output_frames_estimate(22050, 44100, 16000), Some(8000));
    // 3 frames at ratio 1/2 round up: ceil(3 / 2) = 2.
    assert_eq!(output_frames_estimate(3, 2, 1), Some(2));
    // No input, no output.
    assert_eq!(output_frames_estimate(0, 44100, 48000), Some(0));
    // An overflowing intermediate product is reported, not wrapped.
    assert_eq!(output_frames_estimate(usize::MAX, 2, 2), None);
}

#[test]
fn initial_output_len_exact() {
    assert_eq!(initial_output_len(44100, 1, 44100, 48000), Some(48000));
    // Five stereo frames at ratio 48000/44100: ceil(5 * 48000 / 44100) = 6
    // frames, which is 12 interleaved samples.
    assert_eq!(initial_output_len(10, 2, 44100, 48000), Some(12));
    assert_eq!(initial_output_len(0, 2, 44100, 48000), Some(0));
}

#[test]
fn output_frames_estimate_round_trip() {
    // Estimating a frame count there and back again loses nothing.
    let down = output_frames_estimate(16384, 1, 2).unwrap();
    assert_eq!(down, 32768);
    assert_eq!(output_frames_estimate(down, 2, 1), Some(16384));

    let down = output_frames_estimate(22050, 44100, 16000).unwrap();
    assert_eq!(down, 8000);
    assert_eq!(output_frames_estimate(down, 16000, 44100), Some(22050));

    // With rounding in play the way back may overshoot, but never by more
    // than the ceiling of one frame of the coarser rate.
    let down = output_frames_estimate(100, 44100, 48000).unwrap();
    assert_eq!(down, 109);
    assert_eq!(output_frames_estimate(down, 48000, 44100), Some(101));
}

#[test]
fn convert_step_decisions() {
    // All input read: the conversion is done.
    assert_eq!(convert_step(44100, 44100, 48000, 1), None);
    assert_eq!(convert_step(50000, 44100, 48000, 1), None);
    // Input remains: grow the output buffer by 64 frames.
    assert_eq!(convert_step(100, 44100, 48000, 1), Some(48064));
    assert_eq!(convert_step(100, 44100, 48000, 2), Some(48128));
}

#[test]
fn processed_accumulates() {
    let mut total = Processed::default();
    assert_eq!(total.read, 0);
    assert_eq!(total.written, 0);
    total.accumulate(Processed {
        read: 4410,
        written: 4800,
    });
    total.accumulate(Processed {
        read: 90,
        written: 100,
    });
    assert_eq!(total.read, 4500);
    assert_eq!(total.written, 4900);
}

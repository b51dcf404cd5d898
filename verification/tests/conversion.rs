use hush::sample::convert;
use hush::sample::convert_block;
use hush::sample::NativeSample;
use hush::sample::Sample;
use hush::sample::SampleFormat;

#[test]
fn int8_full_scale_boundaries() {
    assert_eq!(convert(NativeSample::Int8(127)), Sample { q: 0x7f00_0000 });
    assert_eq!(convert(NativeSample::Int8(-128)), Sample { q: i32::MIN });
}

#[test]
fn int16_full_scale_boundaries() {
    assert_eq!(convert(NativeSample::Int16(32767)), Sample { q: 0x7fff_0000 });
    assert_eq!(convert(NativeSample::Int16(-32768)), Sample { q: i32::MIN });
}

#[test]
fn int32_full_scale_boundaries() {
    assert_eq!(convert(NativeSample::Int32(i32::MAX)), Sample { q: i32::MAX });
    assert_eq!(convert(NativeSample::Int32(i32::MIN)), Sample { q: i32::MIN });
}

#[test]
fn float32_full_scale_passthrough() {
    assert_eq!(
        convert(NativeSample::Float32(Sample { q: i32::MAX })),
        Sample { q: i32::MAX }
    );
    assert_eq!(
        convert(NativeSample::Float32(Sample { q: i32::MIN })),
        Sample { q: i32::MIN }
    );
}

#[test]
fn conversion_is_linear_midpoints() {
    assert_eq!(convert(NativeSample::Int8(1)), Sample { q: 0x0100_0000 });
    assert_eq!(convert(NativeSample::Int8(-1)), Sample { q: -0x0100_0000 });
    assert_eq!(convert(NativeSample::Int16(1)), Sample { q: 0x0001_0000 });
    assert_eq!(convert(NativeSample::Int16(-2)), Sample { q: -0x0002_0000 });
    assert_eq!(convert(NativeSample::Int32(12345)), Sample { q: 12345 });
    assert_eq!(convert(NativeSample::Int8(0)), Sample { q: 0 });
}

#[test]
fn block_conversion_keeps_length_and_order() {
    let block = vec![
        NativeSample::Int8(127),
        NativeSample::Int16(-32768),
        NativeSample::Int32(7),
        NativeSample::Float32(Sample { q: 99 }),
    ];
    let out = convert_block(&block);
    assert_eq!(out.len(), 4);
    assert_eq!(out[0], Sample { q: 0x7f00_0000 });
    assert_eq!(out[1], Sample { q: i32::MIN });
    assert_eq!(out[2], Sample { q: 7 });
    assert_eq!(out[3], Sample { q: 99 });
}

#[test]
fn format_support_and_container_width() {
    assert!(SampleFormat::Int8.is_supported());
    assert!(SampleFormat::Int16.is_supported());
    assert!(SampleFormat::Int32.is_supported());
    assert!(SampleFormat::Float32.is_supported());
    assert!(!SampleFormat::Unsupported.is_supported());

    assert_eq!(SampleFormat::Int8.sample_bytes(), 1);
    assert_eq!(SampleFormat::Int16.sample_bytes(), 2);
    assert_eq!(SampleFormat::Int32.sample_bytes(), 4);
    assert_eq!(SampleFormat::Float32.sample_bytes(), 4);

    assert!(SampleFormat::Float32.is_float());
    assert!(!SampleFormat::Int32.is_float());
}

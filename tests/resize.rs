use pixlproc::{KnownProcessor, LinearPipeline, ProcessError, ResizeJob, ResizeProcessor, Type, RGB};
use rgb::FromSlice;

fn resample(job: ResizeJob, img: RGB<f64>) -> Vec<f64> {
    let kernel = match job.kernel {
        Type::Point => resize::Type::Point,
        Type::Triangle => resize::Type::Triangle,
        Type::Catrom => resize::Type::Catrom,
        Type::Mitchell => resize::Type::Mitchell,
        Type::Lanczos3 => resize::Type::Lanczos3,
    };
    let mut out = vec![0.0f64; job.dst_width * job.dst_height * 3];
    let mut resizer = resize::new(
        job.src_width,
        job.src_height,
        job.dst_width,
        job.dst_height,
        resize::Pixel::RGBF64,
        kernel,
    )
    .unwrap();
    resizer.resize(img.data().as_rgb(), out.as_rgb_mut()).unwrap();
    out
}

fn complement(v: f64) -> f64 {
    1.0 - v
}

fn sized(width: usize, height: usize, kernel: Type) -> ResizeProcessor {
    let mut p = ResizeProcessor::new();
    p.width = Some(width);
    p.height = Some(height);
    p.resizer = kernel;
    p
}

const KERNELS: [Type; 5] = [Type::Point, Type::Triangle, Type::Catrom, Type::Mitchell, Type::Lanczos3];

#[test]
fn triangle_two_to_one() {
    let img = RGB::from_samples(2, 1, vec![0f64, 1.0, 2.0, 3.0, 4.0, 5.0]).unwrap();
    let out = sized(1, 1, Type::Triangle).process(vec![img], &resample).unwrap();
    assert_eq!(out.len(), 1);
    assert_eq!((out[0].width(), out[0].height()), (1, 1));
    let expected = [1.5, 2.5, 3.5];
    for (a, b) in out[0].data().iter().zip(expected.iter()) {
        assert!((a - b).abs() < 1e-4, "{} vs {}", a, b);
    }
}

#[test]
fn point_same_size_is_identity() {
    // The resampler accumulates in single precision: these samples are
    // exact there.
    let samples: Vec<f64> = (0..36).map(|v| (v as f64) / 64.0).collect();
    let img = RGB::from_samples(4, 3, samples.clone()).unwrap();
    let out = sized(4, 3, Type::Point).process(vec![img], &resample).unwrap();
    assert_eq!(out[0].data(), samples.as_slice());
}

#[test]
fn output_length_for_every_kernel() {
    for kernel in KERNELS.iter() {
        for &(dw, dh) in [(1usize, 1usize), (3, 2), (7, 5), (2, 9)].iter() {
            let img = RGB::from_samples(4, 3, vec![0.5f64; 36]).unwrap();
            let out = sized(dw, dh, *kernel).process(vec![img], &resample).unwrap();
            assert_eq!(out[0].data().len(), dw * dh * 3);
            assert_eq!((out[0].width(), out[0].height()), (dw, dh));
        }
    }
}

#[test]
fn width_only_keeps_aspect() {
    let p = ResizeProcessor::with_width(50);
    assert_eq!(p.target_dimensions(100, 50), Ok((50, 25)));
    let img = RGB::from_samples(100, 50, vec![0.25f64; 100 * 50 * 3]).unwrap();
    let out = p.process(vec![img], &resample).unwrap();
    assert_eq!((out[0].width(), out[0].height()), (50, 25));
    assert_eq!(out[0].data().len(), 50 * 25 * 3);
}

#[test]
fn height_only_keeps_aspect() {
    let p = ResizeProcessor::with_height(20);
    assert_eq!(p.target_dimensions(100, 50), Ok((40, 20)));
    assert_eq!(p.target_dimensions(3, 7), Ok((8, 20)));
}

#[test]
fn both_dimensions_used_verbatim() {
    assert_eq!(sized(10, 90, Type::Point).target_dimensions(100, 50), Ok((10, 90)));
}

#[test]
fn defaults() {
    let p = ResizeProcessor::new();
    assert_eq!((p.width, p.height, p.resizer), (None, None, Type::Point));
    assert_eq!(p.num_slots(), (1, 1));
}

#[test]
fn missing_target_fails() {
    let img = RGB::from_samples(1, 1, vec![0.0f64; 3]).unwrap();
    let r = ResizeProcessor::new().process(vec![img], &resample);
    assert_eq!(r.err(), Some(ProcessError::MissingTarget));
}

#[test]
fn zero_extents_fail() {
    assert_eq!(ResizeProcessor::with_width(10).target_dimensions(0, 5), Err(ProcessError::ZeroExtent));
    assert_eq!(ResizeProcessor::with_width(0).target_dimensions(4, 5), Err(ProcessError::ZeroExtent));
    assert_eq!(ResizeProcessor::with_width(1).target_dimensions(10, 5), Err(ProcessError::ZeroExtent));
    let img = RGB::from_samples(0, 0, Vec::<f64>::new()).unwrap();
    let r = sized(2, 2, Type::Triangle).process(vec![img], &resample);
    assert_eq!(r.err(), Some(ProcessError::ZeroExtent));
}

#[test]
fn oversized_target_fails() {
    assert_eq!(sized(usize::MAX, 2, Type::Point).target_dimensions(1, 1), Err(ProcessError::TooLarge));
    assert_eq!(ResizeProcessor::with_width(usize::MAX).target_dimensions(1, 2), Err(ProcessError::TooLarge));
}

#[test]
fn resize_needs_exactly_one_image() {
    let a = RGB::from_samples(1, 1, vec![0.0f64; 3]).unwrap();
    let b = RGB::from_samples(1, 1, vec![0.0f64; 3]).unwrap();
    let r = sized(1, 1, Type::Point).process(vec![a, b], &resample);
    assert_eq!(r.err(), Some(ProcessError::Arity { expected: 1, actual: 2 }));
}

#[test]
fn short_resampler_output_is_rejected() {
    let img = RGB::from_samples(2, 2, vec![0.0f64; 12]).unwrap();
    let r = sized(1, 1, Type::Point).process(vec![img], &|_job: ResizeJob, _img: RGB<f64>| vec![0.0f64; 2]);
    assert_eq!(r.err(), Some(ProcessError::DataLength));
}

#[test]
fn pipeline_resize_then_invert() {
    let mut proc = LinearPipeline::new();
    proc.push(KnownProcessor::Resize(ResizeProcessor::with_width(1)));
    proc.push(KnownProcessor::Invert(pixlproc::InvertProcessor::new()));
    assert_eq!(proc.len(), 2);
    assert_eq!(proc.num_slots(), (1, 1));
    let img = RGB::from_samples(2, 2, vec![0.25f64; 12]).unwrap();
    let out = proc.process(vec![img], &complement, &resample).unwrap();
    assert_eq!(out.len(), 1);
    assert_eq!((out[0].width(), out[0].height()), (1, 1));
    for v in out[0].data() {
        assert!((v - 0.75).abs() < 1e-6);
    }
}

#[test]
fn pipeline_wiring_mismatch_fails_before_stage() {
    let mut proc = LinearPipeline::new();
    proc.push(KnownProcessor::Invert(pixlproc::InvertProcessor::new()));
    proc.push(KnownProcessor::Resize(ResizeProcessor::new()));
    let a = RGB::from_samples(1, 1, vec![0.0f64; 3]).unwrap();
    let b = RGB::from_samples(1, 1, vec![0.0f64; 3]).unwrap();
    let r = proc.process(vec![a, b], &complement, &resample);
    assert_eq!(r.err(), Some(ProcessError::Wiring { stage: 0, expected: 1, actual: 2 }));
}

#[test]
fn pipeline_stage_error_propagates() {
    let mut proc = LinearPipeline::new();
    proc.push(KnownProcessor::Invert(pixlproc::InvertProcessor::new()));
    proc.push(KnownProcessor::Resize(ResizeProcessor::new()));
    let a = RGB::from_samples(1, 1, vec![0.0f64; 3]).unwrap();
    let r = proc.process(vec![a], &complement, &resample);
    assert_eq!(r.err(), Some(ProcessError::MissingTarget));
}

#[test]
fn empty_pipeline_passes_through() {
    let mut proc = LinearPipeline::new();
    assert_eq!(proc.num_slots(), (0, 0));
    proc.clear_caches();
    let a = RGB::from_samples(1, 1, vec![0.1f64, 0.2, 0.3]).unwrap();
    let out = proc.process(vec![a], &complement, &resample).unwrap();
    assert_eq!(out[0].data(), vec![0.1, 0.2, 0.3].as_slice());
}

#[test]
fn clear_caches_keeps_stages() {
    let mut proc = LinearPipeline::new();
    proc.push(KnownProcessor::Resize(ResizeProcessor::with_height(1)));
    proc.clear_caches();
    assert_eq!(proc.len(), 1);
    let mut stage = KnownProcessor::Invert(pixlproc::InvertProcessor::new());
    stage.clear_caches();
    assert_eq!(stage.num_slots(), (1, 1));
    let img = RGB::from_samples(2, 2, vec![1.0f64; 12]).unwrap();
    let out = proc.process(vec![img], &complement, &resample).unwrap();
    assert_eq!((out[0].width(), out[0].height()), (1, 1));
    assert_eq!(proc.pipeline.len(), 1);
}

#[test]
fn nested_pipeline_runs_its_stages() {
    let mut inner = LinearPipeline::new();
    inner.push(KnownProcessor::Invert(pixlproc::InvertProcessor::new()));
    inner.push(KnownProcessor::Invert(pixlproc::InvertProcessor::new()));
    let mut outer = LinearPipeline::new();
    outer.push(KnownProcessor::Pipeline(inner));
    outer.push(KnownProcessor::Invert(pixlproc::InvertProcessor::new()));
    assert_eq!(outer.num_slots(), (1, 1));
    outer.clear_caches();
    let img = RGB::from_samples(1, 1, vec![0.25f64, 0.5, 1.0]).unwrap();
    let out = outer.process(vec![img], &complement, &resample).unwrap();
    assert_eq!(out[0].data(), vec![0.75, 0.5, 0.0].as_slice());
}

#[test]
fn one_output_into_zero_input_stage_fails() {
    let mut outer = LinearPipeline::new();
    outer.push(KnownProcessor::Invert(pixlproc::InvertProcessor::new()));
    outer.push(KnownProcessor::Pipeline(LinearPipeline::new()));
    assert_eq!(outer.pipeline[1].num_slots(), (0, 0));
    let img = RGB::from_samples(1, 1, vec![0.25f64, 0.5, 1.0]).unwrap();
    let r = outer.process(vec![img], &complement, &resample);
    assert_eq!(r.err(), Some(ProcessError::Wiring { stage: 1, expected: 0, actual: 1 }));
}

#[test]
fn nested_wiring_error_names_inner_stage() {
    let mut inner = LinearPipeline::new();
    inner.push(KnownProcessor::Invert(pixlproc::InvertProcessor::new()));
    inner.push(KnownProcessor::Pipeline(LinearPipeline::new()));
    let mut outer = LinearPipeline::new();
    outer.push(KnownProcessor::Pipeline(inner));
    let img = RGB::from_samples(1, 1, vec![0.0f64; 3]).unwrap();
    let r = outer.process(vec![img], &complement, &resample);
    assert_eq!(r.err(), Some(ProcessError::Wiring { stage: 1, expected: 0, actual: 1 }));
}

//! Scaling and exact-value tests for the CIC up- and down-converters.

use l1::cic::{CicDdc, CicDuc, IqSample, SineEntry};
use num::Complex;

/// Build a Q15 sine table of the given length.
fn make_sinetable(length: usize) -> Vec<SineEntry> {
    let freq: f32 = std::f32::consts::PI * 2.0 / (length as f32);
    (0..length)
        .map(|i| {
            let phase = i as f32 * freq;
            let scale = i16::MAX as f32;
            SineEntry {
                re: (phase.cos() * scale).round() as i16,
                im: (phase.sin() * scale).round() as i16,
            }
        })
        .collect()
}

/// Scaling factors of a down-converter with `stages + 1` CIC stages.
fn ddc_scaling(stages: u32, ratio: usize, max_in: f32) -> (f32, f32) {
    let growth = (ratio as f32).powi((stages + 1) as i32);
    let cic_in_max = (i64::MAX as f32) / growth;
    let sine_in_max = (i64::MAX >> 16) as f32;
    let input_scaling = cic_in_max.min(sine_in_max) / max_in;
    let output_scaling = 2.0 / (input_scaling * growth);
    (input_scaling, output_scaling)
}

/// Scaling factors of an up-converter with `stages + 1` CIC stages.
fn duc_scaling(stages: u32, ratio: usize, max_in: f32) -> (f32, f32) {
    let growth = (ratio as f32).powi(stages as i32);
    let cic_in_max = (i64::MAX as f32) / growth;
    let input_scaling = cic_in_max / max_in;
    let output_scaling = 2.0 / (input_scaling * growth);
    (input_scaling, output_scaling)
}

fn cf32_to_sample(sample: Complex<f32>, scaling: f32) -> IqSample {
    IqSample { re: (sample.re * scaling) as i64, im: (sample.im * scaling) as i64 }
}

fn sample_to_cf32(sample: IqSample, scaling: f32) -> Complex<f32> {
    Complex::<f32> { re: sample.re as f32 * scaling, im: sample.im as f32 * scaling }
}

fn cf32_to_buf(input: &[Complex<f32>], output: &mut [IqSample], scaling: f32) {
    input.iter().zip(output).for_each(|(in_, out)| {
        *out = IqSample { re: (in_.re * scaling) as i64, im: (in_.im * scaling) as i64 }
    });
}

fn buf_to_cf32(input: &[IqSample], output: &mut [Complex<f32>], scaling: f32) {
    input.iter().zip(output).for_each(|(in_, out)| {
        *out = Complex::<f32> { re: in_.re as f32 * scaling, im: in_.im as f32 * scaling }
    });
}

#[test]
fn test_duc_scaling() {
    let sinetable = make_sinetable(100);

    for ratio in [1usize, 10, 100, 1000] {
        println!("Testing interpolation ratio {}", ratio);
        let mut duc = CicDuc::new(sinetable.clone(), 1, 4);
        let max_in = 1.0;
        let (scale_in, scale_out) = duc_scaling(4, ratio, max_in);
        // Test with worst case value (both elements max_in)
        // to check it does not overflow.
        let v_in = Complex::<f32> { re: max_in, im: max_in };
        for i in 0..100 {
            let mut cicbuf: Vec<IqSample> = vec![IqSample { re: 0, im: 0 }; ratio];
            let mut floatbuf: Vec<Complex<f32>> = vec![Complex::<f32> { re: 0.0, im: 0.0 }; ratio];
            duc.process(cf32_to_sample(v_in, scale_in), &mut cicbuf);
            buf_to_cf32(&cicbuf[..], &mut floatbuf[..], scale_out);
            // Skip test for first few samples where output has not settled yet
            if i > 10 {
                // Output should be sine wave with the same amplitude
                // as DUC input value. Check that it is close enough.
                for o in &floatbuf[..] {
                    let gain = o.norm() / v_in.norm();
                    assert!(gain > 0.99);
                    assert!(gain < 1.01);
                }
            }
        }
    }
}

#[test]
fn test_ddc_scaling() {
    let sinetable = make_sinetable(100);

    for ratio in [1usize, 10, 100, 1000] {
        println!("Testing decimation ratio {}", ratio);
        // Set center frequency to 0 so it can be fed DC for testing.
        let mut ddc = CicDdc::new(sinetable.clone(), 0, 4);
        let max_in = 1.0;
        let (scale_in, scale_out) = ddc_scaling(4, ratio, max_in);
        // Test with worst case value (both elements max_in)
        // to check it does not overflow.
        let v_in = Complex::<f32> { re: max_in, im: max_in };
        let floatbuf: Vec<Complex<f32>> = vec![v_in; ratio];
        let mut cicbuf: Vec<IqSample> = vec![IqSample { re: 0, im: 0 }; ratio];
        cf32_to_buf(&floatbuf[..], &mut cicbuf[..], scale_in);
        for i in 0..100 {
            let ddcout = ddc.process(&cicbuf);
            let o = sample_to_cf32(ddcout, scale_out);
            // Skip test for first few samples where output has not settled yet
            if i > 10 {
                let gain = o.norm() / v_in.norm();
                assert!(gain > 0.99);
                assert!(gain < 1.01);
            }
        }
    }
}

#[test]
fn test_ddc_exact_recurrence() {
    // One stored stage, a one-entry table at DC, mixer frequency 0:
    // the mixed input is (x * 32767) >> 16, the block accumulator lags
    // one block behind, and the single comb stage differences it.
    let table = vec![SineEntry { re: 32767, im: 0 }];
    let mut ddc = CicDdc::new(table, 0, 1);
    let input = vec![IqSample { re: 65536, im: 0 }];
    let out1 = ddc.process(&input);
    assert_eq!(out1, IqSample { re: 0, im: 0 });
    let out2 = ddc.process(&input);
    assert_eq!(out2, IqSample { re: 32767, im: 0 });
    let out3 = ddc.process(&input);
    assert_eq!(out3, IqSample { re: 32767, im: 0 });
}

#[test]
fn test_duc_exact_recurrence() {
    // One stored stage, a one-entry table at DC, mixer frequency 0 and
    // interpolation ratio 2: the first block emits the warm-up zero,
    // then the held comb output mixed by (v >> 16) * 32767.
    let table = vec![SineEntry { re: 32767, im: 0 }];
    let mut duc = CicDuc::new(table, 0, 1);
    let mut out = vec![IqSample { re: 0, im: 0 }; 2];
    duc.process(IqSample { re: 65536, im: 0 }, &mut out);
    assert_eq!(out[0], IqSample { re: 0, im: 0 });
    assert_eq!(out[1], IqSample { re: 32767, im: 0 });
    // The comb now cancels the held input; the integrator keeps the
    // accumulated 131072, which mixes to 2 * 32767.
    let mut out2 = vec![IqSample { re: 0, im: 0 }; 2];
    duc.process(IqSample { re: 65536, im: 0 }, &mut out2);
    assert_eq!(out2[0], IqSample { re: 65534, im: 0 });
    assert_eq!(out2[1], IqSample { re: 65534, im: 0 });
}

#[test]
fn test_mixer_frequency_reduction() {
    // The down-converter negates the carrier offset before reducing it
    // modulo the table length; the up-converter keeps its sign.
    let table = make_sinetable(100);
    assert_eq!(CicDdc::new(table.clone(), 1, 4).freq, 99);
    assert_eq!(CicDdc::new(table.clone(), -1, 4).freq, 1);
    assert_eq!(CicDdc::new(table.clone(), 0, 4).freq, 0);
    assert_eq!(CicDdc::new(table.clone(), 250, 4).freq, 50);
    assert_eq!(CicDuc::new(table.clone(), 1, 4).freq, 1);
    assert_eq!(CicDuc::new(table.clone(), -1, 4).freq, 99);
    assert_eq!(CicDuc::new(table.clone(), 250, 4).freq, 50);
}

#[test]
fn test_duc_accumulates_into_buffer() {
    // The up-converter adds into the buffer it is given: pre-filled
    // values stay as offsets.
    let table = vec![SineEntry { re: 32767, im: 0 }];
    let mut duc = CicDuc::new(table, 0, 1);
    let mut out = vec![IqSample { re: 5, im: 7 }; 2];
    duc.process(IqSample { re: 65536, im: 0 }, &mut out);
    assert_eq!(out[0], IqSample { re: 5, im: 7 });
    assert_eq!(out[1], IqSample { re: 5 + 32767, im: 7 });
}

//! Streaming partitioned convolution against direct linear convolution.

use audio_virtualizer::block_convolver::BlockConvolver;

/// Direct one-shot linear convolution, the reference the streamed form must
/// match.
fn direct_convolution(signal: &[f32], ir: &[f32]) -> Vec<f32> {
    let mut out = vec![0.0f32; signal.len()];
    for n in 0..signal.len() {
        for k in 0..ir.len() {
            if n >= k {
                out[n] += ir[k] * signal[n - k];
            }
        }
    }
    out
}

fn stream_through(conv: &mut BlockConvolver<f32>, signal: &[f32], block_size: usize) -> Vec<f32> {
    let mut out = Vec::new();
    let mut i = 0;
    while i < signal.len() {
        let mut block: Vec<f32> = signal[i..i + block_size].to_vec();
        conv.process(&mut block);
        out.extend_from_slice(&block);
        i += block_size;
    }
    out
}

#[test]
fn unit_impulse_reproduces_input() {
    let ir = vec![1.0f32, 0.0, 0.0, 0.0];
    let mut conv = BlockConvolver::<f32>::new(4, &ir);
    let signal = vec![1.0f32, 2.0, 3.0, 4.0, -1.0, 0.5, 0.25, -2.0];
    let out = stream_through(&mut conv, &signal, 4);
    let expected = direct_convolution(&signal, &ir);
    assert_eq!(out.len(), signal.len());
    for i in 0..out.len() {
        assert!(
            (out[i] - expected[i]).abs() < 1e-4,
            "sample {}: streamed {} reference {}",
            i,
            out[i],
            expected[i]
        );
    }
}

#[test]
fn streamed_convolution_matches_direct() {
    // An impulse response longer than one block, so several partitions and
    // the history ring are exercised.
    let ir = vec![0.5f32, -0.25, 0.125, 1.0, -0.5, 0.75];
    let block_size = 4;
    let mut conv = BlockConvolver::<f32>::new(block_size, &ir);
    assert_eq!(conv.num_partitions(), 2);

    let signal: Vec<f32> = (0..16).map(|i| ((i * 7 % 5) as f32) - 2.0).collect();
    let out = stream_through(&mut conv, &signal, block_size);
    let expected = direct_convolution(&signal, &ir);
    for i in 0..out.len() {
        assert!(
            (out[i] - expected[i]).abs() < 1e-3,
            "sample {}: streamed {} reference {}",
            i,
            out[i],
            expected[i]
        );
    }
}

#[test]
fn silence_in_silence_out() {
    let ir = vec![0.3f32, 0.7, -0.2];
    let mut conv = BlockConvolver::<f32>::new(4, &ir);
    let mut block = vec![0.0f32; 4];
    conv.process(&mut block);
    conv.process(&mut block);
    for v in block {
        assert!(v.abs() < 1e-6);
    }
}

//! Swapchain pools and the sample ring: order, whole blocks, lossy overflow.

use audio_virtualizer::audio_swapchain::AudioSwapchain;

#[test]
fn no_partial_block_until_enough_samples() {
    let mut sc = AudioSwapchain::new(4, 8, 2);
    assert_eq!(sc.desired_rb_size(), 16);

    let dropped = sc.submit_input(&vec![1, 2, 3, 4]);
    assert_eq!(dropped, 0);
    // Seven of eight samples are not a block.
    let dropped = sc.submit_input(&vec![5, 6, 7]);
    assert_eq!(dropped, 0);
    assert!(sc.acquire_ready_output_buf().is_none());

    let dropped = sc.submit_input(&vec![8]);
    assert_eq!(dropped, 0);
    let block = sc.acquire_ready_output_buf().expect("a full block is ready");
    assert_eq!(block, vec![1, 2, 3, 4, 5, 6, 7, 8]);
}

#[test]
fn samples_come_out_in_submission_order_without_duplication() {
    let mut sc = AudioSwapchain::new(4, 4, 4);
    assert_eq!(sc.desired_rb_size(), 16);
    let first: Vec<u32> = (0..7).collect();
    let second: Vec<u32> = (7..12).collect();
    assert_eq!(sc.submit_input(&first), 0);
    assert_eq!(sc.submit_input(&second), 0);

    let a = sc.acquire_ready_output_buf().expect("first block");
    let b = sc.acquire_ready_output_buf().expect("second block");
    let mut seen = a.clone();
    seen.extend_from_slice(&b);
    assert_eq!(seen, (0..8).collect::<Vec<u32>>());
    // Four samples remain: exactly one more block.
    let c = sc.acquire_ready_output_buf().expect("third block");
    assert_eq!(c, (8..12).collect::<Vec<u32>>());
    assert!(sc.acquire_ready_output_buf().is_none());
}

#[test]
fn overflow_drops_the_excess_and_keeps_the_oldest() {
    let mut sc = AudioSwapchain::new(4, 4, 1);
    // Ring capacity is max(4, 4) * 1 = 4.
    let data: Vec<u32> = (1..=6).collect();
    let dropped = sc.submit_input(&data);
    assert_eq!(dropped, 2);
    let block = sc.acquire_ready_output_buf().expect("ring holds a block");
    assert_eq!(block, vec![1, 2, 3, 4]);
}

#[test]
fn free_pool_is_bounded_and_blocks_cycle() {
    let mut sc = AudioSwapchain::new(4, 8, 2);
    // The input pool covers the ring: ceil(16 / 4) = 4 blocks.
    let mut held = Vec::new();
    for _ in 0..4 {
        let buf = sc.acquire_free_input_buf().expect("pool not yet exhausted");
        assert_eq!(buf.len(), 4);
        held.push(buf);
    }
    assert!(sc.acquire_free_input_buf().is_none());
    let buf = held.pop().unwrap();
    assert!(sc.release_input_buf(buf));
    assert!(sc.acquire_free_input_buf().is_some());
}

#[test]
fn unready_acquire_returns_the_pool_block() {
    let mut sc = AudioSwapchain::new(8, 8, 1);
    // Nothing submitted: every acquire fails but no pool block may leak.
    for _ in 0..5 {
        assert!(sc.acquire_ready_output_buf().is_none());
    }
    assert_eq!(sc.submit_input(&(0..8).collect()), 0);
    assert!(sc.acquire_ready_output_buf().is_some());
}

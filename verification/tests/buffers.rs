use sonido_effects::order::{bits_from_key, order_key};
use sonido_effects::pitch::{pick_lag, TAU_MAX, TAU_MIN, YIN_BUF_LEN};
use sonido_effects::ring::{AnalysisFrame, CaptureRing, Lookahead};

#[test]
fn capture_ring_wraps_and_counts() {
    let mut r = CaptureRing::new(4, 0i32);
    assert_eq!(r.write_pos(), 0);
    for x in 1..=6 {
        r.push(x);
    }
    // Slots written in order 1,2,3,4 then 5,6 overwrite slots 0 and 1.
    assert_eq!((r.get(0), r.get(1), r.get(2), r.get(3)), (5, 6, 3, 4));
    assert_eq!(r.write_pos(), 2);
    assert_eq!(r.samples_written(), 4);
    assert_eq!(r.recent(0), 6);
    assert_eq!(r.recent(1), 5);
    assert_eq!(r.recent(2), 4);
    assert_eq!(r.recent(3), 3);
    assert_eq!(r.next_index(3), 0);
    assert_eq!(r.next_index(1), 2);
}

#[test]
fn capture_ring_partial_fill_reads_fill_value() {
    let mut r = CaptureRing::new(5, -1i32);
    r.push(10);
    r.push(20);
    assert_eq!(r.samples_written(), 2);
    assert_eq!(r.recent(0), 20);
    assert_eq!(r.recent(1), 10);
    assert_eq!(r.recent(2), -1);
    r.clear(0);
    assert_eq!(r.write_pos(), 0);
    assert_eq!(r.samples_written(), 0);
    assert_eq!(r.recent(0), 0);
}

#[test]
fn capture_ring_stereo_frames() {
    let mut r = CaptureRing::new(65536, (0.0f32, 0.0f32));
    for i in 0..70000u32 {
        r.push((i as f32, -(i as f32)));
    }
    assert_eq!(r.write_pos(), 70000 % 65536);
    assert_eq!(r.samples_written(), 65536);
    assert_eq!(r.recent(0), (69999.0, -69999.0));
}

#[test]
fn analysis_frame_completes_every_len() {
    let mut f = AnalysisFrame::new(YIN_BUF_LEN, 0.0f32);
    let mut completions = 0;
    for i in 0..(YIN_BUF_LEN * 3 + 10) {
        let done = f.push(i as f32);
        if done {
            completions += 1;
            assert_eq!(f.write_pos(), 0);
            let s = f.as_slice();
            // Window holds the last YIN_BUF_LEN samples, oldest first.
            assert_eq!(s[0], (i + 1 - YIN_BUF_LEN) as f32);
            assert_eq!(s[YIN_BUF_LEN - 1], i as f32);
        }
    }
    assert_eq!(completions, 3);
    assert_eq!(f.write_pos(), 10);
    f.clear(0.0);
    assert_eq!(f.write_pos(), 0);
    assert!(f.as_slice().iter().all(|&x| x == 0.0));
}

/// Index of the first push whose output is non-silent, after an impulse at push 0.
fn impulse_arrival(lim: &mut Lookahead<(f32, f32)>, pushes: usize) -> Option<usize> {
    (0..pushes).position(|n| {
        let x = if n == 0 { (0.01f32, 0.01f32) } else { (0.0, 0.0) };
        lim.push(x) != (0.0, 0.0)
    })
}

#[test]
fn test_latency_reports_lookahead() {
    // Default 5 ms lookahead at 48000 Hz = 240 samples, 10 ms buffer.
    let expected = (5.0_f32 * 48000.0 / 1000.0) as usize;
    let len = (10.0_f32 * 48000.0 / 1000.0) as usize;
    let mut lim = Lookahead::new(len, (0.0f32, 0.0f32), expected);
    assert_eq!(lim.latency_samples(), expected);
    assert_eq!(lim.latency_samples(), 240);
    // The input comes out exactly the reported latency later.
    assert_eq!(impulse_arrival(&mut lim, len), Some(lim.latency_samples()));
}

#[test]
fn test_set_sample_rate() {
    let mut lim = Lookahead::new(480, (0.0f32, 0.0f32), 240);
    let len = (10.0_f32 * 44100.0 / 1000.0) as usize;
    let expected = (5.0_f32 * 44100.0 / 1000.0) as usize;
    lim.resize(len, (0.0, 0.0), expected);
    assert_eq!(lim.len(), 441);
    assert_eq!(lim.latency_samples(), expected);
    assert_eq!(lim.latency_samples(), 220);
    assert_eq!(impulse_arrival(&mut lim, len), Some(220));
}

#[test]
fn lookahead_clamps_to_buffer() {
    let mut lim = Lookahead::new(480, 0i32, 240);
    lim.set_lookahead(10_000);
    assert_eq!(lim.latency_samples(), 479);
    lim.set_lookahead(0);
    assert_eq!(lim.latency_samples(), 0);
    lim.resize(100, 0, 500);
    assert_eq!(lim.latency_samples(), 99);
}

#[test]
fn lookahead_delays_by_lookahead() {
    let mut lim = Lookahead::new(8, 0i32, 3);
    // The output lags the input by the lookahead, 3 pushes.
    let out: Vec<i32> = (1..=12).map(|x| lim.push(x)).collect();
    assert_eq!(out, vec![0, 0, 0, 1, 2, 3, 4, 5, 6, 7, 8, 9]);
    // Window: offset i is the sample of age i; offset 3 was just output.
    assert_eq!(lim.window_sample(0), 12);
    assert_eq!(lim.window_sample(1), 11);
    assert_eq!(lim.window_sample(2), 10);
    assert_eq!(lim.window_sample(3), 9);
    lim.reset(0);
    assert_eq!(lim.push(99), 0);
}

#[test]
fn lookahead_zero_passes_input_through() {
    let mut lim = Lookahead::new(480, 0i32, 240);
    lim.set_lookahead(0);
    assert_eq!(lim.latency_samples(), 0);
    assert_eq!(lim.push(7), 7);
    assert_eq!(lim.push(8), 8);
}

#[test]
fn lookahead_full_lookahead_delays_by_len_minus_one() {
    let mut lim = Lookahead::new(4, 0i32, 3);
    let out: Vec<i32> = (1..=6).map(|x| lim.push(x)).collect();
    assert_eq!(out, vec![0, 0, 0, 1, 2, 3]);
}

#[test]
fn lookahead_reported_latency_is_the_delay() {
    for (len, la) in [(5usize, 2usize), (8, 2), (480, 240), (480, 0), (441, 220)] {
        let mut lim = Lookahead::new(len, -1i64, la);
        let lat = lim.latency_samples();
        assert_eq!(lat, la);
        for n in 0..(2 * len as i64) {
            let y = lim.push(n);
            let want = if n >= lat as i64 { n - lat as i64 } else { -1 };
            assert_eq!(y, want, "len {len} lookahead {la} push {n}");
        }
    }
}

fn keys(values: &[f32]) -> Vec<u32> {
    values.iter().map(|v| order_key(v.to_bits())).collect()
}

#[test]
fn order_key_orders_like_f32() {
    let vals = [-1000.0f32, -1.5, -0.25, 0.0, 1e-10, 0.15, 0.35, 1.0, 3.0e38];
    let k = keys(&vals);
    for w in k.windows(2) {
        assert!(w[0] < w[1]);
    }
    assert!(order_key((-0.0f32).to_bits()) < order_key(0.0f32.to_bits()));
}

#[test]
fn pick_lag_first_dip() {
    let mut d = vec![1.0f32; TAU_MAX];
    d[0] = 1.0;
    d[50] = 0.10;
    d[51] = 0.05;
    d[52] = 0.20;
    d[100] = 0.01;
    let th = order_key(0.15f32.to_bits());
    let rej = order_key(0.35f32.to_bits());
    // 50 is below the threshold but above 51, so the first dip is 51.
    assert_eq!(pick_lag(&keys(&d), th, rej), Some(51));
}

#[test]
fn pick_lag_fallback_minimum() {
    let mut d = vec![0.9f32; TAU_MAX];
    d[1] = 0.0; // below TAU_MIN: ignored
    d[30] = 0.3;
    d[40] = 0.3;
    let th = order_key(0.15f32.to_bits());
    let rej = order_key(0.35f32.to_bits());
    assert_eq!(pick_lag(&keys(&d), th, rej), Some(30));
    d[30] = 0.5;
    d[40] = 0.5;
    assert_eq!(pick_lag(&keys(&d), th, rej), None);
    assert_eq!(TAU_MIN, 2);
}

#[test]
fn order_key_roundtrips_bits() {
    for v in [-3.5f32, -0.0, 0.0, 1.0e-40, 0.966, 1.0, f32::MAX, f32::MIN] {
        let k = order_key(v.to_bits());
        assert_eq!(bits_from_key(k), v.to_bits());
        assert_eq!(f32::from_bits(bits_from_key(k)), v);
    }
}

#[test]
fn lookahead_window_max_is_peak_of_window() {
    // Keys of |x| pushed into a 6-slot line with lookahead 2.
    let mags = [0.1f32, 0.9, 0.2, 0.05, 0.3, 0.4, 0.7];
    let mut keys_line = Lookahead::new(6, order_key(0.0f32.to_bits()), 2);
    for m in mags {
        keys_line.push(order_key(m.to_bits()));
    }
    // The window holds the samples of age 0..=2: 0.7, 0.4, 0.3.
    let peak = f32::from_bits(bits_from_key(keys_line.window_max()));
    assert_eq!(peak, 0.7);
    keys_line.push(order_key(0.01f32.to_bits()));
    // Window = 0.01, 0.7, 0.4.
    let peak = f32::from_bits(bits_from_key(keys_line.window_max()));
    assert_eq!(peak, 0.7);
}

#[test]
fn lookahead_window_covers_output_sample() {
    let mut line = Lookahead::new(3, 0u32, 1);
    assert_eq!(line.push(100), 0);
    assert_eq!(line.window_max(), 100);
    let out = line.push(0);
    assert_eq!(out, 100);
    assert!(line.window_max() >= out);
    assert_eq!(line.window_max(), 100);
}

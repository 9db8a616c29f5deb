use loopback_spectrum::format::WaveFormatEx;
use loopback_spectrum::samples::SampleQueue;
use loopback_spectrum::spectrum::{
    bucket_bins, bucket_targets, first_bin_in_range, nearest_bin, BinLookupError, BUCKET_COUNT,
};

use spectrum_analyzer::scaling::divide_by_N;
use spectrum_analyzer::windows::hann_window;
use spectrum_analyzer::{samples_fft_to_spectrum, FrequencyLimit};

#[test]
fn bucket_targets_are_the_fixed_grid() {
    let targets = bucket_targets();
    assert_eq!(targets.len(), 69);
    assert_eq!(targets.len(), BUCKET_COUNT);
    assert_eq!(targets[0], 200);
    assert_eq!(targets[1], 400);
    assert_eq!(targets[68], 13800);
    for (k, t) in targets.iter().enumerate() {
        assert_eq!(*t, 200 * (k as u32 + 1));
    }
}

#[test]
fn nearest_bin_hits_an_exact_match() {
    // 48000 Hz / 2048 samples: bin width 23.4375 Hz, so bin 128 sits at
    // exactly 3000 Hz.
    assert_eq!(nearest_bin(3000, 48000, 2048), Some(128));
}

#[test]
fn nearest_bin_rounds_to_the_nearest_bin() {
    // 200 Hz falls between bin 8 (187.5 Hz) and bin 9 (210.9375 Hz);
    // bin 9 is nearer.
    assert_eq!(nearest_bin(200, 48000, 2048), Some(9));
    // 13800 Hz falls between bin 588 (13781.25 Hz) and bin 589 (13804.6875 Hz).
    assert_eq!(nearest_bin(13800, 48000, 2048), Some(589));
}

#[test]
fn nearest_bin_breaks_ties_downward() {
    // 4096 Hz / 2048 samples: bin width 2 Hz. 61 Hz sits exactly between
    // bin 30 (60 Hz) and bin 31 (62 Hz); the lower bin wins.
    assert_eq!(nearest_bin(61, 4096, 2048), Some(30));
}

#[test]
fn first_bin_in_range_skips_bins_below_the_floor() {
    // Bin 2 is 46.875 Hz (below 60), bin 3 is 70.3125 Hz.
    assert_eq!(first_bin_in_range(48000, 2048), Some(3));
    // A silent rate leaves no bin in range.
    assert_eq!(first_bin_in_range(0, 2048), None);
}

#[test]
fn bucket_bins_cover_the_grid() {
    let bins = bucket_bins(48000, 2048).unwrap();
    assert_eq!(bins.len(), 69);
    assert_eq!(bins[0], 9);
    assert_eq!(bins[14], nearest_bin(3000, 48000, 2048).unwrap());
    assert_eq!(bins[68], 589);
    for pair in bins.windows(2) {
        assert!(pair[0] <= pair[1]);
    }
}

#[test]
fn bucket_bins_report_a_missing_bin() {
    // With no sample rate every bin frequency is 0 Hz, below the range floor.
    assert_eq!(bucket_bins(0, 2048), Err(BinLookupError { target_hz: 200 }));
    // Two samples give bins at 0 Hz and 24000 Hz only, both out of range.
    assert_eq!(bucket_bins(48000, 2), Err(BinLookupError { target_hz: 200 }));
}

/// Runs a sine through the whole capture-side path (bytes, queue, window)
/// and the real transform, then reads the spectrum at the verified bin map.
fn sine_spectrum(freq_hz: f32) -> (Vec<(f32, f32)>, usize) {
    let format = WaveFormatEx {
        format_tag: 1,
        channels: 2,
        samples_per_sec: 48000,
        avg_bytes_per_sec: 192000,
        block_align: 4,
        bits_per_sample: 16,
        size: 0,
    };
    let mut chunk = Vec::new();
    for i in 0..2048u32 {
        let phase = 2.0 * std::f32::consts::PI * freq_hz * i as f32 / 48000.0;
        let sample = (10000.0 * phase.sin()).round() as i16;
        let b = sample.to_le_bytes();
        chunk.extend([b[0], b[1], 0, 0]);
    }
    let mut queue = SampleQueue::new();
    queue.ingest(&chunk, &format).unwrap();
    let window = queue.extract_window(2048).unwrap();

    let as_f32: Vec<f32> = window.iter().map(|s| *s as f32).collect();
    let windowed = hann_window(&as_f32);
    let spectrum = samples_fft_to_spectrum(
        &windowed,
        48000,
        FrequencyLimit::Range(60.0.into(), 15000.0.into()),
        Some(&divide_by_N),
    )
    .unwrap();
    let data: Vec<(f32, f32)> = spectrum
        .data()
        .iter()
        .map(|(fr, val)| (fr.val(), val.val()))
        .collect();
    let first = first_bin_in_range(48000, 2048).unwrap() as usize;
    (data, first)
}

#[test]
fn sine_on_a_bin_boundary_peaks_at_that_bin() {
    // Bin 128 of a 2048-point transform at 48000 Hz is exactly 3000 Hz.
    let (data, first) = sine_spectrum(3000.0);

    // The verified map sends the 3000 Hz grid frequency to bin 128, and the
    // kept bins start where the verified lower edge says, so the spectrum
    // row can be indexed with the map directly.
    let bin = nearest_bin(3000, 48000, 2048).unwrap() as usize;
    assert_eq!(bin, 128);
    let peak_pos = bin - first;
    assert!((data[peak_pos].0 - 3000.0).abs() < 0.01);

    // The peak is dominant: every bin two or more steps away holds less
    // than one percent of the peak's power.
    let peak_power = data[peak_pos].1 * data[peak_pos].1;
    assert!(peak_power > 0.0);
    for (j, (_, val)) in data.iter().enumerate() {
        let distance = peak_pos.abs_diff(j);
        if distance >= 2 {
            let power = val * val;
            assert!(
                power < 0.01 * peak_power,
                "bin {} holds {} of peak power {}",
                j,
                power,
                peak_power
            );
        }
    }
}

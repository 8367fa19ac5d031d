use rustfft::num_complex::Complex;
use rustfft::FftPlanner;
use scanline_spectrum::grid::{ImageGrid, Sample};
use scanline_spectrum::raster::HEIGHT;
use scanline_spectrum::scan::write_row;

fn signal_8() -> Vec<Complex<f32>> {
    [0.0f32, 1.0, 2.0, 3.0, 4.0, 3.0, 2.0, 1.0]
        .iter()
        .map(|&re| Complex { re, im: 0.0 })
        .collect()
}

#[test]
fn forward_dc_term_is_the_sample_sum() {
    let mut spectrum = signal_8();
    let mut planner = FftPlanner::new();
    planner.plan_fft_forward(8).process(&mut spectrum);
    assert!((spectrum[0].re - 16.0).abs() < 1e-4);
    assert!(spectrum[0].im.abs() < 1e-4);
}

#[test]
fn forward_of_a_real_signal_is_conjugate_symmetric() {
    let mut spectrum = signal_8();
    let mut planner = FftPlanner::new();
    planner.plan_fft_forward(8).process(&mut spectrum);
    for k in 1..8 {
        assert!((spectrum[k].re - spectrum[8 - k].re).abs() < 1e-3);
        assert!((spectrum[k].im + spectrum[8 - k].im).abs() < 1e-3);
    }
}

#[test]
fn unnormalized_round_trip_scales_by_the_length() {
    let original = signal_8();
    let mut buffer = original.clone();
    let mut planner = FftPlanner::new();
    planner.plan_fft_forward(8).process(&mut buffer);
    planner.plan_fft_inverse(8).process(&mut buffer);
    // inverse(forward(x)) == 8 * x, since neither direction normalizes
    for n in 0..8 {
        assert!((buffer[n].re - 8.0 * original[n].re).abs() < 1e-3);
        assert!(buffer[n].im.abs() < 1e-3);
    }
}

#[test]
fn inverting_an_all_zero_spectrum_leaves_a_black_row() {
    // a spectrum filtered down to nothing inverse-transforms to zero, and
    // the display scaling of zero is the zero intensity
    let mut spectrum: Vec<Complex<f32>> = vec![Complex { re: 0.0, im: 0.0 }; 6];
    let mut planner = FftPlanner::new();
    planner.plan_fft_inverse(6).process(&mut spectrum);
    let intensities: Vec<u8> = spectrum.iter().map(|z| (z.re / (HEIGHT as f32)) as u8).collect();
    assert_eq!(intensities, vec![0; 6]);

    let mut grid = ImageGrid::new(6, 1).unwrap();
    for x in 0..6 {
        grid.set(x, 0, Sample { r: 7, g: 8, b: 9, a: 255 });
    }
    write_row(&mut grid, 0, &intensities);
    for x in 0..6 {
        assert_eq!(grid.get(x, 0), Some(Sample { r: 0, g: 0, b: 0, a: 255 }));
    }
}

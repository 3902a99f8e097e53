use dither::color::RGB;
use dither::ditherer::{Dither, Ditherer};
use dither::prelude::Img;
use eink_utils::{check_depth, dither, DitherAlgorithm, Error, PixelBuffer};

const ALGORITHMS: [DitherAlgorithm; 6] = [
    DitherAlgorithm::FloydSteinberg,
    DitherAlgorithm::Atkinson,
    DitherAlgorithm::Stucki,
    DitherAlgorithm::Burkes,
    DitherAlgorithm::Jarvis,
    DitherAlgorithm::Sierra,
];

fn crate_ditherer(algorithm: DitherAlgorithm) -> Ditherer<'static> {
    match algorithm {
        DitherAlgorithm::FloydSteinberg => dither::ditherer::FLOYD_STEINBERG,
        DitherAlgorithm::Atkinson => dither::ditherer::ATKINSON,
        DitherAlgorithm::Stucki => dither::ditherer::STUCKI,
        DitherAlgorithm::Burkes => dither::ditherer::BURKES,
        DitherAlgorithm::Jarvis => dither::ditherer::JARVIS_JUDICE_NINKE,
        DitherAlgorithm::Sierra => dither::ditherer::SIERRA_3,
    }
}

fn crate_plane(algorithm: DitherAlgorithm, samples: &[u8], width: u32, depth: u8) -> Vec<u8> {
    let quantize = dither::create_quantize_n_bits_func(depth).unwrap();
    let img = Img::new(samples.iter().cloned(), width).unwrap().convert_with(f64::from);
    crate_ditherer(algorithm)
        .dither(img, quantize)
        .convert_with(dither::clamp_f64_to_u8)
        .into_vec()
}

fn noise(count: usize, seed: u32) -> Vec<u8> {
    let mut state = seed;
    let mut samples = Vec::with_capacity(count);
    for _ in 0..count {
        state = state.wrapping_mul(1664525).wrapping_add(1013904223);
        samples.push((state >> 24) as u8);
    }
    samples
}

fn dithered(algorithm: DitherAlgorithm, samples: &[u8], width: u32, depth: u8) -> Vec<u8> {
    let buffer = PixelBuffer::new(samples.to_vec(), width).unwrap();
    dither(buffer, algorithm, depth).unwrap().into_vec()
}

#[test]
fn depths_from_one_to_eight_are_valid() {
    for depth in 1..=8 {
        assert_eq!(check_depth(depth), Ok(()));
    }
}

#[test]
fn other_depths_are_invalid() {
    assert_eq!(check_depth(0), Err(Error::InvalidDepth));
    assert_eq!(check_depth(9), Err(Error::InvalidDepth));
    assert_eq!(check_depth(255), Err(Error::InvalidDepth));
}

#[test]
fn dither_refuses_an_invalid_depth() {
    for depth in [0, 9, 16, 255] {
        let buffer = PixelBuffer::new(vec![1, 2, 3, 4], 2).unwrap();
        assert_eq!(dither(buffer, DitherAlgorithm::Stucki, depth).err(), Some(Error::InvalidDepth));
    }
}

#[test]
fn dither_refuses_an_empty_buffer() {
    let buffer = PixelBuffer::new(Vec::new(), 2).unwrap();
    let refused = dither(buffer, DitherAlgorithm::Burkes, 1);
    assert_eq!(refused.err(), Some(Error::InvalidBufferDimensions));
}

#[test]
fn dither_looks_at_the_depth_first() {
    let buffer = PixelBuffer::new(Vec::new(), 2).unwrap();
    assert_eq!(dither(buffer, DitherAlgorithm::Burkes, 0).err(), Some(Error::InvalidDepth));
}

#[test]
fn dither_at_one_bit_floyd_steinberg() {
    let out = dithered(DitherAlgorithm::FloydSteinberg, &[10, 250, 10, 250], 2, 1);
    assert_eq!(out, vec![0, 255, 0, 255]);
}

#[test]
fn dither_spreads_the_error() {
    // Mid gray cannot be shown with one bit: the error carried along
    // makes the pixels alternate.
    let out = dithered(DitherAlgorithm::FloydSteinberg, &[128; 8], 8, 1);
    assert_ne!(out, vec![128; 8]);
    assert!(out.iter().all(|&s| s == 0 || s == 255));
    assert!(out.contains(&0));
    assert!(out.contains(&255));
}

#[test]
fn dither_agrees_with_the_dither_crate() {
    let samples = noise(7 * 9, 42);
    for algorithm in ALGORITHMS {
        for depth in 1..=7 {
            let ours = dithered(algorithm, &samples, 7, depth);
            let theirs = crate_plane(algorithm, &samples, 7, depth);
            assert_eq!(ours, theirs, "{:?} at depth {}", algorithm, depth);
        }
    }
}

#[test]
fn dither_agrees_with_the_dither_crate_on_narrow_planes() {
    for width in [1, 2, 3] {
        let samples = noise(6 * width as usize, 7);
        for algorithm in ALGORITHMS {
            let ours = dithered(algorithm, &samples, width, 2);
            let theirs = crate_plane(algorithm, &samples, width, 2);
            assert_eq!(ours, theirs, "{:?} at width {}", algorithm, width);
        }
    }
}

#[test]
fn dither_at_eight_bits_changes_nothing() {
    let samples = noise(5 * 4, 3);
    for algorithm in ALGORITHMS {
        assert_eq!(dithered(algorithm, &samples, 5, 8), samples);
    }
}

#[test]
fn dither_keeps_the_dimensions() {
    let samples = noise(6 * 5, 11);
    for algorithm in ALGORITHMS {
        for depth in 1..=8 {
            let buffer = PixelBuffer::new(samples.clone(), 6).unwrap();
            let done = dither(buffer, algorithm, depth).unwrap();
            assert_eq!(done.width(), 6);
            assert_eq!(done.height(), 5);
            assert_eq!(done.len(), 30);
        }
    }
}

#[test]
fn one_bit_splits_at_the_midpoint() {
    for algorithm in ALGORITHMS {
        for value in 0..=255u8 {
            let out = dithered(algorithm, &[value], 1, 1);
            let expected = if value < 128 { 0 } else { 255 };
            assert_eq!(out, vec![expected], "{:?} on {}", algorithm, value);
        }
    }
}

#[test]
fn depth_counts_steps_of_the_quantizer() {
    // Two steps of 127.5: the levels are 0, 128 (127.5 rounded) and 255.
    assert_eq!(dithered(DitherAlgorithm::FloydSteinberg, &[100], 1, 2), vec![128]);
    assert_eq!(dithered(DitherAlgorithm::FloydSteinberg, &[63], 1, 2), vec![0]);
    assert_eq!(dithered(DitherAlgorithm::FloydSteinberg, &[64], 1, 2), vec![128]);
    assert_eq!(dithered(DitherAlgorithm::FloydSteinberg, &[191], 1, 2), vec![128]);
    assert_eq!(dithered(DitherAlgorithm::FloydSteinberg, &[192], 1, 2), vec![255]);
    for depth in 1..=7u8 {
        let mut levels: Vec<u8> =
            (0..=255u8).map(|v| dithered(DitherAlgorithm::Atkinson, &[v], 1, depth)[0]).collect();
        levels.dedup();
        assert_eq!(levels.len(), usize::from(depth) + 1, "depth {}", depth);
        assert_eq!(levels[0], 0);
        assert_eq!(levels[usize::from(depth)], 255);
    }
    let three: Vec<u8> =
        (0..=255u8).map(|v| dithered(DitherAlgorithm::Atkinson, &[v], 1, 3)[0]).collect();
    assert!(three.iter().all(|&s| s == 0 || s == 85 || s == 170 || s == 255));
}

#[test]
fn error_past_the_end_of_a_row_reaches_the_next_row() {
    // In a plane one sample wide the tap to the right of the first sample
    // is the second sample: it receives 7 and 5 sixteenths of the error of
    // 90, and 90 + 67.5 is white.
    assert_eq!(dithered(DitherAlgorithm::FloydSteinberg, &[90, 90], 1, 1), vec![0, 255]);
    // The tap below alone would bring 5 sixteenths: 90 + 28.125 is black.
    // Atkinson's taps to the right and below bring an eighth each.
    assert_eq!(dithered(DitherAlgorithm::Atkinson, &[120, 120], 1, 1), vec![0, 255]);
    assert_eq!(dithered(DitherAlgorithm::Atkinson, &[100, 100], 1, 1), vec![0, 0]);
}

#[test]
fn one_bit_gives_black_and_white_only() {
    let samples = noise(9 * 7, 21);
    for algorithm in ALGORITHMS {
        let out = dithered(algorithm, &samples, 9, 1);
        assert!(out.iter().all(|&s| s == 0 || s == 255), "{:?}", algorithm);
    }
}

#[test]
fn single_pixel_is_only_quantized() {
    for algorithm in ALGORITHMS {
        for depth in 1..=7 {
            for value in [0u8, 1, 63, 127, 128, 200, 254, 255] {
                let quantize = dither::create_quantize_n_bits_func(depth).unwrap();
                let expected = dither::clamp_f64_to_u8(quantize(f64::from(value)).0);
                assert_eq!(dithered(algorithm, &[value], 1, depth), vec![expected]);
            }
        }
    }
}

#[test]
fn black_and_white_stays_as_it_is_at_one_bit() {
    let samples: Vec<u8> = noise(8 * 6, 5).iter().map(|&s| if s < 100 { 0 } else { 255 }).collect();
    for algorithm in ALGORITHMS {
        assert_eq!(dithered(algorithm, &samples, 8, 1), samples, "{:?}", algorithm);
    }
}

#[test]
fn colour_planes_agree_with_the_dither_crate() {
    let samples = noise(3 * 5 * 4, 99);
    for algorithm in ALGORITHMS {
        let pixels: Vec<RGB<u8>> = samples.chunks(3).map(|p| RGB(p[0], p[1], p[2])).collect();
        let img = Img::new(pixels, 5).unwrap().convert_with(|rgb| rgb.convert_with(f64::from));
        let quantize = dither::create_quantize_n_bits_func(1).unwrap();
        let theirs = crate_ditherer(algorithm)
            .dither(img, RGB::map_across(quantize))
            .convert_with(|rgb| rgb.convert_with(dither::clamp_f64_to_u8))
            .raw_buf();
        let mut ours = vec![0u8; samples.len()];
        for c in 0..3 {
            let plane: Vec<u8> = samples.iter().skip(c).step_by(3).cloned().collect();
            for (i, s) in dithered(algorithm, &plane, 5, 1).iter().enumerate() {
                ours[3 * i + c] = *s;
            }
        }
        assert_eq!(ours, theirs, "{:?}", algorithm);
    }
}

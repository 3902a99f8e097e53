use dither::ditherer::Ditherer;
use eink_utils::{DiffusionKernel, DitherAlgorithm, Error, KernelTap};

const ALL: [DitherAlgorithm; 6] = [
    DitherAlgorithm::FloydSteinberg,
    DitherAlgorithm::Atkinson,
    DitherAlgorithm::Stucki,
    DitherAlgorithm::Burkes,
    DitherAlgorithm::Jarvis,
    DitherAlgorithm::Sierra,
];

fn taps_of(kernel: &DiffusionKernel) -> Vec<KernelTap> {
    (0..kernel.len()).map(|i| kernel.tap(i).unwrap()).collect()
}

fn as_ditherer_taps(kernel: &DiffusionKernel) -> Vec<(isize, isize, f64)> {
    taps_of(kernel)
        .iter()
        .map(|t| (isize::from(t.col), isize::from(t.row), f64::from(t.weight)))
        .collect()
}

#[test]
fn names_select_their_algorithms() {
    assert_eq!(DitherAlgorithm::from_name("floyd_steinberg"), Ok(DitherAlgorithm::FloydSteinberg));
    assert_eq!(DitherAlgorithm::from_name("atkinson"), Ok(DitherAlgorithm::Atkinson));
    assert_eq!(DitherAlgorithm::from_name("stucki"), Ok(DitherAlgorithm::Stucki));
    assert_eq!(DitherAlgorithm::from_name("burkes"), Ok(DitherAlgorithm::Burkes));
    assert_eq!(DitherAlgorithm::from_name("jarvis"), Ok(DitherAlgorithm::Jarvis));
    assert_eq!(DitherAlgorithm::from_name("sierra"), Ok(DitherAlgorithm::Sierra));
}

#[test]
fn names_round_trip() {
    for algorithm in ALL {
        assert_eq!(DitherAlgorithm::from_name(algorithm.name()), Ok(algorithm));
    }
}

#[test]
fn unknown_names_select_nothing() {
    for name in ["", "floyd", "Atkinson", "sierra3", "stucki ", "success", "unknown"] {
        assert_eq!(DitherAlgorithm::from_name(name), Err(Error::UnknownAlgorithm));
    }
}

#[test]
fn floyd_steinberg_kernel_is_the_published_one() {
    let kernel = DitherAlgorithm::FloydSteinberg.kernel();
    assert_eq!(kernel.divisor(), 16);
    assert_eq!(
        taps_of(&kernel),
        vec![
            KernelTap { row: 0, col: 1, weight: 7 },
            KernelTap { row: 1, col: -1, weight: 3 },
            KernelTap { row: 1, col: 0, weight: 5 },
            KernelTap { row: 1, col: 1, weight: 1 },
        ]
    );
}

#[test]
fn atkinson_kernel_is_the_published_one() {
    let kernel = DitherAlgorithm::Atkinson.kernel();
    assert_eq!(kernel.divisor(), 8);
    assert_eq!(
        taps_of(&kernel),
        vec![
            KernelTap { row: 0, col: 1, weight: 1 },
            KernelTap { row: 0, col: 2, weight: 1 },
            KernelTap { row: 1, col: -1, weight: 1 },
            KernelTap { row: 1, col: 0, weight: 1 },
            KernelTap { row: 1, col: 1, weight: 1 },
            KernelTap { row: 2, col: 0, weight: 1 },
        ]
    );
}

#[test]
fn kernel_sizes_and_divisors() {
    let expected = [(4, 16), (6, 8), (12, 42), (7, 32), (12, 48), (10, 32)];
    for (algorithm, (len, divisor)) in ALL.iter().zip(expected) {
        let kernel = algorithm.kernel();
        assert_eq!(kernel.len(), len);
        assert_eq!(kernel.divisor(), divisor);
        assert_eq!(kernel.tap(len), None);
    }
}

#[test]
fn weights_add_up_to_the_divisor() {
    for algorithm in ALL {
        let kernel = algorithm.kernel();
        if algorithm == DitherAlgorithm::Atkinson {
            assert_eq!(kernel.weight_total(), 6);
            assert_eq!(kernel.divisor(), 8);
        } else {
            assert_eq!(kernel.weight_total(), u32::from(kernel.divisor()));
        }
    }
}

#[test]
fn weight_totals_are_exact() {
    let totals: Vec<u32> = ALL.iter().map(|a| a.kernel().weight_total()).collect();
    assert_eq!(totals, vec![16, 6, 42, 32, 48, 32]);
}

#[test]
fn taps_point_forward() {
    for algorithm in ALL {
        for tap in taps_of(&algorithm.kernel()) {
            assert!(tap.row <= 2);
            assert!(-2 <= tap.col && tap.col <= 2);
            assert!(tap.row > 0 || tap.col > 0);
            assert!(tap.weight > 0);
        }
    }
}

#[test]
fn kernels_match_the_dither_crate() {
    let theirs = [
        dither::ditherer::FLOYD_STEINBERG,
        dither::ditherer::ATKINSON,
        dither::ditherer::STUCKI,
        dither::ditherer::BURKES,
        dither::ditherer::JARVIS_JUDICE_NINKE,
        dither::ditherer::SIERRA_3,
    ];
    for (algorithm, constant) in ALL.iter().zip(theirs) {
        let kernel = algorithm.kernel();
        let taps = as_ditherer_taps(&kernel);
        let ours = Ditherer::new(f64::from(kernel.divisor()), &taps);
        assert!(ours == constant, "{:?}", algorithm);
    }
}

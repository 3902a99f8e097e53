//! The six error-diffusion algorithms and their kernels.
//!
//! A kernel is a list of taps. Each tap names a pixel that has not been
//! visited yet, by its row and column offset from the pixel being
//! quantized, and the share of the quantization error that it receives:
//! the tap's weight over the kernel's divisor.

use vstd::prelude::*;
use crate::error::Error;

verus! {

/// A named error-diffusion algorithm.
#[derive(Clone, Copy, Debug, PartialEq, Eq, Structural)]
pub enum DitherAlgorithm {
    FloydSteinberg,
    Atkinson,
    Stucki,
    Burkes,
    Jarvis,
    Sierra,
}

/// One entry of a kernel: the pixel `row` rows below and `col` columns to
/// the right (to the left, if negative) receives `weight` parts of the
/// error. Where that pixel lies beyond the end of its row, the error goes
/// to the pixel as many places further on in the buffer, in the next row;
/// it is lost only beyond the end of the buffer.
#[derive(Clone, Copy, Debug, PartialEq, Eq, Structural)]
pub struct KernelTap {
    pub row: u8,
    pub col: i8,
    pub weight: u8,
}

/// The taps of an algorithm, in the order in which the error is handed
/// out, and the number that the weights are divided by.
#[derive(Debug)]
pub struct DiffusionKernel {
    pub(crate) taps: Vec<KernelTap>,
    pub(crate) divisor: u8,
}

/// A kernel as a mathematical value: each tap is `(row, col, weight)`.
pub struct KernelModel {
    pub taps: Seq<(int, int, int)>,
    pub divisor: int,
}

/// The sum of the weights of `taps`.
pub open spec fn weight_sum(taps: Seq<(int, int, int)>) -> int
    decreases taps.len(),
{
    if taps.len() == 0 {
        0
    } else {
        weight_sum(taps.drop_last()) + taps.last().2
    }
}

/// A tap points forward in scan order (to the right on the same row, or
/// anywhere on a later row) and reaches at most two pixels away.
pub open spec fn tap_forward(tap: (int, int, int)) -> bool {
    &&& 0 <= tap.0 <= 2
    &&& -2 <= tap.1 <= 2
    &&& tap.0 == 0 ==> tap.1 > 0
    &&& 0 < tap.2 <= 255
}

impl KernelModel {
    /// Every tap points forward and the divisor is positive.
    pub open spec fn wf(self) -> bool {
        &&& 0 < self.divisor <= 255
        &&& forall|i: int| 0 <= i < self.taps.len() ==> tap_forward(#[trigger] self.taps[i])
    }
}

impl View for KernelTap {
    type V = (int, int, int);

    open spec fn view(&self) -> (int, int, int) {
        (self.row as int, self.col as int, self.weight as int)
    }
}

impl View for DiffusionKernel {
    type V = KernelModel;

    closed spec fn view(&self) -> KernelModel {
        KernelModel { taps: self.taps@.map_values(|t: KernelTap| t@), divisor: self.divisor as int }
    }
}

impl DitherAlgorithm {
    /// The name by which callers select the algorithm.
    pub open spec fn spec_name(self) -> Seq<char> {
        match self {
            DitherAlgorithm::FloydSteinberg => "floyd_steinberg"@,
            DitherAlgorithm::Atkinson => "atkinson"@,
            DitherAlgorithm::Stucki => "stucki"@,
            DitherAlgorithm::Burkes => "burkes"@,
            DitherAlgorithm::Jarvis => "jarvis"@,
            DitherAlgorithm::Sierra => "sierra"@,
        }
    }

    /// The algorithm that `name` selects, if any.
    pub open spec fn spec_from_name(name: Seq<char>) -> Option<DitherAlgorithm> {
        if name == "floyd_steinberg"@ {
            Some(DitherAlgorithm::FloydSteinberg)
        } else if name == "atkinson"@ {
            Some(DitherAlgorithm::Atkinson)
        } else if name == "stucki"@ {
            Some(DitherAlgorithm::Stucki)
        } else if name == "burkes"@ {
            Some(DitherAlgorithm::Burkes)
        } else if name == "jarvis"@ {
            Some(DitherAlgorithm::Jarvis)
        } else if name == "sierra"@ {
            Some(DitherAlgorithm::Sierra)
        } else {
            None
        }
    }

    /// The number that the weights of the kernel are divided by.
    pub open spec fn spec_divisor(self) -> int {
        match self {
            DitherAlgorithm::FloydSteinberg => 16,
            DitherAlgorithm::Atkinson => 8,
            DitherAlgorithm::Stucki => 42,
            DitherAlgorithm::Burkes => 32,
            DitherAlgorithm::Jarvis => 48,
            DitherAlgorithm::Sierra => 32,
        }
    }

    /// The taps of the kernel, each as `(row, col, weight)`.
    pub open spec fn spec_taps(self) -> Seq<(int, int, int)> {
        match self {
            DitherAlgorithm::FloydSteinberg => seq![
                (0, 1, 7),
                (1, -1, 3), (1, 0, 5), (1, 1, 1),
            ],
            DitherAlgorithm::Atkinson => seq![
                (0, 1, 1), (0, 2, 1),
                (1, -1, 1), (1, 0, 1), (1, 1, 1),
                (2, 0, 1),
            ],
            DitherAlgorithm::Stucki => seq![
                (0, 1, 8), (0, 2, 4),
                (1, -2, 2), (1, -1, 4), (1, 0, 8), (1, 1, 4), (1, 2, 2),
                (2, -2, 1), (2, -1, 2), (2, 0, 4), (2, 1, 2), (2, 2, 1),
            ],
            DitherAlgorithm::Burkes => seq![
                (0, 1, 8), (0, 2, 4),
                (1, -2, 2), (1, -1, 4), (1, 0, 8), (1, 1, 4), (1, 2, 2),
            ],
            DitherAlgorithm::Jarvis => seq![
                (0, 1, 7), (0, 2, 5),
                (1, -2, 3), (1, -1, 5), (1, 0, 7), (1, 1, 5), (1, 2, 3),
                (2, -2, 1), (2, -1, 3), (2, 0, 5), (2, 1, 3), (2, 2, 1),
            ],
            DitherAlgorithm::Sierra => seq![
                (0, 1, 5), (0, 2, 3),
                (1, -2, 2), (1, -1, 4), (1, 0, 5), (1, 1, 4), (1, 2, 2),
                (2, -1, 2), (2, 0, 3), (2, 1, 2),
            ],
        }
    }

    /// The kernel of the algorithm.
    pub open spec fn spec_kernel(self) -> KernelModel {
        KernelModel { taps: self.spec_taps(), divisor: self.spec_divisor() }
    }

    /// The name by which callers select the algorithm.
    pub fn name(&self) -> (r: &'static str)
        ensures
            r@ == self.spec_name(),
    {
        match self {
            DitherAlgorithm::FloydSteinberg => "floyd_steinberg",
            DitherAlgorithm::Atkinson => "atkinson",
            DitherAlgorithm::Stucki => "stucki",
            DitherAlgorithm::Burkes => "burkes",
            DitherAlgorithm::Jarvis => "jarvis",
            DitherAlgorithm::Sierra => "sierra",
        }
    }

    /// The algorithm that `name` selects. A name that is none of the six
    /// selects nothing: there is no default.
    pub fn from_name(name: &str) -> (r: Result<DitherAlgorithm, Error>)
        ensures
            match DitherAlgorithm::spec_from_name(name@) {
                Some(algorithm) => r == Ok::<DitherAlgorithm, Error>(algorithm),
                None => r == Err::<DitherAlgorithm, Error>(Error::UnknownAlgorithm),
            },
    {
        if same_text(name, "floyd_steinberg") {
            Ok(DitherAlgorithm::FloydSteinberg)
        } else if same_text(name, "atkinson") {
            Ok(DitherAlgorithm::Atkinson)
        } else if same_text(name, "stucki") {
            Ok(DitherAlgorithm::Stucki)
        } else if same_text(name, "burkes") {
            Ok(DitherAlgorithm::Burkes)
        } else if same_text(name, "jarvis") {
            Ok(DitherAlgorithm::Jarvis)
        } else if same_text(name, "sierra") {
            Ok(DitherAlgorithm::Sierra)
        } else {
            Err(Error::UnknownAlgorithm)
        }
    }

    /// The kernel of the algorithm.
    pub fn kernel(&self) -> (k: DiffusionKernel)
        ensures
            k@ == self.spec_kernel(),
    {
        let mut taps: Vec<KernelTap> = Vec::new();
        let divisor: u8;
        match self {
            DitherAlgorithm::FloydSteinberg => {
                divisor = 16;
                taps.push(KernelTap { row: 0, col: 1, weight: 7 });
                taps.push(KernelTap { row: 1, col: -1, weight: 3 });
                taps.push(KernelTap { row: 1, col: 0, weight: 5 });
                taps.push(KernelTap { row: 1, col: 1, weight: 1 });
            },
            DitherAlgorithm::Atkinson => {
                divisor = 8;
                taps.push(KernelTap { row: 0, col: 1, weight: 1 });
                taps.push(KernelTap { row: 0, col: 2, weight: 1 });
                taps.push(KernelTap { row: 1, col: -1, weight: 1 });
                taps.push(KernelTap { row: 1, col: 0, weight: 1 });
                taps.push(KernelTap { row: 1, col: 1, weight: 1 });
                taps.push(KernelTap { row: 2, col: 0, weight: 1 });
            },
            DitherAlgorithm::Stucki => {
                divisor = 42;
                taps.push(KernelTap { row: 0, col: 1, weight: 8 });
                taps.push(KernelTap { row: 0, col: 2, weight: 4 });
                taps.push(KernelTap { row: 1, col: -2, weight: 2 });
                taps.push(KernelTap { row: 1, col: -1, weight: 4 });
                taps.push(KernelTap { row: 1, col: 0, weight: 8 });
                taps.push(KernelTap { row: 1, col: 1, weight: 4 });
                taps.push(KernelTap { row: 1, col: 2, weight: 2 });
                taps.push(KernelTap { row: 2, col: -2, weight: 1 });
                taps.push(KernelTap { row: 2, col: -1, weight: 2 });
                taps.push(KernelTap { row: 2, col: 0, weight: 4 });
                taps.push(KernelTap { row: 2, col: 1, weight: 2 });
                taps.push(KernelTap { row: 2, col: 2, weight: 1 });
            },
            DitherAlgorithm::Burkes => {
                divisor = 32;
                taps.push(KernelTap { row: 0, col: 1, weight: 8 });
                taps.push(KernelTap { row: 0, col: 2, weight: 4 });
                taps.push(KernelTap { row: 1, col: -2, weight: 2 });
                taps.push(KernelTap { row: 1, col: -1, weight: 4 });
                taps.push(KernelTap { row: 1, col: 0, weight: 8 });
                taps.push(KernelTap { row: 1, col: 1, weight: 4 });
                taps.push(KernelTap { row: 1, col: 2, weight: 2 });
            },
            DitherAlgorithm::Jarvis => {
                divisor = 48;
                taps.push(KernelTap { row: 0, col: 1, weight: 7 });
                taps.push(KernelTap { row: 0, col: 2, weight: 5 });
                taps.push(KernelTap { row: 1, col: -2, weight: 3 });
                taps.push(KernelTap { row: 1, col: -1, weight: 5 });
                taps.push(KernelTap { row: 1, col: 0, weight: 7 });
                taps.push(KernelTap { row: 1, col: 1, weight: 5 });
                taps.push(KernelTap { row: 1, col: 2, weight: 3 });
                taps.push(KernelTap { row: 2, col: -2, weight: 1 });
                taps.push(KernelTap { row: 2, col: -1, weight: 3 });
                taps.push(KernelTap { row: 2, col: 0, weight: 5 });
                taps.push(KernelTap { row: 2, col: 1, weight: 3 });
                taps.push(KernelTap { row: 2, col: 2, weight: 1 });
            },
            DitherAlgorithm::Sierra => {
                divisor = 32;
                taps.push(KernelTap { row: 0, col: 1, weight: 5 });
                taps.push(KernelTap { row: 0, col: 2, weight: 3 });
                taps.push(KernelTap { row: 1, col: -2, weight: 2 });
                taps.push(KernelTap { row: 1, col: -1, weight: 4 });
                taps.push(KernelTap { row: 1, col: 0, weight: 5 });
                taps.push(KernelTap { row: 1, col: 1, weight: 4 });
                taps.push(KernelTap { row: 1, col: 2, weight: 2 });
                taps.push(KernelTap { row: 2, col: -1, weight: 2 });
                taps.push(KernelTap { row: 2, col: 0, weight: 3 });
                taps.push(KernelTap { row: 2, col: 1, weight: 2 });
            },
        }
        let k = DiffusionKernel { taps, divisor };
        assert(k@.taps =~= self.spec_taps());
        k
    }
}

impl DiffusionKernel {
    #[verifier::type_invariant]
    spec fn few_taps(self) -> bool {
        self.taps.len() <= 12
    }

    /// The number that the weights are divided by.
    pub fn divisor(&self) -> (d: u8)
        ensures
            d == self@.divisor,
    {
        self.divisor
    }

    /// The number of taps.
    pub fn len(&self) -> (n: usize)
        ensures
            n == self@.taps.len(),
    {
        self.taps.len()
    }

    /// The tap at `index`, in the order in which the error is handed out.
    pub fn tap(&self, index: usize) -> (t: Option<KernelTap>)
        ensures
            index < self@.taps.len() ==> t.is_some() && t.unwrap()@ == self@.taps[index as int],
            index >= self@.taps.len() ==> t.is_none(),
    {
        if index < self.taps.len() {
            Some(self.taps[index])
        } else {
            None
        }
    }

    /// The sum of the weights of all taps.
    pub fn weight_total(&self) -> (total: u32)
        ensures
            total == weight_sum(self@.taps),
    {
        proof {
            use_type_invariant(self);
        }
        let mut total: u32 = 0;
        let mut i: usize = 0;
        while i < self.taps.len()
            invariant
                i <= self.taps.len(),
                total == weight_sum(self@.taps.take(i as int)),
                total <= 255 * i,
                self.taps.len() <= 12,
            decreases self.taps.len() - i,
        {
            proof {
                assert(self@.taps.take(i + 1).drop_last() =~= self@.taps.take(i as int));
            }
            total = total + self.taps[i].weight as u32;
            i = i + 1;
        }
        proof {
            assert(self@.taps.take(i as int) =~= self@.taps);
        }
        total
    }
}

/// The weights of a kernel add up to its divisor, so that the whole of the
/// quantization error is handed on. Atkinson is the exception: its six
/// taps of weight one hand on six eighths of the error and drop the rest.
pub proof fn law_kernel_weights(algorithm: DitherAlgorithm)
    ensures
        algorithm != DitherAlgorithm::Atkinson ==> weight_sum(algorithm.spec_taps())
            == algorithm.spec_divisor(),
        algorithm == DitherAlgorithm::Atkinson ==> weight_sum(algorithm.spec_taps()) == 6
            && algorithm.spec_divisor() == 8,
{
    reveal_with_fuel(weight_sum, 13);
}

/// No tap of any kernel points back at a pixel that was already
/// quantized: a tap on the current row lies to the right, and no tap lies
/// on an earlier row. Every tap has a weight, and the divisor is positive.
pub proof fn law_kernel_forward(algorithm: DitherAlgorithm)
    ensures
        algorithm.spec_kernel().wf(),
{
}

/// Each algorithm is found again under its own name, so the six names are
/// all different.
pub proof fn law_name_round_trip(algorithm: DitherAlgorithm)
    ensures
        DitherAlgorithm::spec_from_name(algorithm.spec_name()) == Some(algorithm),
{
    reveal_strlit("floyd_steinberg");
    reveal_strlit("atkinson");
    reveal_strlit("stucki");
    reveal_strlit("burkes");
    reveal_strlit("jarvis");
    reveal_strlit("sierra");
    assert("floyd_steinberg"@.len() == 15);
    assert("atkinson"@.len() == 8);
    assert("stucki"@[0] == 's' && "stucki"@[1] == 't');
    assert("burkes"@[0] == 'b');
    assert("jarvis"@[0] == 'j');
    assert("sierra"@[0] == 's' && "sierra"@[1] == 'i');
}

/// Whether two texts hold the same characters.
fn same_text(a: &str, b: &str) -> (r: bool)
    ensures
        r == (a@ == b@),
{
    a.to_owned() == b.to_owned()
}

} // verus!

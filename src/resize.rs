use vstd::prelude::*;

use crate::error::ProcessError;
use crate::image::RGB;

verus! {

/// The catalogue of separable resampling kernels.
#[derive(Debug, Clone, Copy, PartialEq, Eq, Structural)]
pub enum Type {
    /// Nearest neighbour, support radius 0.
    Point,
    /// Linear interpolation, support radius 1.
    Triangle,
    /// Catmull-Rom interpolating cubic, support radius 2.
    Catrom,
    /// Mitchell-Netravali approximating cubic, support radius 2.
    Mitchell,
    /// Windowed sinc, support radius 3.
    Lanczos3,
}

/// One resampling request: the source and destination dimensions, both
/// non-zero, and the kernel to use.
#[derive(Debug, Clone, Copy, PartialEq, Eq, Structural)]
pub struct ResizeJob {
    pub src_width: usize,
    pub src_height: usize,
    pub dst_width: usize,
    pub dst_height: usize,
    pub kernel: Type,
}

/// The destination dimensions of a resize from a `sw` by `sh` source with
/// the configured target width and height, or why there are none.
///
/// With only a width the height keeps the aspect ratio, rounded down; with
/// only a height the width does; with both they are used as given.
pub open spec fn target_of(width: Option<usize>, height: Option<usize>, sw: nat, sh: nat) -> Result<
    (nat, nat),
    ProcessError,
> {
    if width is None && height is None {
        Err(ProcessError::MissingTarget)
    } else if sw == 0 || sh == 0 {
        Err(ProcessError::ZeroExtent)
    } else {
        let dw: int = match width {
            Some(w) => w as int,
            None => height->Some_0 as int * sw as int / sh as int,
        };
        let dh: int = match height {
            Some(h) => h as int,
            None => width->Some_0 as int * sh as int / sw as int,
        };
        if dw == 0 || dh == 0 {
            Err(ProcessError::ZeroExtent)
        } else if dw > usize::MAX || dh > usize::MAX || dw * dh * 3 > usize::MAX {
            Err(ProcessError::TooLarge)
        } else {
            Ok((dw as nat, dh as nat))
        }
    }
}

/// Whatever the kernel, a successful resize yields one image holding
/// exactly `dst_width * dst_height * 3` samples, with the derived dimensions.
pub proof fn lemma_resize_output_length<T, R: Fn(ResizeJob, RGB<T>) -> Vec<T>>(
    p: ResizeProcessor,
    input: Seq<RGB<T>>,
    out: Vec<RGB<T>>,
    resample: R,
)
    requires
        p.outcome(input, Ok(out), resample),
    ensures
        input.len() == 1,
        p.target_spec(input[0].width_spec(), input[0].height_spec()) matches Ok((dw, dh)) && out@.len()
            == 1 && out@[0].width_spec() == dw && out@[0].height_spec() == dh
            && out@[0].samples().len() == dw * dh * 3,
{
}

/// `floor(a * b / c)`, or `None` where it does not fit in a `usize`.
fn scaled(a: usize, b: usize, c: usize) -> (r: Option<usize>)
    requires
        c > 0,
    ensures
        r matches Some(q) ==> q == a as int * b as int / c as int,
        r is None <==> a as int * b as int / c as int > usize::MAX,
{
    let wide_a = a as u128;
    let wide_b = b as u128;
    assert(wide_a * wide_b <= u128::MAX) by (nonlinear_arith)
        requires
            wide_a <= u64::MAX,
            wide_b <= u64::MAX,
    ;
    let q = wide_a * wide_b / (c as u128);
    if q <= usize::MAX as u128 {
        Some(q as usize)
    } else {
        None
    }
}

/// A stage that resamples its one input image to new dimensions with one
/// kernel of the catalogue. Arity (1, 1).
#[derive(Debug, Clone, Copy)]
pub struct ResizeProcessor {
    pub width: Option<usize>,
    pub height: Option<usize>,
    pub resizer: Type,
}

impl ResizeProcessor {
    /// A resize stage with no target yet and the `Point` kernel.
    pub fn new() -> (r: ResizeProcessor)
        ensures
            r.width is None,
            r.height is None,
            r.resizer == Type::Point,
    {
        ResizeProcessor { width: None, height: None, resizer: Type::Point }
    }

    /// A resize stage to `width` columns that keeps the aspect ratio.
    pub fn with_width(width: usize) -> (r: Self)
        ensures
            r.width == Some(width),
            r.height is None,
            r.resizer == Type::Point,
    {
        let mut l = Self::new();
        l.width = Some(width);
        l
    }

    /// A resize stage to `height` rows that keeps the aspect ratio.
    pub fn with_height(height: usize) -> (r: Self)
        ensures
            r.width is None,
            r.height == Some(height),
            r.resizer == Type::Point,
    {
        let mut l = Self::new();
        l.height = Some(height);
        l
    }

    /// The number of images consumed and produced per call.
    pub fn num_slots(&self) -> (r: (usize, usize))
        ensures
            r == (1usize, 1usize),
    {
        (1, 1)
    }

    /// The destination dimensions for a `src_width` by `src_height` image.
    pub open spec fn target_spec(&self, src_width: nat, src_height: nat) -> Result<
        (nat, nat),
        ProcessError,
    > {
        target_of(self.width, self.height, src_width, src_height)
    }

    /// The request handed to the resampler for a source image.
    pub open spec fn job_spec(&self, src_width: nat, src_height: nat) -> ResizeJob {
        let (dw, dh) = self.target_spec(src_width, src_height)->Ok_0;
        ResizeJob {
            src_width: src_width as usize,
            src_height: src_height as usize,
            dst_width: dw as usize,
            dst_height: dh as usize,
            kernel: self.resizer,
        }
    }

    /// What resizing `input` yields: an arity error unless there is exactly
    /// one image; the error of the dimension derivation, if any; else one
    /// image of the derived dimensions holding what `resample` returned for
    /// the job, or `DataLength` where it returned a buffer of another length.
    pub open spec fn outcome<T, R: Fn(ResizeJob, RGB<T>) -> Vec<T>>(
        &self,
        input: Seq<RGB<T>>,
        r: Result<Vec<RGB<T>>, ProcessError>,
        resample: R,
    ) -> bool {
        if input.len() != 1 {
            r == Err::<Vec<RGB<T>>, ProcessError>(
                ProcessError::Arity { expected: 1, actual: input.len() as usize },
            )
        } else {
            let img = input[0];
            match self.target_spec(img.width_spec(), img.height_spec()) {
                Err(e) => r == Err::<Vec<RGB<T>>, ProcessError>(e),
                Ok((dw, dh)) => {
                    let job = self.job_spec(img.width_spec(), img.height_spec());
                    match r {
                        Ok(out) => out@.len() == 1 && out@[0].width_spec() == dw
                            && out@[0].height_spec() == dh && out@[0].wf() && resample.ensures(
                            (job, img),
                            out@[0].buffer(),
                        ),
                        Err(e) => e == ProcessError::DataLength && exists|v: Vec<T>|
                            #[trigger] resample.ensures((job, img), v) && v@.len() != dw * dh
                                * 3,
                    }
                },
            }
        }
    }

    /// Resizes the one input image. The sample arithmetic is `resample`'s:
    /// given the job and the source image it returns the destination
    /// samples, `dst_width * dst_height * 3` of them, row-major and
    /// channel-interleaved.
    pub fn process<T, R: Fn(ResizeJob, RGB<T>) -> Vec<T>>(
        &self,
        input: Vec<RGB<T>>,
        resample: &R,
    ) -> (r: Result<Vec<RGB<T>>, ProcessError>)
        requires
            forall|job: ResizeJob, img: RGB<T>| resample.requires((job, img)),
        ensures
            self.outcome(input@, r, *resample),
    {
        if input.len() != 1 {
            return Err(ProcessError::Arity { expected: 1, actual: input.len() });
        }
        let ghost first = input@[0];
        let mut input = input;
        let img = input.pop().unwrap();
        assert(img == first);
        let (dw, dh) = match self.target_dimensions(img.width(), img.height()) {
            Ok(d) => d,
            Err(e) => return Err(e),
        };
        let job = ResizeJob {
            src_width: img.width(),
            src_height: img.height(),
            dst_width: dw,
            dst_height: dh,
            kernel: self.resizer,
        };
        let data = resample(job, img);
        match RGB::from_samples(dw, dh, data) {
            Ok(out) => {
                let r = vec![out];
                assert(r@[0] == out);
                Ok(r)
            },
            Err(e) => Err(e),
        }
    }

    /// Derives the destination dimensions for a `src_width` by `src_height`
    /// image from the configured target.
    pub fn target_dimensions(&self, src_width: usize, src_height: usize) -> (r: Result<
        (usize, usize),
        ProcessError,
    >)
        ensures
            match r {
                Ok((w, h)) => self.target_spec(src_width as nat, src_height as nat) == Ok::<
                    (nat, nat),
                    ProcessError,
                >((w as nat, h as nat)),
                Err(e) => self.target_spec(src_width as nat, src_height as nat) == Err::<
                    (nat, nat),
                    ProcessError,
                >(e),
            },
    {
        if self.width.is_none() && self.height.is_none() {
            return Err(ProcessError::MissingTarget);
        }
        if src_width == 0 || src_height == 0 {
            return Err(ProcessError::ZeroExtent);
        }
        let (dw, dh): (usize, usize) = match (self.width, self.height) {
            (Some(w), Some(h)) => (w, h),
            (Some(w), None) => match scaled(w, src_height, src_width) {
                Some(h) => (w, h),
                None => {
                    return if w == 0 {
                        Err(ProcessError::ZeroExtent)
                    } else {
                        Err(ProcessError::TooLarge)
                    };
                },
            },
            (None, Some(h)) => match scaled(h, src_width, src_height) {
                Some(w) => (w, h),
                None => {
                    return if h == 0 {
                        Err(ProcessError::ZeroExtent)
                    } else {
                        Err(ProcessError::TooLarge)
                    };
                },
            },
            (None, None) => (0, 0),
        };
        if dw == 0 || dh == 0 {
            return Err(ProcessError::ZeroExtent);
        }
        match dw.checked_mul(dh) {
            Some(p) => match p.checked_mul(3) {
                Some(_) => Ok((dw, dh)),
                None => Err(ProcessError::TooLarge),
            },
            None => {
                proof {
                    let n = dw * dh;
                    assert(n * 3 >= n);
                }
                Err(ProcessError::TooLarge)
            },
        }
    }
}

} // verus!

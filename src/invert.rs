use vstd::prelude::*;

use crate::error::ProcessError;
use crate::image::RGB;

verus! {

/// A stage that replaces every sample `v` of its one input image by its
/// complement `1 - v`, without clamping. Arity (1, 1).
#[derive(Debug, Clone, Copy)]
pub struct InvertProcessor {}

/// `out` is `img` with `complement` applied to every sample.
pub open spec fn complemented<T, C: Fn(T) -> T>(img: RGB<T>, out: RGB<T>, complement: C) -> bool {
    &&& out.width_spec() == img.width_spec()
    &&& out.height_spec() == img.height_spec()
    &&& out.wf()
    &&& out.samples().len() == img.samples().len()
    &&& forall|i: int|
        0 <= i < img.samples().len() ==> complement.ensures(
            (img.samples()[i],),
            #[trigger] out.samples()[i],
        )
}

impl InvertProcessor {
    pub fn new() -> (r: InvertProcessor) {
        InvertProcessor {  }
    }

    /// The number of images consumed and produced per call.
    pub fn num_slots(&self) -> (r: (usize, usize))
        ensures
            r == (1usize, 1usize),
    {
        (1, 1)
    }

    /// What inverting `input` yields: an arity error unless there is exactly
    /// one image, else one image of the same dimensions whose samples are
    /// the complements of the input's.
    pub open spec fn outcome<T, C: Fn(T) -> T>(
        &self,
        input: Seq<RGB<T>>,
        r: Result<Vec<RGB<T>>, ProcessError>,
        complement: C,
    ) -> bool {
        if input.len() != 1 {
            r == Err::<Vec<RGB<T>>, ProcessError>(
                ProcessError::Arity { expected: 1, actual: input.len() as usize },
            )
        } else {
            r matches Ok(out) && out@.len() == 1 && complemented(input[0], out@[0], complement)
        }
    }

    /// Inverts the one input image. The sample arithmetic is `complement`'s:
    /// it maps a sample `v` to `1 - v`.
    pub fn process<T: Copy, C: Fn(T) -> T>(&self, input: Vec<RGB<T>>, complement: &C) -> (r:
        Result<Vec<RGB<T>>, ProcessError>)
        requires
            forall|x: T| complement.requires((x,)),
        ensures
            self.outcome(input@, r, *complement),
    {
        if input.len() != 1 {
            return Err(ProcessError::Arity { expected: 1, actual: input.len() });
        }
        let out = input[0].map_samples(complement);
        let r = vec![out];
        assert(r@[0] == out);
        Ok(r)
    }
}

/// Where `complement` undoes itself on the samples at hand, inverting an
/// image twice gives back its samples.
pub proof fn lemma_invert_twice<T, C: Fn(T) -> T>(
    img: RGB<T>,
    once: RGB<T>,
    twice: RGB<T>,
    complement: C,
)
    requires
        complemented(img, once, complement),
        complemented(once, twice, complement),
        forall|x: T, y: T, z: T|
            #[trigger] complement.ensures((x,), y) && #[trigger] complement.ensures((y,), z)
                ==> z == x,
    ensures
        twice.width_spec() == img.width_spec(),
        twice.height_spec() == img.height_spec(),
        twice.samples() == img.samples(),
{
    assert forall|i: int| 0 <= i < img.samples().len() implies twice.samples()[i]
        == img.samples()[i] by {
        assert(complement.ensures((img.samples()[i],), once.samples()[i]));
        assert(complement.ensures((once.samples()[i],), twice.samples()[i]));
    }
    assert(twice.samples() =~= img.samples());
}

} // verus!

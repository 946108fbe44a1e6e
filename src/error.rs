use vstd::prelude::*;

verus! {

/// Why a construction or a processing step was refused.
#[derive(Debug, Clone, Copy, PartialEq, Eq, Structural)]
pub enum ProcessError {
    /// A sample buffer does not hold `width * height * 3` samples.
    DataLength,
    /// A stage was handed a number of images other than its input arity.
    Arity { expected: usize, actual: usize },
    /// Inside a pipeline, the working set before stage `stage` does not
    /// match that stage's input arity.
    Wiring { stage: usize, expected: usize, actual: usize },
    /// A resize stage was configured with neither a width nor a height.
    MissingTarget,
    /// A resize would read from or write to an image with no rows or columns.
    ZeroExtent,
    /// The resized image would hold more samples than a `usize` can count.
    TooLarge,
}

} // verus!

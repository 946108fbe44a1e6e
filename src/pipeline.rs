use vstd::prelude::*;

use crate::error::ProcessError;
use crate::image::RGB;
use crate::invert::InvertProcessor;
use crate::resize::{ResizeJob, ResizeProcessor};

verus! {

/// The closed set of stage kinds: the two leaf stages and a nested chain.
#[derive(Debug)]
pub enum KnownProcessor {
    Resize(ResizeProcessor),
    Invert(InvertProcessor),
    Pipeline(LinearPipeline),
}

/// An ordered chain of stages, each fed the previous one's output.
#[derive(Debug)]
pub struct LinearPipeline {
    pub pipeline: Vec<KnownProcessor>,
}

/// The number of images a chain of stages reports it consumes and produces:
/// those of its first stage, or none for an empty chain.
pub open spec fn chain_slots(stages: Seq<KnownProcessor>) -> (nat, nat)
    decreases stages, 0int,
{
    if stages.len() == 0 {
        (0, 0)
    } else {
        stages[0].slots()
    }
}

/// Marks the result of one stage inside `run_from`, so that a proof can
/// name it as the witness; it holds of every result.
pub open spec fn stage_result<T>(sr: Result<Vec<RGB<T>>, ProcessError>) -> bool {
    true
}

/// What running `stages` from index `k` on the working set `ws` yields.
///
/// Before stage `k` runs, the working set must hold exactly as many images
/// as the stage consumes; else the run stops there with a wiring error and
/// stage `k` never sees the images. A stage's own error stops the run too.
/// Otherwise the stage's output becomes the next working set, and the last
/// working set is the result.
pub open spec fn run_from<T, C: Fn(T) -> T, R: Fn(ResizeJob, RGB<T>) -> Vec<T>>(
    stages: Seq<KnownProcessor>,
    k: int,
    ws: Seq<RGB<T>>,
    r: Result<Vec<RGB<T>>, ProcessError>,
    complement: C,
    resample: R,
) -> bool
    decreases stages, stages.len() - k,
{
    if k < 0 || k >= stages.len() {
        r matches Ok(out) && out@ == ws
    } else if ws.len() != stages[k].slots().0 {
        r == Err::<Vec<RGB<T>>, ProcessError>(
            ProcessError::Wiring {
                stage: k as usize,
                expected: stages[k].slots().0 as usize,
                actual: ws.len() as usize,
            },
        )
    } else {
        exists|sr: Result<Vec<RGB<T>>, ProcessError>|
            #[trigger] stage_result(sr) && match stages[k] {
                KnownProcessor::Resize(p) => p.outcome(ws, sr, resample),
                KnownProcessor::Invert(p) => p.outcome(ws, sr, complement),
                KnownProcessor::Pipeline(p) => run_from(p.pipeline@, 0, ws, sr, complement, resample),
            } && match sr {
                Ok(next) => run_from(stages, k + 1, next@, r, complement, resample),
                Err(e) => r == Err::<Vec<RGB<T>>, ProcessError>(e),
            }
    }
}

/// `a` and `b` are configured alike: equal leaf stages, or nested chains of
/// pairwise alike stages.
pub open spec fn same_config(a: KnownProcessor, b: KnownProcessor) -> bool
    decreases a, 0int,
{
    match (a, b) {
        (KnownProcessor::Pipeline(p), KnownProcessor::Pipeline(q)) => same_chain(p.pipeline@, q.pipeline@),
        _ => a == b,
    }
}

/// Two chains of pairwise alike stages.
pub open spec fn same_chain(s: Seq<KnownProcessor>, t: Seq<KnownProcessor>) -> bool
    decreases s, 1int,
{
    s.len() == t.len() && forall|i: int| 0 <= i < s.len() ==> same_config(#[trigger] s[i], t[i])
}

impl KnownProcessor {
    /// The number of images the stage consumes and produces per call, as it
    /// reports them.
    pub open spec fn slots(&self) -> (nat, nat)
        decreases self, 0int,
    {
        match self {
            KnownProcessor::Resize(_) => (1, 1),
            KnownProcessor::Invert(_) => (1, 1),
            KnownProcessor::Pipeline(p) => chain_slots(p.pipeline@),
        }
    }

    /// What applying the stage to `input` yields, with `complement` and
    /// `resample` doing the sample arithmetic.
    pub open spec fn outcome<T, C: Fn(T) -> T, R: Fn(ResizeJob, RGB<T>) -> Vec<T>>(
        &self,
        input: Seq<RGB<T>>,
        r: Result<Vec<RGB<T>>, ProcessError>,
        complement: C,
        resample: R,
    ) -> bool {
        match self {
            KnownProcessor::Resize(p) => p.outcome(input, r, resample),
            KnownProcessor::Invert(p) => p.outcome(input, r, complement),
            KnownProcessor::Pipeline(p) => run_from(p.pipeline@, 0, input, r, complement, resample),
        }
    }
}

impl KnownProcessor {
    /// The number of images consumed and produced per call. A nested
    /// pipeline reports its first stage's.
    pub fn num_slots(&self) -> (r: (usize, usize))
        ensures
            (r.0 as nat, r.1 as nat) == self.slots(),
        decreases self,
    {
        match self {
            KnownProcessor::Resize(p) => p.num_slots(),
            KnownProcessor::Invert(p) => p.num_slots(),
            KnownProcessor::Pipeline(p) => p.num_slots(),
        }
    }

    /// Applies the stage to `input`.
    pub fn process<T: Copy, C: Fn(T) -> T, R: Fn(ResizeJob, RGB<T>) -> Vec<T>>(
        &self,
        input: Vec<RGB<T>>,
        complement: &C,
        resample: &R,
    ) -> (r: Result<Vec<RGB<T>>, ProcessError>)
        requires
            forall|x: T| complement.requires((x,)),
            forall|job: ResizeJob, img: RGB<T>| resample.requires((job, img)),
        ensures
            self.outcome(input@, r, *complement, *resample),
        decreases self,
    {
        match self {
            KnownProcessor::Resize(p) => p.process(input, resample),
            KnownProcessor::Invert(p) => p.process(input, complement),
            KnownProcessor::Pipeline(p) => p.process(input, complement, resample),
        }
    }

    /// Discards memoized state that only saves work. The leaf stages keep
    /// none: the resampling weights are computed afresh for each call. A
    /// nested pipeline forwards the reset to its stages.
    pub fn clear_caches(&mut self)
        ensures
            same_config(*old(self), *final(self)),
        decreases *old(self),
    {
        match self {
            KnownProcessor::Pipeline(p) => p.clear_caches(),
            _ => {},
        }
    }
}

impl LinearPipeline {
    /// The stages, first to last.
    pub open spec fn stages(&self) -> Seq<KnownProcessor> {
        self.pipeline@
    }

    /// An empty pipeline.
    pub fn new() -> (r: LinearPipeline)
        ensures
            r.stages() == Seq::<KnownProcessor>::empty(),
    {
        LinearPipeline { pipeline: Vec::new() }
    }

    /// Appends a stage at the end of the chain.
    pub fn push(&mut self, stage: KnownProcessor)
        ensures
            final(self).stages() == old(self).stages().push(stage),
    {
        self.pipeline.push(stage);
    }

    /// The number of stages.
    pub fn len(&self) -> (r: usize)
        ensures
            r == self.stages().len(),
    {
        self.pipeline.len()
    }

    /// The arity of the first stage, or (0, 0) for an empty pipeline. The
    /// last stage's output count is not consulted.
    pub fn num_slots(&self) -> (r: (usize, usize))
        ensures
            (r.0 as nat, r.1 as nat) == chain_slots(self.stages()),
        decreases self,
    {
        if self.pipeline.len() == 0 {
            (0, 0)
        } else {
            self.pipeline[0].num_slots()
        }
    }

    /// Runs the stages front to back on `input`, checking before each stage
    /// that the working set holds as many images as the stage consumes.
    pub fn process<T: Copy, C: Fn(T) -> T, R: Fn(ResizeJob, RGB<T>) -> Vec<T>>(
        &self,
        input: Vec<RGB<T>>,
        complement: &C,
        resample: &R,
    ) -> (r: Result<Vec<RGB<T>>, ProcessError>)
        requires
            forall|x: T| complement.requires((x,)),
            forall|job: ResizeJob, img: RGB<T>| resample.requires((job, img)),
        ensures
            run_from(self.stages(), 0, input@, r, *complement, *resample),
        decreases self,
    {
        let ghost stages = self.pipeline@;
        let ghost start = input@;
        let mut current = input;
        let mut i: usize = 0;
        while i < self.pipeline.len()
            invariant
                stages == self.pipeline@,
                start == input@,
                i <= stages.len(),
                forall|x: T| complement.requires((x,)),
                forall|job: ResizeJob, img: RGB<T>| resample.requires((job, img)),
                forall|r: Result<Vec<RGB<T>>, ProcessError>|
                    #[trigger] run_from(stages, i as int, current@, r, *complement, *resample)
                        ==> run_from(stages, 0, start, r, *complement, *resample),
            decreases stages.len() - i,
        {
            let stage = &self.pipeline[i];
            let (num_in, _num_out) = stage.num_slots();
            if num_in != current.len() {
                let r = Err(ProcessError::Wiring { stage: i, expected: num_in, actual: current.len() });
                assert(run_from(stages, i as int, current@, r, *complement, *resample));
                return r;
            }
            let ghost ws = current@;
            let sr = stage.process(current, complement, resample);
            match sr {
                Ok(next) => {
                    assert forall|r: Result<Vec<RGB<T>>, ProcessError>|
                        #[trigger] run_from(stages, i + 1, next@, r, *complement, *resample)
                            implies run_from(stages, 0, start, r, *complement, *resample) by {
                        assert(stage_result(sr));
                        assert(run_from(stages, i as int, ws, r, *complement, *resample));
                    }
                    current = next;
                },
                Err(e) => {
                    let r = Err(e);
                    assert(stage_result(sr));
                    assert(run_from(stages, i as int, ws, r, *complement, *resample));
                    return r;
                },
            }
            i = i + 1;
        }
        let r = Ok(current);
        assert(run_from(stages, i as int, current@, r, *complement, *resample));
        r
    }

    /// Forwards the cache reset to every stage, in order.
    pub fn clear_caches(&mut self)
        ensures
            same_chain(old(self).stages(), final(self).stages()),
        decreases *old(self),
    {
        let ghost before = self.pipeline@;
        let mut i: usize = 0;
        while i < self.pipeline.len()
            invariant
                i <= self.pipeline@.len(),
                self.pipeline@.len() == before.len(),
                before == old(self).pipeline@,
                forall|j: int| 0 <= j < i ==> same_config(#[trigger] before[j], self.pipeline@[j]),
                forall|j: int| i <= j < before.len() ==> #[trigger] self.pipeline@[j] == before[j],
            decreases self.pipeline@.len() - i,
        {
            let ghost mid = self.pipeline@;
            let mut stage = self.pipeline.remove(i);
            assert(stage == before[i as int]);
            stage.clear_caches();
            self.pipeline.insert(i, stage);
            assert forall|j: int| 0 <= j < i implies #[trigger] self.pipeline@[j] == mid[j] by {}
            assert forall|j: int| i < j < before.len() implies #[trigger] self.pipeline@[j] == mid[j] by {}
            i = i + 1;
        }
    }
}

/// A working set whose size differs from what stage `k` consumes stops the
/// run at stage `k` with a wiring error, before that stage sees any image.
pub proof fn lemma_wiring_mismatch_stops<T, C: Fn(T) -> T, R: Fn(ResizeJob, RGB<T>) -> Vec<T>>(
    stages: Seq<KnownProcessor>,
    k: int,
    ws: Seq<RGB<T>>,
    r: Result<Vec<RGB<T>>, ProcessError>,
    complement: C,
    resample: R,
)
    requires
        0 <= k < stages.len(),
        ws.len() != stages[k].slots().0,
        run_from(stages, k, ws, r, complement, resample),
    ensures
        r == Err::<Vec<RGB<T>>, ProcessError>(
            ProcessError::Wiring {
                stage: k as usize,
                expected: stages[k].slots().0 as usize,
                actual: ws.len() as usize,
            },
        ),
{
}

} // verus!

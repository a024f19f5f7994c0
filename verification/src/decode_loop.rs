use vstd::prelude::*;

verus! {

/// Phase of one generation run. A run is constructed directly into
/// `FirstStep`, moves to `SteppingWithCache` after the first inference call
/// captures the cache, stays there for every later step, and ends in
/// `Terminated` on reaching the step budget, on sampling the end token from
/// every codebook at once, or on cancellation.
#[derive(Clone, Copy, Debug, PartialEq, Eq, Structural)]
pub enum DecodePhase {
    FirstStep,
    SteppingWithCache,
    Terminated,
}

/// Bookkeeping for one generation run: the phase, how many steps have
/// completed, and the step budget. The cache-branch flag sent with each
/// step's inputs is derived from it: off for the very first step of the run,
/// on for every step after it.
#[derive(Clone, Copy, Debug)]
pub struct DecodeLoopController {
    pub phase: DecodePhase,
    pub steps_completed: u64,
    pub max_steps: u64,
}

impl DecodeLoopController {
    /// The phase tracks the step count: the first step is exactly the one
    /// taken with no step completed, and the run never steps past its budget.
    pub open spec fn wf(&self) -> bool {
        &&& (self.phase is FirstStep <==> self.steps_completed == 0 && !(self.phase
            is Terminated))
        &&& (self.phase is SteppingWithCache ==> self.steps_completed > 0)
        &&& self.steps_completed <= self.max_steps
    }

    /// The cache-branch flag to send with the next step's inputs.
    pub open spec fn spec_cache_branch(&self) -> bool {
        self.steps_completed > 0
    }

    /// A fresh run: no step completed yet and the first step ahead — unless
    /// the step budget is zero, which the run has already reached, so it is
    /// terminated outright and owes no step.
    pub fn new(max_steps: u64) -> (r: Self)
        ensures
            r.wf(),
            max_steps > 0 ==> r.phase is FirstStep,
            max_steps == 0 ==> r.phase is Terminated,
            r.steps_completed == 0,
            r.max_steps == max_steps,
            !r.spec_cache_branch(),
    {
        if max_steps == 0 {
            DecodeLoopController { phase: DecodePhase::Terminated, steps_completed: 0, max_steps }
        } else {
            DecodeLoopController { phase: DecodePhase::FirstStep, steps_completed: 0, max_steps }
        }
    }

    /// The cache-branch flag for the next step: false exactly when no step
    /// has completed, i.e. only for the very first step of the run.
    pub fn cache_branch(&self) -> (r: bool)
        ensures
            r == self.spec_cache_branch(),
    {
        self.steps_completed > 0
    }

    /// Whether the run still owes a step.
    pub fn is_running(&self) -> (r: bool)
        ensures
            r == !(self.phase is Terminated),
    {
        !matches!(self.phase, DecodePhase::Terminated)
    }

    /// Records one completed inference step and decides the next phase:
    /// the run terminates on reaching the step budget or when the sampled
    /// frame was the end token on every codebook simultaneously; otherwise it
    /// continues with the cache captured from this step.
    pub fn complete_step(&mut self, all_codebooks_ended: bool)
        requires
            old(self).wf(),
            !(old(self).phase is Terminated),
            old(self).steps_completed < old(self).max_steps,
        ensures
            final(self).wf(),
            final(self).steps_completed == old(self).steps_completed + 1,
            final(self).max_steps == old(self).max_steps,
            final(self).spec_cache_branch(),
            final(self).phase == (if all_codebooks_ended || old(self).steps_completed + 1 == old(
                self,
            ).max_steps {
                DecodePhase::Terminated
            } else {
                DecodePhase::SteppingWithCache
            }),
    {
        self.steps_completed = self.steps_completed + 1;
        if all_codebooks_ended || self.steps_completed == self.max_steps {
            self.phase = DecodePhase::Terminated;
        } else {
            self.phase = DecodePhase::SteppingWithCache;
        }
    }

    /// External cancellation: the run ends here, whatever its phase was; the
    /// caller discards all captured cache tensors.
    pub fn cancel(&mut self)
        requires
            old(self).wf(),
        ensures
            final(self).wf(),
            final(self).phase is Terminated,
            final(self).steps_completed == old(self).steps_completed,
            final(self).max_steps == old(self).max_steps,
    {
        self.phase = DecodePhase::Terminated;
    }
}

/// Whether a sampled logical frame is the end token on every codebook
/// simultaneously, the natural-termination condition of a run.
pub fn all_codebooks_ended(frame: &Vec<i64>, end_token_id: i64) -> (r: bool)
    ensures
        r == (forall|i: int| 0 <= i < frame@.len() ==> frame@[i] == end_token_id),
{
    let mut i: usize = 0;
    while i < frame.len()
        invariant
            i <= frame@.len(),
            forall|k: int| 0 <= k < i ==> frame@[k] == end_token_id,
        decreases frame@.len() - i,
    {
        if frame[i] != end_token_id {
            return false;
        }
        i += 1;
    }
    true
}

/// Cache-branch invariant: in every well-formed run state, the flag sent with
/// the next step's inputs is false exactly when that step would be the run's
/// first, and true for every step after it.
pub proof fn lemma_cache_branch_first_step_only(c: DecodeLoopController)
    requires
        c.wf(),
    ensures
        c.spec_cache_branch() <==> !(c.phase is FirstStep || c.phase is Terminated
            && c.steps_completed == 0),
        c.phase is FirstStep ==> !c.spec_cache_branch(),
        c.phase is SteppingWithCache ==> c.spec_cache_branch(),
{
}

} // verus!

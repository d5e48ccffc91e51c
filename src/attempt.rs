//! The states of one attempt at drawing a frame.
//!
//! The host acquires an image, records and submits the commands, and reports
//! each result here; the attempt says what comes next. A stale surface at
//! acquisition or at submission ends the attempt as `OutOfDate`, any other
//! failure as `Fatal` with the stage that failed.

use vstd::prelude::*;

verus! {

/// What acquiring the next presentable image gave.
#[derive(Clone, Copy, Debug, PartialEq, Eq, Structural)]
pub enum AcquireResult {
    Acquired(usize),
    OutOfDate,
    Failed,
}

/// What submitting the frame and presenting its image gave.
#[derive(Clone, Copy, Debug, PartialEq, Eq, Structural)]
pub enum SubmitResult {
    Submitted,
    OutOfDate,
    Failed,
}

/// The step at which an attempt failed for good.
#[derive(Clone, Copy, Debug, PartialEq, Eq, Structural)]
pub enum Stage {
    Acquire,
    Record,
    Submit,
}

/// How an attempt ended, as the draw loop sees it.
#[derive(Clone, Copy, Debug, PartialEq, Eq, Structural)]
pub enum AttemptOutcome {
    Presented,
    OutOfDate,
}

#[derive(Clone, Copy, Debug, PartialEq, Eq, Structural)]
pub enum AttemptPhase {
    Acquiring,
    Recording { image_index: usize },
    Submitting { image_index: usize },
    Presented { image_index: usize },
    OutOfDate,
    Fatal { stage: Stage },
}

impl AttemptPhase {
    pub open spec fn after_acquire(self, r: AcquireResult) -> AttemptPhase
        recommends
            self is Acquiring,
    {
        match r {
            AcquireResult::Acquired(image_index) => AttemptPhase::Recording { image_index },
            AcquireResult::OutOfDate => AttemptPhase::OutOfDate,
            AcquireResult::Failed => AttemptPhase::Fatal { stage: Stage::Acquire },
        }
    }

    pub open spec fn after_record(self, ok: bool) -> AttemptPhase
        recommends
            self is Recording,
    {
        if ok {
            AttemptPhase::Submitting { image_index: self->Recording_image_index }
        } else {
            AttemptPhase::Fatal { stage: Stage::Record }
        }
    }

    pub open spec fn after_submit(self, r: SubmitResult) -> AttemptPhase
        recommends
            self is Submitting,
    {
        match r {
            SubmitResult::Submitted => AttemptPhase::Presented { image_index: self->Submitting_image_index },
            SubmitResult::OutOfDate => AttemptPhase::OutOfDate,
            SubmitResult::Failed => AttemptPhase::Fatal { stage: Stage::Submit },
        }
    }

    pub open spec fn spec_outcome(self) -> Option<AttemptOutcome> {
        match self {
            AttemptPhase::Presented { .. } => Some(AttemptOutcome::Presented),
            AttemptPhase::OutOfDate => Some(AttemptOutcome::OutOfDate),
            _ => None,
        }
    }

    /// The phase an attempt starts in.
    pub fn begin() -> (r: AttemptPhase)
        ensures
            r is Acquiring,
    {
        AttemptPhase::Acquiring
    }

    /// Takes in the result of acquiring an image.
    pub fn acquired(&mut self, r: AcquireResult)
        requires
            *old(self) is Acquiring,
        ensures
            *final(self) == old(self).after_acquire(r),
    {
        *self = match r {
            AcquireResult::Acquired(image_index) => AttemptPhase::Recording { image_index },
            AcquireResult::OutOfDate => AttemptPhase::OutOfDate,
            AcquireResult::Failed => AttemptPhase::Fatal { stage: Stage::Acquire },
        };
    }

    /// Takes in whether the command sequence was recorded.
    pub fn recorded(&mut self, ok: bool)
        requires
            *old(self) is Recording,
        ensures
            *final(self) == old(self).after_record(ok),
    {
        if let AttemptPhase::Recording { image_index } = *self {
            *self = if ok {
                AttemptPhase::Submitting { image_index }
            } else {
                AttemptPhase::Fatal { stage: Stage::Record }
            };
        }
    }

    /// Takes in the result of submitting and presenting the frame.
    pub fn submitted(&mut self, r: SubmitResult)
        requires
            *old(self) is Submitting,
        ensures
            *final(self) == old(self).after_submit(r),
    {
        if let AttemptPhase::Submitting { image_index } = *self {
            *self = match r {
                SubmitResult::Submitted => AttemptPhase::Presented { image_index },
                SubmitResult::OutOfDate => AttemptPhase::OutOfDate,
                SubmitResult::Failed => AttemptPhase::Fatal { stage: Stage::Submit },
            };
        }
    }

    /// How the attempt ended; `None` while it runs or after a fatal failure.
    pub fn outcome(&self) -> (r: Option<AttemptOutcome>)
        ensures
            r == self.spec_outcome(),
    {
        match self {
            AttemptPhase::Presented { .. } => Some(AttemptOutcome::Presented),
            AttemptPhase::OutOfDate => Some(AttemptOutcome::OutOfDate),
            _ => None,
        }
    }
}

} // verus!

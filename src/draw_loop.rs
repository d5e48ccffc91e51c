//! The decisions of `draw`: when to rebuild the swapchain and when to try a
//! frame again.
//!
//! A draw starts with a rebuild when the window was resized, then attempts a
//! frame. An attempt that finds the surface out of date is followed by a
//! rebuild and a new attempt of the same frame. After `limit` consecutive stale
//! results the draw gives up, so that a broken driver state becomes a fatal
//! error instead of an endless loop.

use vstd::prelude::*;
use crate::attempt::AttemptOutcome;

verus! {

/// What the host does next.
#[derive(Clone, Copy, Debug, PartialEq, Eq, Structural)]
pub enum DrawStep {
    /// Rebuild the swapchain, then report it with `recreated`.
    Recreate,
    /// Attempt the frame, then report how it ended with `attempted`.
    Attempt,
    /// The frame was presented; the draw is over.
    Finished,
    /// Too many consecutive stale results; the draw failed for good.
    GaveUp,
}

#[derive(Clone, Copy, Debug, PartialEq, Eq, Structural)]
pub struct DrawLoop {
    pub step: DrawStep,
    /// Stale results seen since the last presented frame.
    pub stale_in_row: u64,
    /// Swapchain rebuilds asked for during this draw.
    pub recreations: u64,
    /// How many stale results in a row are absorbed.
    pub limit: u32,
}

impl DrawLoop {
    pub open spec fn wf(self) -> bool {
        &&& self.stale_in_row <= self.limit as nat + 1
        &&& self.step !is GaveUp ==> self.stale_in_row <= self.limit
        &&& self.step is Recreate ==> self.recreations <= self.stale_in_row
        &&& self.recreations <= self.stale_in_row + 1
    }

    pub open spec fn spec_start(window_resized: bool, limit: u32) -> DrawLoop {
        DrawLoop {
            step: if window_resized { DrawStep::Recreate } else { DrawStep::Attempt },
            stale_in_row: 0,
            recreations: 0,
            limit,
        }
    }

    pub open spec fn after_recreate(self) -> DrawLoop
        recommends
            self.step is Recreate,
    {
        DrawLoop { step: DrawStep::Attempt, recreations: (self.recreations + 1) as u64, ..self }
    }

    pub open spec fn after_attempt(self, outcome: AttemptOutcome) -> DrawLoop
        recommends
            self.step is Attempt,
    {
        match outcome {
            AttemptOutcome::Presented => DrawLoop { step: DrawStep::Finished, ..self },
            AttemptOutcome::OutOfDate => DrawLoop {
                step: if self.stale_in_row < self.limit { DrawStep::Recreate } else { DrawStep::GaveUp },
                stale_in_row: (self.stale_in_row + 1) as u64,
                ..self
            },
        }
    }

    /// One attempt with the given outcome, followed by the rebuild it calls for.
    pub open spec fn absorb(self, outcome: AttemptOutcome) -> DrawLoop {
        let a = self.after_attempt(outcome);
        if a.step is Recreate {
            a.after_recreate()
        } else {
            a
        }
    }

    /// The loop after attempts with the given outcomes, each followed by the
    /// rebuild it calls for; outcomes past the end of the draw are not used.
    pub open spec fn run(self, outcomes: Seq<AttemptOutcome>) -> DrawLoop
        decreases outcomes.len(),
    {
        if outcomes.len() == 0 || self.step !is Attempt {
            self
        } else {
            self.absorb(outcomes[0]).run(outcomes.drop_first())
        }
    }

    /// The loop at the start of a draw: a rebuild first when the window was
    /// resized, else an attempt.
    pub fn start(window_resized: bool, limit: u32) -> (r: DrawLoop)
        ensures
            r == DrawLoop::spec_start(window_resized, limit),
            r.wf(),
    {
        DrawLoop {
            step: if window_resized { DrawStep::Recreate } else { DrawStep::Attempt },
            stale_in_row: 0,
            recreations: 0,
            limit,
        }
    }

    /// Takes in that the swapchain was rebuilt.
    pub fn recreated(&mut self)
        requires
            old(self).wf(),
            old(self).step is Recreate,
        ensures
            *final(self) == old(self).after_recreate(),
            final(self).wf(),
    {
        self.step = DrawStep::Attempt;
        self.recreations = self.recreations + 1;
    }

    /// Takes in how an attempt ended.
    pub fn attempted(&mut self, outcome: AttemptOutcome)
        requires
            old(self).wf(),
            old(self).step is Attempt,
        ensures
            *final(self) == old(self).after_attempt(outcome),
            final(self).wf(),
    {
        match outcome {
            AttemptOutcome::Presented => {
                self.step = DrawStep::Finished;
            },
            AttemptOutcome::OutOfDate => {
                self.step = if self.stale_in_row < self.limit as u64 {
                    DrawStep::Recreate
                } else {
                    DrawStep::GaveUp
                };
                self.stale_in_row = self.stale_in_row + 1;
            },
        }
    }
}

/// `n` stale results followed by a presented frame.
pub open spec fn stale_then_presented(n: nat) -> Seq<AttemptOutcome> {
    Seq::new(n, |i: int| AttemptOutcome::OutOfDate).push(AttemptOutcome::Presented)
}

proof fn lemma_stale_run_from(s: DrawLoop, m: nat)
    requires
        s.step is Attempt,
        s.recreations == s.stale_in_row,
        s.stale_in_row + m <= s.limit,
    ensures
        s.run(stale_then_presented(m)) == (DrawLoop {
            step: DrawStep::Finished,
            stale_in_row: (s.stale_in_row + m) as u64,
            recreations: (s.stale_in_row + m) as u64,
            limit: s.limit,
        }),
    decreases m,
{
    let os = stale_then_presented(m);
    if m == 0 {
        assert(os[0] == AttemptOutcome::Presented);
        assert(os.drop_first().len() == 0);
        assert(s.absorb(os[0]).run(os.drop_first()) == s.absorb(os[0]));
    } else {
        assert(os[0] == AttemptOutcome::OutOfDate);
        let next = s.absorb(AttemptOutcome::OutOfDate);
        assert(os.drop_first() =~= stale_then_presented((m - 1) as nat));
        lemma_stale_run_from(next, (m - 1) as nat);
    }
}

/// However many stale results in a row arrive, up to the limit, each is
/// followed by exactly one swapchain rebuild and one new attempt, and the
/// draw ends with the frame presented once.
pub proof fn lemma_stale_results_absorbed(limit: u32, n: nat)
    requires
        n <= limit,
    ensures
        DrawLoop::spec_start(false, limit).run(stale_then_presented(n)) == (DrawLoop {
            step: DrawStep::Finished,
            stale_in_row: n as u64,
            recreations: n as u64,
            limit,
        }),
{
    lemma_stale_run_from(DrawLoop::spec_start(false, limit), n);
}

/// One stale result more than the limit ends the draw without a frame.
pub proof fn lemma_stale_results_past_limit_give_up(limit: u32)
    ensures
        DrawLoop::spec_start(false, limit).run(stale_then_presented(limit as nat + 1)).step == DrawStep::GaveUp,
{
    let s = DrawLoop::spec_start(false, limit);
    let os = stale_then_presented(limit as nat + 1);
    lemma_stale_prefix(s, os, limit as nat);
}

proof fn lemma_stale_prefix(s: DrawLoop, os: Seq<AttemptOutcome>, m: nat)
    requires
        s.step is Attempt,
        s.recreations == s.stale_in_row,
        s.stale_in_row + m == s.limit,
        os.len() > m,
        forall|i: int| 0 <= i <= m ==> os[i] == AttemptOutcome::OutOfDate,
    ensures
        s.run(os).step == DrawStep::GaveUp,
    decreases m,
{
    let next = s.absorb(os[0]);
    if m == 0 {
        assert(next.step == DrawStep::GaveUp);
        assert(next.run(os.drop_first()) == next);
    } else {
        lemma_stale_prefix(next, os.drop_first(), (m - 1) as nat);
    }
}

} // verus!

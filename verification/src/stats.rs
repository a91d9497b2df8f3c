use vstd::prelude::*;

verus! {

/// What the training loop does next.
#[derive(Debug, Clone, Copy, PartialEq, Eq, Structural)]
pub enum TrainingAction {
    /// Run the epoch with this number over all patterns, in order.
    RunEpoch(usize),
    /// Training is over: it converged or reached the cap on epochs.
    Stop,
}

/// Counters of learning statistics for monitoring ED training progress
#[derive(Debug, Clone, Copy, PartialEq, Eq, Structural)]
pub struct LearningStats {
    /// Current epoch number
    pub epoch: usize,
    /// Number of patterns with significant error
    pub error_count: usize,
    /// Total number of patterns
    pub pattern_count: usize,
    /// Convergence achieved flag
    pub converged: bool,
}

impl LearningStats {
    /// No more patterns are in error than there are patterns.
    pub open spec fn wf(self) -> bool {
        self.error_count <= self.pattern_count
    }

    /// What follows the state `self` under a cap of `max_epochs` epochs.
    pub open spec fn next(self, max_epochs: int) -> TrainingAction {
        if self.converged || self.epoch >= max_epochs {
            TrainingAction::Stop
        } else {
            TrainingAction::RunEpoch((self.epoch + 1) as usize)
        }
    }

    /// Create new learning statistics
    pub fn new(pattern_count: usize) -> (r: Self)
        ensures
            r == (LearningStats { epoch: 0, error_count: 0, pattern_count, converged: false }),
            r.wf(),
    {
        Self { epoch: 0, error_count: 0, pattern_count, converged: false }
    }

    /// Update statistics for current epoch
    pub fn update_epoch(&mut self, epoch: usize, error_count: usize)
        requires
            error_count <= old(self).pattern_count,
        ensures
            *final(self) == (LearningStats { epoch, error_count, ..*old(self) }),
            final(self).wf(),
    {
        self.epoch = epoch;
        self.error_count = error_count;
    }

    /// Record whether the total error of the epoch lay below the threshold:
    /// learning has converged exactly then.
    pub fn check_convergence(&mut self, below_threshold: bool) -> (r: bool)
        ensures
            r == below_threshold,
            *final(self) == (LearningStats { converged: below_threshold, ..*old(self) }),
    {
        self.converged = below_threshold;
        self.converged
    }

    /// Number of patterns whose error stayed within the threshold.
    pub fn correct_count(&self) -> (r: usize)
        requires
            self.wf(),
        ensures
            r == self.pattern_count - self.error_count,
    {
        self.pattern_count - self.error_count
    }

    /// Decide the next step of training: stop once converged or once
    /// `max_epochs` epochs have run, else run the next epoch.
    pub fn next_action(&self, max_epochs: usize) -> (r: TrainingAction)
        ensures
            r == self.next(max_epochs as int),
    {
        if self.converged || self.epoch >= max_epochs {
            TrainingAction::Stop
        } else {
            TrainingAction::RunEpoch(self.epoch + 1)
        }
    }
}

} // verus!

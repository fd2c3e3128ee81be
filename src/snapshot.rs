//! The coordinated checkpoint round over every VM of a scenario: pause them
//! all, save or load the snapshot on each, and resume them all, whatever
//! failed in between.
use vstd::prelude::*;
use crate::error::VmError;

verus! {

#[derive(Debug, Clone, Copy, PartialEq, Eq, Structural)]
pub enum RoundStage {
    Pausing,
    Working,
    Resuming,
    Finished,
}

/// The next thing the runner must do in a round.
#[derive(Debug)]
pub enum RoundStep {
    Pause(usize),
    Snapshot(usize),
    Resume(usize),
    Finish(Result<(), VmError>),
}

/// A checkpoint round over `vm_count` VMs, in their scenario order.
#[derive(Debug, Clone)]
pub struct SnapshotRound {
    pub vm_count: usize,
    pub stage: RoundStage,
    pub next: usize,
    /// VMs paused so far.
    pub paused: usize,
    /// VMs whose snapshot succeeded so far.
    pub worked: usize,
    /// Resumes issued so far.
    pub resumed: usize,
    /// The first pause or snapshot failure.
    pub failure: Option<VmError>,
    /// The first resume failure.
    pub resume_failure: Option<VmError>,
}

impl SnapshotRound {
    pub open spec fn wf(&self) -> bool {
        let n = self.vm_count;
        &&& self.next <= n && self.paused <= n && self.worked <= n && self.resumed <= n
        &&& self.stage == RoundStage::Pausing ==> self.next < n && self.paused == self.next
            && self.worked == 0 && self.resumed == 0 && self.failure is None
        &&& self.stage == RoundStage::Working ==> self.next < n && self.paused == n && self.worked
            == self.next && self.resumed == 0 && self.failure is None
        &&& self.stage == RoundStage::Resuming ==> self.next < n && self.resumed == self.next && (
        self.failure is None ==> self.worked == n && self.paused == n)
        &&& self.stage == RoundStage::Finished ==> self.resumed == n && (self.failure is None
            ==> self.worked == n && self.paused == n)
    }

    /// A round over `vm_count` VMs; with none there is nothing to do.
    pub fn new(vm_count: usize) -> (r: Self)
        ensures
            r.wf(),
            r.vm_count == vm_count,
            r.paused == 0 && r.worked == 0 && r.resumed == 0,
            r.failure is None && r.resume_failure is None,
    {
        SnapshotRound {
            vm_count,
            stage: if vm_count == 0 {
                RoundStage::Finished
            } else {
                RoundStage::Pausing
            },
            next: 0,
            paused: 0,
            worked: 0,
            resumed: 0,
            failure: None,
            resume_failure: None,
        }
    }

    /// What to do next. A snapshot is only ever taken once every VM is paused;
    /// the round only finishes once a resume was issued to every VM; it
    /// succeeds only when every snapshot did and no step failed.
    pub fn step(&self) -> (r: RoundStep)
        requires
            self.wf(),
        ensures
            self.stage == RoundStage::Pausing ==> (r matches RoundStep::Pause(i) && i == self.next),
            self.stage == RoundStage::Working ==> (r matches RoundStep::Snapshot(i) && i == self.next),
            self.stage == RoundStage::Resuming ==> (r matches RoundStep::Resume(i) && i == self.next),
            self.stage == RoundStage::Finished ==> r is Finish,
            r matches RoundStep::Pause(i) ==> i == self.paused && i < self.vm_count,
            r matches RoundStep::Snapshot(i) ==> self.paused == self.vm_count && i == self.worked
                && i < self.vm_count,
            r matches RoundStep::Resume(i) ==> i == self.resumed && i < self.vm_count,
            r matches RoundStep::Finish(res) ==> {
                &&& self.resumed == self.vm_count
                &&& res is Ok <==> (self.failure is None && self.resume_failure is None)
                &&& res is Ok ==> self.worked == self.vm_count && self.paused == self.vm_count
                &&& self.failure matches Some(e) ==> res == Err::<(), VmError>(e)
            },
    {
        match self.stage {
            RoundStage::Pausing => RoundStep::Pause(self.next),
            RoundStage::Working => RoundStep::Snapshot(self.next),
            RoundStage::Resuming => RoundStep::Resume(self.next),
            RoundStage::Finished => {
                let res = match &self.failure {
                    Some(e) => Err(e.duplicate()),
                    None => match &self.resume_failure {
                        Some(e) => Err(e.duplicate()),
                        None => Ok(()),
                    },
                };
                RoundStep::Finish(res)
            },
        }
    }

    /// Record the outcome of the step last returned by `step`.
    pub fn record(&mut self, outcome: Result<(), VmError>)
        requires
            old(self).wf(),
            old(self).stage != RoundStage::Finished,
        ensures
            final(self).wf(),
            final(self).vm_count == old(self).vm_count,
            ({
                let o = *old(self);
                let f = *final(self);
                let last = o.next + 1 == o.vm_count;
                match (o.stage, outcome) {
                    (RoundStage::Pausing, Ok(())) => {
                        &&& f.paused == o.paused + 1
                        &&& f.worked == o.worked && f.resumed == o.resumed
                        &&& f.failure == o.failure && f.resume_failure == o.resume_failure
                        &&& if last {
                            f.stage == RoundStage::Working && f.next == 0
                        } else {
                            f.stage == RoundStage::Pausing && f.next == o.next + 1
                        }
                    },
                    (RoundStage::Pausing, Err(e)) | (RoundStage::Working, Err(e)) => {
                        &&& f.failure == Some(e)
                        &&& f.stage == RoundStage::Resuming && f.next == 0
                        &&& f.paused == o.paused && f.worked == o.worked && f.resumed == o.resumed
                        &&& f.resume_failure == o.resume_failure
                    },
                    (RoundStage::Working, Ok(())) => {
                        &&& f.worked == o.worked + 1
                        &&& f.paused == o.paused && f.resumed == o.resumed
                        &&& f.failure == o.failure && f.resume_failure == o.resume_failure
                        &&& if last {
                            f.stage == RoundStage::Resuming && f.next == 0
                        } else {
                            f.stage == RoundStage::Working && f.next == o.next + 1
                        }
                    },
                    (RoundStage::Resuming, res) => {
                        &&& f.resumed == o.resumed + 1
                        &&& f.paused == o.paused && f.worked == o.worked
                        &&& f.failure == o.failure
                        &&& f.resume_failure == match (o.resume_failure, res) {
                            (None, Err(e)) => Some(e),
                            (rf, _) => rf,
                        }
                        &&& if last {
                            f.stage == RoundStage::Finished && f.next == o.next + 1
                        } else {
                            f.stage == RoundStage::Resuming && f.next == o.next + 1
                        }
                    },
                    (RoundStage::Finished, _) => false,
                }
            }),
    {
        let n = self.vm_count;
        match self.stage {
            RoundStage::Pausing => match outcome {
                Ok(()) => {
                    self.paused = self.paused + 1;
                    self.next = self.next + 1;
                    if self.next == n {
                        self.stage = RoundStage::Working;
                        self.next = 0;
                    }
                },
                Err(e) => {
                    self.failure = Some(e);
                    self.stage = RoundStage::Resuming;
                    self.next = 0;
                },
            },
            RoundStage::Working => match outcome {
                Ok(()) => {
                    self.worked = self.worked + 1;
                    self.next = self.next + 1;
                    if self.next == n {
                        self.stage = RoundStage::Resuming;
                        self.next = 0;
                    }
                },
                Err(e) => {
                    self.failure = Some(e);
                    self.stage = RoundStage::Resuming;
                    self.next = 0;
                },
            },
            RoundStage::Resuming => {
                match outcome {
                    Ok(()) => {},
                    Err(e) => {
                        if self.resume_failure.is_none() {
                            self.resume_failure = Some(e);
                        }
                    },
                }
                self.resumed = self.resumed + 1;
                self.next = self.next + 1;
                if self.next == n {
                    self.stage = RoundStage::Finished;
                }
            },
            RoundStage::Finished => {},
        }
    }
}

} // verus!

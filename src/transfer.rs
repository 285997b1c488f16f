use vstd::prelude::*;

use crate::i2c::{blocks, error_of, Error, I2c, Step};

verus! {

/// Where a program at step `pc` goes on a paired status read `s1`, `s2`,
/// and the result it reports if that ends it: a wait stays while its
/// condition holds; an error check jumps to the end with the error; any
/// other step moves on; reaching the end reports success.
pub open spec fn status_step(steps: Seq<Step>, pc: nat, s1: u16, s2: u16) -> (nat, Option<
    Result<(), Error>,
>) {
    let n = steps.len();
    if pc >= n {
        (pc, Some(Ok(())))
    } else {
        match steps[pc as int] {
            Step::WaitWhile(w) => if blocks(w, s1, s2) {
                (pc, None)
            } else if pc + 1 == n {
                (n, Some(Ok(())))
            } else {
                (pc + 1, None)
            },
            Step::CheckError => if error_of(s1) is Err {
                (n, Some(error_of(s1)))
            } else if pc + 1 == n {
                (n, Some(Ok(())))
            } else {
                (pc + 1, None)
            },
            _ => (pc, None),
        }
    }
}

/// A transaction program being carried out: the steps and the index of the
/// next one. The caller performs each step on the hardware and reports back;
/// the decisions are taken here.
pub struct Transfer {
    steps: Vec<Step>,
    pc: usize,
}

impl Transfer {
    pub closed spec fn steps(&self) -> Seq<Step> {
        self.steps@
    }

    /// Index of the next step; the program is over when it reaches the end.
    pub closed spec fn pc(&self) -> nat {
        self.pc as nat
    }

    pub closed spec fn wf(&self) -> bool {
        self.pc <= self.steps@.len()
    }

    /// Starts a program at its first step.
    pub fn new(steps: Vec<Step>) -> (r: Transfer)
        ensures
            r.wf(),
            r.steps() == steps@,
            r.pc() == 0,
    {
        Transfer { steps, pc: 0 }
    }

    /// The step to carry out next, if the program is not over.
    pub fn current(&self) -> (r: Option<Step>)
        requires
            self.wf(),
        ensures
            self.pc() < self.steps().len() ==> r == Some(self.steps()[self.pc() as int]),
            self.pc() >= self.steps().len() ==> r.is_none(),
    {
        if self.pc < self.steps.len() {
            Some(self.steps[self.pc])
        } else {
            None
        }
    }

    /// Reports that the current command or buffer read has been performed;
    /// any other step is left to `on_status`.
    pub fn performed(&mut self)
        requires
            old(self).wf(),
        ensures
            final(self).wf(),
            final(self).steps() == old(self).steps(),
            ({
                let pc = old(self).pc();
                if pc < old(self).steps().len() && (old(self).steps()[pc as int] is Issue
                    || old(self).steps()[pc as int] is Receive) {
                    final(self).pc() == pc + 1
                } else {
                    final(self).pc() == pc
                }
            }),
    {
        if self.pc < self.steps.len() {
            match self.steps[self.pc] {
                Step::Issue(_) | Step::Receive(_) => {
                    self.pc = self.pc + 1;
                },
                _ => {},
            }
        }
    }

    /// Hands over one paired read of the status registers (first, then
    /// second) for the current step. A wait moves on once its condition no
    /// longer holds. An error check ends the program with the error the first
    /// register reports, or moves on if there is none. Returns the result
    /// once the program is over.
    pub fn on_status<P, Scl, Sda>(&mut self, bus: &I2c<P, Scl, Sda>, s1: u16, s2: u16) -> (r:
        Option<Result<(), Error>>)
        requires
            old(self).wf(),
        ensures
            final(self).wf(),
            final(self).steps() == old(self).steps(),
            (final(self).pc(), r) == status_step(old(self).steps(), old(self).pc(), s1, s2),
    {
        let n = self.steps.len();
        if self.pc >= n {
            return Some(Ok(()));
        }
        match self.steps[self.pc] {
            Step::WaitWhile(w) => {
                if bus.wait_while(w, s1, s2) {
                    None
                } else {
                    self.pc = self.pc + 1;
                    if self.pc == n {
                        Some(Ok(()))
                    } else {
                        None
                    }
                }
            },
            Step::CheckError => {
                match bus.check_error(s1) {
                    Err(e) => {
                        self.pc = n;
                        Some(Err(e))
                    },
                    Ok(()) => {
                        self.pc = self.pc + 1;
                        if self.pc == n {
                            Some(Ok(()))
                        } else {
                            None
                        }
                    },
                }
            },
            _ => None,
        }
    }
}

} // verus!

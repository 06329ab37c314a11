//! What an instruction asks of the host, and how the host's answers decide
//! the instruction's outcome.
//!
//! An instruction of the program is decided from the accounts and the data
//! it was given. The decision is a list of steps. The host carries them out
//! in order, as one atomic unit, and reports each result to an `Execution`,
//! which says what comes next.

use crate::account::{Instruction, InstructionView};
use crate::error::{ProgramError, ProgramResult};
use crate::pubkey::Pubkey;
use vstd::prelude::*;

verus! {

/// One thing that the host does for an instruction.
#[derive(Clone, Debug, PartialEq, Eq)]
pub enum Step {
    /// Call another program. With seeds, the call is signed for the address
    /// that the seeds derive for this program.
    Invoke { instruction: Instruction, signer_seeds: Vec<Vec<u8>> },
    /// Replace what an account of this program stores.
    Write { account: Pubkey, data: Vec<u8> },
    /// Set the byte of a flag account to 1: a gating call is under way.
    Arm { flag_account: Pubkey },
    /// Set the byte of a flag account back to 0.
    Disarm { flag_account: Pubkey },
    /// Remove an account of this program and add its balance, `lamports`,
    /// to that of `receiver`.
    Close { account: Pubkey, receiver: Pubkey, lamports: u64 },
}

/// What a `Step` holds.
pub enum StepView {
    Invoke { instruction: InstructionView, signer_seeds: Seq<Seq<u8>> },
    Write { account: Pubkey, data: Seq<u8> },
    Arm { flag_account: Pubkey },
    Disarm { flag_account: Pubkey },
    Close { account: Pubkey, receiver: Pubkey, lamports: u64 },
}

impl View for Step {
    type V = StepView;

    open spec fn view(&self) -> StepView {
        match *self {
            Step::Invoke { instruction, signer_seeds } => StepView::Invoke {
                instruction: instruction@,
                signer_seeds: signer_seeds.deep_view(),
            },
            Step::Write { account, data } => StepView::Write { account, data: data@ },
            Step::Arm { flag_account } => StepView::Arm { flag_account },
            Step::Disarm { flag_account } => StepView::Disarm { flag_account },
            Step::Close { account, receiver, lamports } => StepView::Close { account, receiver, lamports },
        }
    }
}

impl DeepView for Step {
    type V = StepView;

    open spec fn deep_view(&self) -> StepView {
        self@
    }
}

/// A copy of a list of seeds.
pub fn copy_seeds(seeds: &Vec<Vec<u8>>) -> (r: Vec<Vec<u8>>)
    ensures
        r.deep_view() == seeds.deep_view(),
{
    let mut out: Vec<Vec<u8>> = Vec::new();
    let mut i: usize = 0;
    while i < seeds.len()
        invariant
            i <= seeds.len(),
            out@.len() == i,
            forall|j: int| 0 <= j < i ==> out@[j]@ == seeds@[j]@,
        decreases seeds.len() - i,
    {
        out.push(vstd::slice::slice_to_vec(seeds[i].as_slice()));
        i += 1;
    }
    assert(out.deep_view() =~= seeds.deep_view());
    out
}

impl Step {
    /// A copy of the step.
    pub fn duplicate(&self) -> (r: Step)
        ensures
            r@ == self@,
    {
        match self {
            Step::Invoke { instruction, signer_seeds } => Step::Invoke {
                instruction: instruction.duplicate(),
                signer_seeds: copy_seeds(signer_seeds),
            },
            Step::Write { account, data } => Step::Write {
                account: *account,
                data: vstd::slice::slice_to_vec(data.as_slice()),
            },
            Step::Arm { flag_account } => Step::Arm { flag_account: *flag_account },
            Step::Disarm { flag_account } => Step::Disarm { flag_account: *flag_account },
            Step::Close { account, receiver, lamports } => Step::Close {
                account: *account,
                receiver: *receiver,
                lamports: *lamports,
            },
        }
    }
}

/// How far the host has come with the steps of an instruction.
pub struct Progress {
    /// How many steps have succeeded.
    pub position: nat,
    /// The flag account that is armed, if one is.
    pub armed: Option<Pubkey>,
    /// The error of the step that failed, if one did.
    pub failure: Option<ProgramError>,
}

/// How an instruction ended, or that it has not ended yet.
#[derive(Clone, Copy, Debug, PartialEq, Eq, Structural)]
pub enum Outcome {
    /// The host has more to do.
    Pending,
    /// Every step succeeded.
    Succeeded,
    /// A step failed with this error, and the instruction with it.
    Failed(ProgramError),
}

/// Nothing done yet.
pub open spec fn initial_progress() -> Progress {
    Progress { position: 0, armed: None, failure: None }
}

/// The flag account that is armed once the first `count` steps have
/// succeeded.
pub open spec fn armed_after(steps: Seq<StepView>, count: nat) -> Option<Pubkey>
    decreases count,
{
    if count == 0 || count > steps.len() {
        None
    } else {
        match steps[count - 1] {
            StepView::Arm { flag_account } => Some(flag_account),
            StepView::Disarm { .. } => None,
            _ => armed_after(steps, (count - 1) as nat),
        }
    }
}

/// Whether the steps leave no flag account armed at their end.
pub open spec fn releases_flag(steps: Seq<StepView>) -> bool {
    armed_after(steps, steps.len()) is None
}

/// Whether `progress` is a state that the steps can be in.
pub open spec fn progress_fits(steps: Seq<StepView>, progress: Progress) -> bool {
    &&& progress.position <= steps.len()
    &&& progress.failure is Some ==> progress.position < steps.len()
    &&& progress.failure is None ==> progress.armed == armed_after(steps, progress.position)
}

/// What the host does next: after a failure, nothing but to disarm the flag
/// account that is still armed; else the next step in order.
pub open spec fn spec_next(steps: Seq<StepView>, progress: Progress) -> Option<StepView> {
    if progress.failure is Some {
        match progress.armed {
            Some(flag_account) => Some(StepView::Disarm { flag_account }),
            None => None,
        }
    } else if progress.position < steps.len() {
        Some(steps[progress.position as int])
    } else {
        None
    }
}

/// The state after the host has reported `result` for the step that
/// `spec_next` named.
///
/// A success moves on by one step. The first failure is kept as the
/// instruction's error and ends the steps in order. A report on the disarming
/// after a failure leaves no flag account armed, whatever the report says.
pub open spec fn spec_report(steps: Seq<StepView>, progress: Progress, result: ProgramResult) -> Progress {
    if progress.failure is Some {
        Progress { armed: None, ..progress }
    } else if progress.position >= steps.len() {
        progress
    } else {
        match result {
            Ok(()) => Progress {
                position: progress.position + 1,
                armed: armed_after(steps, progress.position + 1),
                failure: None,
            },
            Err(error) => Progress {
                position: progress.position,
                armed: match steps[progress.position as int] {
                    StepView::Disarm { .. } => None,
                    _ => progress.armed,
                },
                failure: Some(error),
            },
        }
    }
}

/// How the instruction stands.
pub open spec fn spec_outcome(steps: Seq<StepView>, progress: Progress) -> Outcome {
    if spec_next(steps, progress) is Some {
        Outcome::Pending
    } else {
        match progress.failure {
            Some(error) => Outcome::Failed(error),
            None => Outcome::Succeeded,
        }
    }
}

/// The steps of one instruction on their way through the host.
pub struct Execution {
    steps: Vec<Step>,
    position: usize,
    armed: Option<Pubkey>,
    failure: Option<ProgramError>,
}

impl Execution {
    /// The steps that were handed in.
    pub closed spec fn steps(&self) -> Seq<StepView> {
        self.steps.deep_view()
    }

    /// How far the host has come.
    pub closed spec fn progress(&self) -> Progress {
        Progress { position: self.position as nat, armed: self.armed, failure: self.failure }
    }

    /// Whether the state is one that the steps can be in. `new` establishes
    /// it and `report` keeps it.
    pub open spec fn well_formed(&self) -> bool {
        progress_fits(self.steps(), self.progress())
    }

    /// Starts on the steps of an instruction.
    pub fn new(steps: Vec<Step>) -> (r: Execution)
        ensures
            r.steps() == steps.deep_view(),
            r.progress() == initial_progress(),
            r.well_formed(),
    {
        Execution { steps, position: 0, armed: None, failure: None }
    }

    /// What the host does next, or `None` once the instruction has ended.
    pub fn next(&self) -> (r: Option<Step>)
        requires
            self.well_formed(),
        ensures
            r.deep_view() == spec_next(self.steps(), self.progress()),
    {
        if self.failure.is_some() {
            match self.armed {
                Some(flag_account) => Some(Step::Disarm { flag_account }),
                None => None,
            }
        } else if self.position < self.steps.len() {
            let step = self.steps[self.position].duplicate();
            Some(step)
        } else {
            None
        }
    }

    /// Takes the host's result for the step that `next` named. It changes
    /// nothing once the instruction has ended.
    pub fn report(&mut self, result: ProgramResult)
        requires
            old(self).well_formed(),
        ensures
            final(self).steps() == old(self).steps(),
            final(self).progress() == spec_report(old(self).steps(), old(self).progress(), result),
            final(self).well_formed(),
    {
        if self.failure.is_some() {
            self.armed = None;
        } else if self.position < self.steps.len() {
            match result {
                Ok(()) => {
                    match &self.steps[self.position] {
                        Step::Arm { flag_account } => {
                            self.armed = Some(*flag_account);
                        },
                        Step::Disarm { .. } => {
                            self.armed = None;
                        },
                        _ => {},
                    }
                    self.position = self.position + 1;
                },
                Err(error) => {
                    match &self.steps[self.position] {
                        Step::Disarm { .. } => {
                            self.armed = None;
                        },
                        _ => {},
                    }
                    self.failure = Some(error);
                },
            }
        }
    }

    /// How the instruction stands.
    pub fn outcome(&self) -> (r: Outcome)
        requires
            self.well_formed(),
        ensures
            r == spec_outcome(self.steps(), self.progress()),
    {
        if self.failure.is_some() {
            match self.armed {
                Some(_) => Outcome::Pending,
                None => match self.failure {
                    Some(error) => Outcome::Failed(error),
                    None => Outcome::Succeeded,
                },
            }
        } else if self.position < self.steps.len() {
            Outcome::Pending
        } else {
            Outcome::Succeeded
        }
    }
}

/// A report keeps a state that the steps can be in.
pub proof fn lemma_report_fits(steps: Seq<StepView>, progress: Progress, result: ProgramResult)
    requires
        progress_fits(steps, progress),
    ensures
        progress_fits(steps, spec_report(steps, progress, result)),
{
}

/// An instruction that has ended has left no flag account armed: not after
/// its last step, where its steps release the flag, and not after a failure.
pub proof fn lemma_ended_is_disarmed(steps: Seq<StepView>, progress: Progress)
    requires
        progress_fits(steps, progress),
        releases_flag(steps),
        spec_outcome(steps, progress) != Outcome::Pending,
    ensures
        progress.armed is None,
{
}

/// After a failure no step of the instruction is carried out any more: all
/// that is left is to disarm the flag account.
pub proof fn lemma_failure_stops(steps: Seq<StepView>, progress: Progress)
    requires
        progress.failure is Some,
    ensures
        spec_next(steps, progress) matches Some(step) ==> step is Disarm,
        spec_outcome(steps, progress) != Outcome::Succeeded,
        forall|result: ProgramResult| #[trigger]
            spec_report(steps, progress, result).failure == progress.failure,
{
}

} // verus!

//! The start of the application: one instance runs, and a second one only shows the first.

use vstd::prelude::*;

verus! {

/// What the process does next.
#[derive(Clone, Copy, Debug, PartialEq, Eq, Structural)]
pub enum LaunchStep {
    /// Handle arguments that control a running process; the answer is whether there were any.
    HandleControlArgs,
    /// Become the only instance; the answer is whether that worked.
    AcquireInstance,
    /// Show the instance that is there already.
    ActivateExisting,
    /// Run the application.
    Run,
    /// End the process.
    Exit,
}

/// The step that follows a step; the answer counts only where the step asks for one.
pub open spec fn launch_after(step: LaunchStep, answer: bool) -> LaunchStep {
    match step {
        LaunchStep::HandleControlArgs => if answer {
            LaunchStep::Exit
        } else {
            LaunchStep::AcquireInstance
        },
        LaunchStep::AcquireInstance => if answer {
            LaunchStep::Run
        } else {
            LaunchStep::ActivateExisting
        },
        LaunchStep::ActivateExisting | LaunchStep::Run | LaunchStep::Exit => LaunchStep::Exit,
    }
}

/// The first step of the process.
pub fn first_step() -> (step: LaunchStep)
    ensures
        step == LaunchStep::HandleControlArgs,
{
    LaunchStep::HandleControlArgs
}

/// The step that follows a step.
pub fn next_step(step: LaunchStep, answer: bool) -> (next: LaunchStep)
    ensures
        next == launch_after(step, answer),
{
    match step {
        LaunchStep::HandleControlArgs => if answer {
            LaunchStep::Exit
        } else {
            LaunchStep::AcquireInstance
        },
        LaunchStep::AcquireInstance => if answer {
            LaunchStep::Run
        } else {
            LaunchStep::ActivateExisting
        },
        LaunchStep::ActivateExisting | LaunchStep::Run | LaunchStep::Exit => LaunchStep::Exit,
    }
}

/// The application runs only in a process that is not there for its arguments and that has
/// become the only instance.
pub proof fn law_only_the_single_instance_runs(handled: bool, acquired: bool)
    ensures
        ({
            let second = launch_after(LaunchStep::HandleControlArgs, handled);
            let third = launch_after(second, acquired);
            &&& third is Run <==> !handled && acquired
            &&& third is ActivateExisting <==> !handled && !acquired
            &&& launch_after(third, true) is Exit && launch_after(third, false) is Exit
        }),
{
}

/// A process that is there for its arguments ends without becoming an instance or running, and
/// every process ends after at most three steps.
pub proof fn law_control_args_end_the_process(handled: bool, acquired: bool, answer: bool)
    ensures
        ({
            let second = launch_after(LaunchStep::HandleControlArgs, handled);
            let third = launch_after(second, acquired);
            &&& handled ==> second is Exit && third is Exit
            &&& !handled ==> second is AcquireInstance
            &&& launch_after(third, answer) is Exit
            &&& launch_after(LaunchStep::Exit, answer) is Exit
        }),
{
}

} // verus!
